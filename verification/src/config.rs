//! The game's concrete startup wiring: the configuration aggregate assembled
//! once at launch and handed to the engine. It holds the resolved file paths,
//! the full ordered dispatch plan, and the frame-rate cap the launcher sets.

use crate::paths::{resource_paths, ResourcePaths};
use crate::plan::{DispatcherPlan, RegModel};
use vstd::prelude::*;

verus! {

/// Frames per second the launcher caps the main loop at, by sleeping.
pub const FRAME_RATE_CAP: u32 = 60;

/// The dispatch plan this game registers, in registration order: the two
/// prefab loaders and the scene loader, the audio DJ system, the transform
/// system the engine's transform bundle provides, the thread-local rendering
/// system, and the sprite processing and visibility-sorting systems, which
/// run after the transform system.
pub open spec fn base_plan_model() -> Seq<RegModel> {
    seq![
        RegModel { name: "creature_loader"@, deps: seq![], thread_local: false },
        RegModel { name: "gltf_loader"@, deps: seq!["creature_loader"@], thread_local: false },
        RegModel { name: ""@, deps: seq![], thread_local: false },
        RegModel { name: "dj"@, deps: seq![], thread_local: false },
        RegModel { name: "transform_system"@, deps: seq![], thread_local: false },
        RegModel { name: Seq::empty(), deps: seq![], thread_local: true },
        RegModel { name: "sprite_sheet_processor"@, deps: seq![], thread_local: false },
        RegModel { name: "visibility_system"@, deps: seq!["transform_system"@], thread_local: false },
        RegModel {
            name: "sprite_visibility_system"@,
            deps: seq!["transform_system"@],
            thread_local: false,
        },
    ]
}

/// Builds the game's dispatch plan in the order startup registers it:
/// the named prefab and scene loaders, an anonymous prefab loader, the DJ
/// system, then the bundles — the defaults bundle (whose transform bundle
/// provides the `transform_system` the later systems depend on), the
/// rendering bundle's thread-local system, and the sprite bundle's three
/// systems.
pub fn base_game_plan() -> (p: DispatcherPlan)
    ensures
        p@ == base_plan_model(),
        p.wf(),
{
    proof {
        reveal_strlit("creature_loader");
        reveal_strlit("gltf_loader");
        reveal_strlit("");
        reveal_strlit("dj");
        reveal_strlit("transform_system");
        reveal_strlit("sprite_sheet_processor");
        reveal_strlit("visibility_system");
        reveal_strlit("sprite_visibility_system");
    }
    let mut p = DispatcherPlan::new();
    p.add("creature_loader".to_owned(), Vec::new());
    let mut gltf_deps: Vec<String> = Vec::new();
    gltf_deps.push("creature_loader".to_owned());
    proof {
        assert(gltf_deps@.map_values(|x: String| x@) =~= seq!["creature_loader"@]);
        assert(p@[0].name == "creature_loader"@ && !p@[0].thread_local);
    }
    p.add("gltf_loader".to_owned(), gltf_deps);
    p.add("".to_owned(), Vec::new());
    p.add("dj".to_owned(), Vec::new());
    p.add("transform_system".to_owned(), Vec::new());
    p.add_thread_local();
    p.add("sprite_sheet_processor".to_owned(), Vec::new());
    let mut vis_deps: Vec<String> = Vec::new();
    vis_deps.push("transform_system".to_owned());
    proof {
        assert(vis_deps@.map_values(|x: String| x@) =~= seq!["transform_system"@]);
        assert(p@[4].name == "transform_system"@ && !p@[4].thread_local);
    }
    p.add("visibility_system".to_owned(), vis_deps);
    let mut sprite_vis_deps: Vec<String> = Vec::new();
    sprite_vis_deps.push("transform_system".to_owned());
    proof {
        assert(sprite_vis_deps@.map_values(|x: String| x@) =~= seq!["transform_system"@]);
        assert(p@[4].name == "transform_system"@ && !p@[4].thread_local);
    }
    p.add("sprite_visibility_system".to_owned(), sprite_vis_deps);
    proof {
        assert(p@ =~~= base_plan_model());
    }
    p
}

/// Everything startup decides before the engine takes over: the resolved
/// configuration paths, the dispatch plan, and the frame-rate cap.
pub struct GameConfig {
    pub paths: ResourcePaths,
    pub plan: DispatcherPlan,
    pub frame_rate_cap: u32,
}

/// Assembles the launch configuration from the application root directory:
/// the paths under `<root>/resources`, the game's dispatch plan, and the
/// frame-rate cap of sixty frames per second.
pub fn game_config(app_root: &str) -> (c: GameConfig)
    ensures
        c.paths.resources@ == app_root@ + "/resources"@,
        c.paths.display_config@ == app_root@ + "/resources"@ + "/display_config.ron"@,
        c.paths.key_bindings@ == app_root@ + "/resources"@ + "/input.ron"@,
        c.paths.wf(),
        c.plan@ == base_plan_model(),
        c.plan.wf(),
        c.frame_rate_cap == FRAME_RATE_CAP,
{
    GameConfig {
        paths: resource_paths(app_root),
        plan: base_game_plan(),
        frame_rate_cap: FRAME_RATE_CAP,
    }
}

} // verus!

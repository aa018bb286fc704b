use game_wiring::config::{base_game_plan, game_config, FRAME_RATE_CAP};
use game_wiring::paths::resource_paths;
use game_wiring::plan::{DispatcherPlan, PlanError};
use game_wiring::state::{resolve_update, Transition};

#[test]
fn it_works() {
    assert_eq!(2 + 2, 4);
}

#[test]
fn paths_hang_off_the_resource_directory() {
    let p = resource_paths("/srv/game");
    assert_eq!(p.resources, "/srv/game/resources");
    assert_eq!(p.display_config, "/srv/game/resources/display_config.ron");
    assert_eq!(p.key_bindings, "/srv/game/resources/input.ron");
}

#[test]
fn paths_from_empty_root() {
    let p = resource_paths("");
    assert_eq!(p.resources, "/resources");
    assert_eq!(p.display_config, "/resources/display_config.ron");
    assert_eq!(p.key_bindings, "/resources/input.ron");
}

#[test]
fn base_plan_registers_in_order() {
    let p = base_game_plan();
    assert_eq!(p.len(), 9);
    assert_eq!(p.name_at(0).as_str(), "creature_loader");
    assert_eq!(p.name_at(1).as_str(), "gltf_loader");
    assert_eq!(p.name_at(2).as_str(), "");
    assert_eq!(p.name_at(3).as_str(), "dj");
    assert_eq!(p.name_at(4).as_str(), "transform_system");
    assert_eq!(p.name_at(5).as_str(), "");
    assert_eq!(p.name_at(6).as_str(), "sprite_sheet_processor");
    assert_eq!(p.name_at(7).as_str(), "visibility_system");
    assert_eq!(p.name_at(8).as_str(), "sprite_visibility_system");
}

#[test]
fn base_plan_dependencies_and_thread_local() {
    let p = base_game_plan();
    assert_eq!(p.deps_at(0), &Vec::<String>::new());
    assert_eq!(p.deps_at(1), &vec!["creature_loader".to_string()]);
    assert_eq!(p.deps_at(7), &vec!["transform_system".to_string()]);
    assert_eq!(p.deps_at(8), &vec!["transform_system".to_string()]);
    for i in 0..9 {
        assert_eq!(p.is_thread_local_at(i), i == 5);
    }
}

#[test]
fn registration_appends_and_resolves() {
    let mut p = DispatcherPlan::new();
    assert_eq!(p.try_add("loader".to_string(), vec![]), Ok(()));
    assert_eq!(
        p.try_add("renderer".to_string(), vec!["loader".to_string()]),
        Ok(())
    );
    assert_eq!(p.len(), 2);
    assert!(p.has_system(&"loader".to_string()));
    assert!(p.has_system(&"renderer".to_string()));
    assert!(!p.has_system(&"audio".to_string()));
}

#[test]
fn duplicate_name_is_refused() {
    let mut p = DispatcherPlan::new();
    assert_eq!(p.try_add("loader".to_string(), vec![]), Ok(()));
    assert_eq!(
        p.try_add("loader".to_string(), vec![]),
        Err(PlanError::DuplicateName)
    );
    assert_eq!(p.len(), 1);
}

#[test]
fn unknown_dependency_is_refused() {
    let mut p = DispatcherPlan::new();
    assert_eq!(
        p.try_add("renderer".to_string(), vec!["loader".to_string()]),
        Err(PlanError::UnknownDependency)
    );
    assert_eq!(p.len(), 0);
}

#[test]
fn dependency_must_be_registered_first() {
    let mut p = DispatcherPlan::new();
    assert_eq!(
        p.try_add("renderer".to_string(), vec!["loader".to_string()]),
        Err(PlanError::UnknownDependency)
    );
    assert_eq!(p.try_add("loader".to_string(), vec![]), Ok(()));
    assert_eq!(
        p.try_add("renderer".to_string(), vec!["loader".to_string()]),
        Ok(())
    );
}

#[test]
fn anonymous_registrations_may_repeat() {
    let mut p = DispatcherPlan::new();
    assert_eq!(p.try_add(String::new(), vec![]), Ok(()));
    assert_eq!(p.try_add(String::new(), vec![]), Ok(()));
    assert_eq!(p.len(), 2);
}

#[test]
fn nothing_can_depend_on_an_anonymous_registration() {
    let mut p = DispatcherPlan::new();
    assert_eq!(p.try_add(String::new(), vec![]), Ok(()));
    assert!(!p.has_system(&String::new()));
    assert_eq!(
        p.try_add("renderer".to_string(), vec![String::new()]),
        Err(PlanError::UnknownDependency)
    );
}

#[test]
fn nothing_can_depend_on_a_thread_local_system() {
    let mut p = DispatcherPlan::new();
    p.add_thread_local();
    assert_eq!(p.len(), 1);
    assert!(p.is_thread_local_at(0));
    assert_eq!(
        p.try_add("renderer".to_string(), vec![String::new()]),
        Err(PlanError::UnknownDependency)
    );
}

#[test]
fn name_clash_is_reported_before_missing_dependency() {
    let mut p = DispatcherPlan::new();
    assert_eq!(p.try_add("loader".to_string(), vec![]), Ok(()));
    assert_eq!(
        p.try_add("loader".to_string(), vec!["missing".to_string()]),
        Err(PlanError::DuplicateName)
    );
}

#[test]
fn update_forwards_the_inner_transition() {
    assert_eq!(resolve_update(Some(Transition::Quit)), Transition::Quit);
    assert_eq!(resolve_update(Some(Transition::Push)), Transition::Push);
    assert_eq!(resolve_update(Some(Transition::Pop)), Transition::Pop);
    assert_eq!(resolve_update(Some(Transition::Switch)), Transition::Switch);
    assert_eq!(resolve_update(Some(Transition::Stay)), Transition::Stay);
}

#[test]
fn update_without_an_inner_state_is_a_no_op() {
    assert_eq!(resolve_update(None), Transition::Stay);
}

#[test]
fn config_aggregates_paths_plan_and_frame_cap() {
    let c = game_config("/opt/game");
    assert_eq!(FRAME_RATE_CAP, 60);
    assert_eq!(c.frame_rate_cap, 60);
    assert_eq!(c.paths.resources, "/opt/game/resources");
    assert_eq!(c.paths.display_config, "/opt/game/resources/display_config.ron");
    assert_eq!(c.paths.key_bindings, "/opt/game/resources/input.ron");
    assert_eq!(c.plan.len(), 9);
    assert_eq!(c.plan.name_at(3).as_str(), "dj");
}

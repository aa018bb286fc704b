//! Resolution of the configuration file paths from the application root
//! directory: everything the game reads at startup lives under `resources/`.

use vstd::prelude::*;

verus! {

/// The file locations a launch needs: the resource directory, the display
/// configuration inside it, and the key-binding configuration inside it.
pub struct ResourcePaths {
    pub resources: String,
    pub display_config: String,
    pub key_bindings: String,
}

impl ResourcePaths {
    /// All three paths hang off one resource directory.
    pub open spec fn wf(&self) -> bool {
        &&& self.display_config@ == self.resources@ + "/display_config.ron"@
        &&& self.key_bindings@ == self.resources@ + "/input.ron"@
    }
}

/// Builds the launch paths from the application root directory: the resource
/// directory is `<root>/resources`, and the two configuration files are
/// `display_config.ron` and `input.ron` inside it.
pub fn resource_paths(app_root: &str) -> (r: ResourcePaths)
    ensures
        r.resources@ == app_root@ + "/resources"@,
        r.display_config@ == app_root@ + "/resources"@ + "/display_config.ron"@,
        r.key_bindings@ == app_root@ + "/resources"@ + "/input.ron"@,
        r.wf(),
{
    let resources = app_root.to_owned().concat("/resources");
    let display_config = resources.clone().concat("/display_config.ron");
    let key_bindings = resources.clone().concat("/input.ron");
    ResourcePaths { resources, display_config, key_bindings }
}

} // verus!

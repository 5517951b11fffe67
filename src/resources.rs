//! The library's configuration: where levels live and the name suffixes that
//! mark lights, colliders and spawn points in a level's scene.

use vstd::prelude::*;

verus! {

/// Where levels are loaded from, and the suffixes that mark a scene node as a
/// light, a collider or a spawn point.
#[derive(Clone, Debug)]
pub struct HammerspaceConfig {
    pub level_folder: String,
    pub lights_identifier: String,
    pub collision_identifier: String,
    pub spawn_identifier: String,
}

impl Default for HammerspaceConfig {
    /// No level folder, and the suffixes `_light`, `_colllider` and `_spawn`.
    fn default() -> (r: Self)
        ensures
            r.level_folder@ == Seq::<char>::empty(),
            r.lights_identifier@ == "_light"@,
            r.collision_identifier@ == "_colllider"@,
            r.spawn_identifier@ == "_spawn"@,
    {
        HammerspaceConfig {
            level_folder: String::new(),
            lights_identifier: String::from_str("_light"),
            collision_identifier: String::from_str("_colllider"),
            spawn_identifier: String::from_str("_spawn"),
        }
    }
}

impl HammerspaceConfig {
    /// The default suffixes, with levels loaded from `level_folder`.
    pub fn new(level_folder: String) -> (r: Self)
        ensures
            r.level_folder@ == level_folder@,
            r.lights_identifier@ == "_light"@,
            r.collision_identifier@ == "_colllider"@,
            r.spawn_identifier@ == "_spawn"@,
    {
        let mut config = HammerspaceConfig::default();
        config.level_folder = level_folder;
        config
    }
}

} // verus!

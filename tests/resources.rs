use hammerspace::resources::HammerspaceConfig;

#[test]
fn default_config() {
    let c = HammerspaceConfig::default();
    assert_eq!(c.level_folder, "");
    assert_eq!(c.lights_identifier, "_light");
    assert_eq!(c.collision_identifier, "_colllider");
    assert_eq!(c.spawn_identifier, "_spawn");
}

#[test]
fn config_with_level_folder() {
    let c = HammerspaceConfig::new("levels".to_string());
    assert_eq!(c.level_folder, "levels");
    assert_eq!(c.lights_identifier, "_light");
    assert_eq!(c.collision_identifier, "_colllider");
    assert_eq!(c.spawn_identifier, "_spawn");
}

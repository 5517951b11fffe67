use hammerspace::assembler::{
    actor_blueprint_path, assets_load_verdict, gltf_entries, is_level_entity,
    level_blueprint_path, sprite_layer_names, sprite_layer_path, sprite_sheet_entries,
    still_image_entries, still_image_path, AssetLoadState, LoadStatus, SPRITE_LAYER_COUNT,
};

#[test]
fn verdict_loaded_when_everything_loaded() {
    let images = vec![LoadStatus::Loaded, LoadStatus::Loaded];
    let meshes = vec![LoadStatus::Loaded];
    assert_eq!(assets_load_verdict(&images, &meshes), AssetLoadState::Loaded);
}

#[test]
fn verdict_loaded_when_nothing_to_load() {
    assert_eq!(assets_load_verdict(&vec![], &vec![]), AssetLoadState::Loaded);
}

#[test]
fn verdict_loading_while_pending() {
    let images = vec![LoadStatus::Loaded, LoadStatus::Pending];
    let meshes = vec![LoadStatus::Loaded];
    assert_eq!(assets_load_verdict(&images, &meshes), AssetLoadState::Loading);
    let meshes = vec![LoadStatus::Pending];
    assert_eq!(assets_load_verdict(&vec![], &meshes), AssetLoadState::Loading);
}

#[test]
fn verdict_failed_wins_over_pending() {
    let images = vec![LoadStatus::Pending];
    let meshes = vec![LoadStatus::Loaded, LoadStatus::Failed];
    assert_eq!(assets_load_verdict(&images, &meshes), AssetLoadState::Failed);
    let images = vec![LoadStatus::Failed];
    assert_eq!(assets_load_verdict(&images, &vec![]), AssetLoadState::Failed);
}

#[test]
fn level_entity_lookup() {
    let levels = vec![4u64, 9, 12];
    assert!(is_level_entity(9, &levels));
    assert!(!is_level_entity(5, &levels));
    assert!(!is_level_entity(5, &vec![]));
}

#[test]
fn blueprint_paths() {
    assert_eq!(level_blueprint_path("docks"), "levels/docks.glb");
    assert_eq!(actor_blueprint_path("guard"), "blueprints/guard.glb");
    assert_eq!(level_blueprint_path(""), "levels/.glb");
}

#[test]
fn asset_paths() {
    assert_eq!(gltf_path_of("scenes/harbour"), "scenes/harbour.gltf");
    assert_eq!(still_image_path("title"), "images/title.png");
    assert_eq!(sprite_layer_path("hero", "uv_canvas"), "images/sprites/hero/uv_canvas.png");
}

fn gltf_path_of(file: &str) -> String {
    hammerspace::assembler::gltf_path(file)
}

#[test]
fn sprite_layer_table() {
    assert_eq!(SPRITE_LAYER_COUNT, 5);
    assert_eq!(sprite_layer_names(0), ("uv_color", "uv_canvas"));
    assert_eq!(sprite_layer_names(1), ("occlusion", "occlusion"));
    assert_eq!(sprite_layer_names(2), ("normals", "normal_sheet"));
    assert_eq!(sprite_layer_names(3), ("mask", "uv_sheet"));
    assert_eq!(sprite_layer_names(4), ("volume", "volume"));
}

#[test]
fn sprite_sheet_entries_layer_by_layer() {
    let sheets = vec!["hero".to_string(), "crate".to_string()];
    let r = sprite_sheet_entries(&sheets);
    assert_eq!(r.len(), 10);
    assert_eq!(r[0], ("uv_color".to_string(), "images/sprites/hero/uv_canvas.png".to_string()));
    assert_eq!(r[1], ("uv_color".to_string(), "images/sprites/crate/uv_canvas.png".to_string()));
    assert_eq!(r[4], ("normals".to_string(), "images/sprites/hero/normal_sheet.png".to_string()));
    assert_eq!(r[7], ("mask".to_string(), "images/sprites/crate/uv_sheet.png".to_string()));
    assert_eq!(r[9], ("volume".to_string(), "images/sprites/crate/volume.png".to_string()));
    assert!(sprite_sheet_entries(&vec![]).is_empty());
}

#[test]
fn keyed_entries_keep_keys_and_order() {
    let entries = vec![
        ("dock".to_string(), "levels/dock".to_string()),
        ("barrel".to_string(), "props/barrel".to_string()),
    ];
    let g = gltf_entries(&entries);
    assert_eq!(g, vec![
        ("dock".to_string(), "levels/dock.gltf".to_string()),
        ("barrel".to_string(), "props/barrel.gltf".to_string()),
    ]);
    let s = still_image_entries(&entries);
    assert_eq!(s, vec![
        ("dock".to_string(), "images/levels/dock.png".to_string()),
        ("barrel".to_string(), "images/props/barrel.png".to_string()),
    ]);
}

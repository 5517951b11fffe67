use hammerspace::loader::{
    collider_node_name, contains_text, is_prefab_node, level_asset_path, triangles_u16,
    triangles_u32,
};

#[test]
fn substring_search() {
    assert!(contains_text("crate_collider", "_collider"));
    assert!(contains_text("abc", ""));
    assert!(contains_text("abc", "abc"));
    assert!(!contains_text("ab", "abc"));
    assert!(!contains_text("", "a"));
    assert!(contains_text("aab", "ab"));
}

#[test]
fn prefab_nodes() {
    assert!(is_prefab_node("barrel"));
    assert!(!is_prefab_node("barrel_collider"));
    assert!(!is_prefab_node("lamp_ref"));
    assert!(!is_prefab_node("x_refinery"));
}

#[test]
fn level_and_collider_names() {
    assert_eq!(level_asset_path("levels", "docks.gltf"), "levels/docks.gltf");
    assert_eq!(collider_node_name("barrel"), "barrel_collider");
}

#[test]
fn triangles_from_u32_indices() {
    let t = triangles_u32(&vec![0, 1, 2, 2, 3, 0]);
    assert_eq!(t, vec![[0, 1, 2], [2, 3, 0]]);
    assert!(triangles_u32(&vec![]).is_empty());
}

#[test]
fn triangles_from_u16_indices() {
    let t = triangles_u16(&vec![5, 6, 7, 65535, 0, 1]);
    assert_eq!(t, vec![[5, 6, 7], [65535, 0, 1]]);
}

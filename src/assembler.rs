//! Level assembly: deciding when the level's assets are ready, and the asset
//! paths that levels and blueprints are loaded from.

use vstd::prelude::*;

verus! {

/// The stages of loading a level's assets.
#[derive(PartialEq, Eq, Structural, Debug, Clone, Copy)]
pub enum AssetLoadState {
    Initializing,
    Loading,
    Loaded,
    Failed,
}

/// What the asset server reports for one asset.
#[derive(PartialEq, Eq, Structural, Debug, Clone, Copy)]
pub enum LoadStatus {
    /// Not yet loaded, nor failed.
    Pending,
    Loaded,
    Failed,
}

/// Some asset of `s` failed to load.
pub open spec fn any_failed(s: Seq<LoadStatus>) -> bool {
    exists|i: int| 0 <= i < s.len() && s[i] == LoadStatus::Failed
}

/// Some asset of `s` is still on its way.
pub open spec fn any_pending(s: Seq<LoadStatus>) -> bool {
    exists|i: int| 0 <= i < s.len() && s[i] == LoadStatus::Pending
}

/// The state that the images and meshes being loaded put the level in: a
/// failure anywhere fails it; otherwise it is loading while anything is
/// pending, and loaded once nothing is.
pub open spec fn verdict_of(images: Seq<LoadStatus>, meshes: Seq<LoadStatus>) -> AssetLoadState {
    if any_failed(images) || any_failed(meshes) {
        AssetLoadState::Failed
    } else if any_pending(images) || any_pending(meshes) {
        AssetLoadState::Loading
    } else {
        AssetLoadState::Loaded
    }
}

/// The level counts as loaded exactly when every image and every mesh has
/// loaded.
pub proof fn lemma_loaded_iff_all_loaded(images: Seq<LoadStatus>, meshes: Seq<LoadStatus>)
    ensures
        verdict_of(images, meshes) == AssetLoadState::Loaded <==> (forall|i: int|
            0 <= i < images.len() ==> images[i] == LoadStatus::Loaded) && (forall|i: int|
            0 <= i < meshes.len() ==> meshes[i] == LoadStatus::Loaded),
{
    if verdict_of(images, meshes) == AssetLoadState::Loaded {
        assert forall|i: int| 0 <= i < images.len() implies images[i] == LoadStatus::Loaded by {
            assert(images[i] != LoadStatus::Failed && images[i] != LoadStatus::Pending);
        }
        assert forall|i: int| 0 <= i < meshes.len() implies meshes[i] == LoadStatus::Loaded by {
            assert(meshes[i] != LoadStatus::Failed && meshes[i] != LoadStatus::Pending);
        }
    }
}

/// Scans one list of statuses: whether some failed, whether some are pending.
fn scan_statuses(s: &Vec<LoadStatus>) -> (r: (bool, bool))
    ensures
        r.0 == any_failed(s@),
        r.1 == any_pending(s@),
{
    let mut failed = false;
    let mut pending = false;
    let mut i: usize = 0;
    while i < s.len()
        invariant
            i <= s.len(),
            failed == (exists|j: int| 0 <= j < i && s@[j] == LoadStatus::Failed),
            pending == (exists|j: int| 0 <= j < i && s@[j] == LoadStatus::Pending),
        decreases s.len() - i,
    {
        match s[i] {
            LoadStatus::Failed => {
                failed = true;
            },
            LoadStatus::Loaded => {},
            LoadStatus::Pending => {
                pending = true;
            },
        }
        i = i + 1;
    }
    (failed, pending)
}

/// The state of the level once the statuses of its images and meshes are known.
pub fn assets_load_verdict(images: &Vec<LoadStatus>, meshes: &Vec<LoadStatus>) -> (r: AssetLoadState)
    ensures
        r == verdict_of(images@, meshes@),
{
    let (images_failed, images_pending) = scan_statuses(images);
    let (meshes_failed, meshes_pending) = scan_statuses(meshes);
    if images_failed || meshes_failed {
        AssetLoadState::Failed
    } else if images_pending || meshes_pending {
        AssetLoadState::Loading
    } else {
        AssetLoadState::Loaded
    }
}

/// Whether the entity that became ready is one of the levels being loaded.
/// A level that becomes ready announces the level as loaded; any other entity
/// announces a finished blueprint.
pub fn is_level_entity(entity: u64, levels: &Vec<u64>) -> (r: bool)
    ensures
        r == levels@.contains(entity),
{
    let mut i: usize = 0;
    while i < levels.len()
        invariant
            i <= levels.len(),
            forall|j: int| 0 <= j < i ==> levels@[j] != entity,
        decreases levels.len() - i,
    {
        if levels[i] == entity {
            return true;
        }
        i = i + 1;
    }
    false
}

/// `a` followed by `b` followed by `c`.
fn join3(a: &str, b: &str, c: &str) -> (r: String)
    ensures
        r@ == a@ + b@ + c@,
{
    let mut r = String::from_str(a);
    r.append(b);
    r.append(c);
    r
}

/// The path of a level's scene: `levels/<name>.glb`.
pub fn level_blueprint_path(name: &str) -> (r: String)
    ensures
        r@ == "levels/"@ + name@ + ".glb"@,
{
    join3("levels/", name, ".glb")
}

/// The path of an actor's blueprint: `blueprints/<name>.glb`.
pub fn actor_blueprint_path(name: &str) -> (r: String)
    ensures
        r@ == "blueprints/"@ + name@ + ".glb"@,
{
    join3("blueprints/", name, ".glb")
}

/// The path of a scene or mesh file: `<file>.gltf`.
pub fn gltf_path(file: &str) -> (r: String)
    ensures
        r@ == file@ + ".gltf"@,
{
    let mut r = String::from_str(file);
    r.append(".gltf");
    r
}

/// The path of a still image: `images/<file>.png`.
pub fn still_image_path(file: &str) -> (r: String)
    ensures
        r@ == "images/"@ + file@ + ".png"@,
{
    join3("images/", file, ".png")
}

/// The path of one layer of a sprite sheet:
/// `images/sprites/<sheet>/<layer_file>.png`.
pub fn sprite_layer_path(sheet: &str, layer_file: &str) -> (r: String)
    ensures
        r@ == "images/sprites/"@ + sheet@ + "/"@ + layer_file@ + ".png"@,
{
    let mut r = String::from_str("images/sprites/");
    r.append(sheet);
    r.append("/");
    r.append(layer_file);
    r.append(".png");
    r
}

/// The number of layers that each sprite sheet is drawn from.
pub const SPRITE_LAYER_COUNT: usize = 5;

/// Layer `i` of a sprite sheet: the key that its image is stored under, and
/// the file in the sheet's folder that holds it.
pub open spec fn sprite_layer(i: int) -> (Seq<char>, Seq<char>) {
    if i == 0 {
        ("uv_color"@, "uv_canvas"@)
    } else if i == 1 {
        ("occlusion"@, "occlusion"@)
    } else if i == 2 {
        ("normals"@, "normal_sheet"@)
    } else if i == 3 {
        ("mask"@, "uv_sheet"@)
    } else {
        ("volume"@, "volume"@)
    }
}

/// Layer `i` of a sprite sheet, as `(key, file)`.
pub fn sprite_layer_names(i: usize) -> (r: (&'static str, &'static str))
    requires
        i < SPRITE_LAYER_COUNT,
    ensures
        r.0@ == sprite_layer(i as int).0,
        r.1@ == sprite_layer(i as int).1,
{
    if i == 0 {
        ("uv_color", "uv_canvas")
    } else if i == 1 {
        ("occlusion", "occlusion")
    } else if i == 2 {
        ("normals", "normal_sheet")
    } else if i == 3 {
        ("mask", "uv_sheet")
    } else {
        ("volume", "volume")
    }
}

/// The images of every layer of every sprite sheet, as `(key, path)`, layer by
/// layer and, within a layer, in the order of `sheets`. Entry `l * n + k`
/// (with `n` sheets) is layer `l` of sheet `k`.
pub fn sprite_sheet_entries(sheets: &Vec<String>) -> (r: Vec<(String, String)>)
    requires
        SPRITE_LAYER_COUNT * sheets@.len() <= usize::MAX,
    ensures
        r@.len() == SPRITE_LAYER_COUNT * sheets@.len(),
        forall|l: int, k: int|
            #![trigger r@[l * sheets@.len() + k]]
            0 <= l < SPRITE_LAYER_COUNT && 0 <= k < sheets@.len() ==> {
                &&& r@[l * sheets@.len() + k].0@ == sprite_layer(l).0
                &&& r@[l * sheets@.len() + k].1@ == "images/sprites/"@ + sheets@[k]@ + "/"@
                    + sprite_layer(l).1 + ".png"@
            },
{
    let n = sheets.len();
    let mut r: Vec<(String, String)> = Vec::new();
    let mut l: usize = 0;
    while l < SPRITE_LAYER_COUNT
        invariant
            n == sheets@.len(),
            SPRITE_LAYER_COUNT * n <= usize::MAX,
            l <= SPRITE_LAYER_COUNT,
            r@.len() == l * n,
            forall|l2: int, k: int|
                0 <= l2 < l && 0 <= k < n ==> {
                    &&& #[trigger] r@[l2 * n + k].0@ == sprite_layer(l2).0
                    &&& r@[l2 * n + k].1@ == "images/sprites/"@ + sheets@[k]@ + "/"@
                        + sprite_layer(l2).1 + ".png"@
                },
        decreases SPRITE_LAYER_COUNT - l,
    {
        let (key, file) = sprite_layer_names(l);
        let mut k: usize = 0;
        while k < n
            invariant
                n == sheets@.len(),
                SPRITE_LAYER_COUNT * n <= usize::MAX,
                l < SPRITE_LAYER_COUNT,
                k <= n,
                key@ == sprite_layer(l as int).0,
                file@ == sprite_layer(l as int).1,
                r@.len() == l * n + k,
                forall|l2: int, k2: int|
                    (0 <= l2 < l && 0 <= k2 < n) || (l2 == l && 0 <= k2 < k) ==> {
                        &&& #[trigger] r@[l2 * n + k2].0@ == sprite_layer(l2).0
                        &&& r@[l2 * n + k2].1@ == "images/sprites/"@ + sheets@[k2]@ + "/"@
                            + sprite_layer(l2).1 + ".png"@
                    },
            decreases n - k,
        {
            proof {
                assert((l + 1) * n <= SPRITE_LAYER_COUNT * n) by (nonlinear_arith)
                    requires l < SPRITE_LAYER_COUNT;
                assert((l + 1) * n == l * n + n) by (nonlinear_arith);
            }
            let path = sprite_layer_path(sheets[k].as_str(), file);
            let ghost before = r@;
            r.push((String::from_str(key), path));
            proof {
                assert(r@[l * n + k] == r@.last());
                assert(r@[l * n + k].0@ == sprite_layer(l as int).0);
                assert(r@[l * n + k].1@ == "images/sprites/"@ + sheets@[k as int]@ + "/"@
                    + sprite_layer(l as int).1 + ".png"@);
                assert forall|l2: int, k2: int|
                    (0 <= l2 < l && 0 <= k2 < n) || (l2 == l && 0 <= k2 <= k) implies
                        {
                            &&& #[trigger] r@[l2 * n + k2].0@ == sprite_layer(l2).0
                            &&& r@[l2 * n + k2].1@ == "images/sprites/"@ + sheets@[k2]@ + "/"@
                                + sprite_layer(l2).1 + ".png"@
                        } by {
                    if l2 < l {
                        assert(l2 * n + n <= l * n) by (nonlinear_arith)
                            requires l2 < l, n >= 0;
                    }
                    if l2 < l || k2 < k {
                        assert(l2 * n + k2 < l * n + k);
                        assert(r@[l2 * n + k2] == before[l2 * n + k2]);
                    }
                }
            }
            assert(forall|l2: int, k2: int|
                    (0 <= l2 < l && 0 <= k2 < n) || (l2 == l && 0 <= k2 <= k) ==> {
                        &&& #[trigger] r@[l2 * n + k2].0@ == sprite_layer(l2).0
                        &&& r@[l2 * n + k2].1@ == "images/sprites/"@ + sheets@[k2]@ + "/"@
                            + sprite_layer(l2).1 + ".png"@
                    });
            k = k + 1;
        }
        proof {
            assert((l + 1) * n == l * n + n) by (nonlinear_arith);
        }
        l = l + 1;
    }
    r
}

/// The scenes or meshes of a session, as `(key, path)`: each `(key, file)`
/// becomes `(key, <file>.gltf)`, in the same order.
pub fn gltf_entries(entries: &Vec<(String, String)>) -> (r: Vec<(String, String)>)
    ensures
        r@.len() == entries@.len(),
        forall|i: int|
            #![trigger r@[i]]
            0 <= i < entries@.len() ==> {
                &&& r@[i].0@ == entries@[i].0@
                &&& r@[i].1@ == entries@[i].1@ + ".gltf"@
            },
{
    let mut r: Vec<(String, String)> = Vec::new();
    let mut i: usize = 0;
    while i < entries.len()
        invariant
            i <= entries@.len(),
            r@.len() == i,
            forall|j: int|
                0 <= j < i ==> {
                    &&& #[trigger] r@[j].0@ == entries@[j].0@
                    &&& r@[j].1@ == entries@[j].1@ + ".gltf"@
                },
        decreases entries.len() - i,
    {
        let key = entries[i].0.clone();
        let path = gltf_path(entries[i].1.as_str());
        r.push((key, path));
        i = i + 1;
    }
    r
}

/// The still images of a session, as `(key, path)`: each `(key, file)`
/// becomes `(key, images/<file>.png)`, in the same order.
pub fn still_image_entries(entries: &Vec<(String, String)>) -> (r: Vec<(String, String)>)
    ensures
        r@.len() == entries@.len(),
        forall|i: int|
            #![trigger r@[i]]
            0 <= i < entries@.len() ==> {
                &&& r@[i].0@ == entries@[i].0@
                &&& r@[i].1@ == "images/"@ + entries@[i].1@ + ".png"@
            },
{
    let mut r: Vec<(String, String)> = Vec::new();
    let mut i: usize = 0;
    while i < entries.len()
        invariant
            i <= entries@.len(),
            r@.len() == i,
            forall|j: int|
                0 <= j < i ==> {
                    &&& #[trigger] r@[j].0@ == entries@[j].0@
                    &&& r@[j].1@ == "images/"@ + entries@[j].1@ + ".png"@
                },
        decreases entries.len() - i,
    {
        let key = entries[i].0.clone();
        let path = still_image_path(entries[i].1.as_str());
        r.push((key, path));
        i = i + 1;
    }
    r
}

} // verus!

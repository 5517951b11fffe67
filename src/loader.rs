//! Loading a level from its scene file: where the file is, which of its nodes
//! become prefabs, and the triangles of each prefab's collider.

use vstd::prelude::*;

verus! {

/// `pat` occurs in `s` at position `i`.
pub open spec fn occurs_at(s: Seq<char>, pat: Seq<char>, i: int) -> bool {
    0 <= i && i + pat.len() <= s.len() && s.subrange(i, i + pat.len()) == pat
}

/// `pat` occurs somewhere in `s`.
pub open spec fn has_substring(s: Seq<char>, pat: Seq<char>) -> bool {
    exists|i: int| occurs_at(s, pat, i)
}

/// Whether `pat` occurs in `s` at position `i`.
fn matches_at(s: &str, pat: &str, i: usize) -> (r: bool)
    requires
        i + pat@.len() <= s@.len() <= usize::MAX,
    ensures
        r == occurs_at(s@, pat@, i as int),
{
    let n = pat.unicode_len();
    let mut k: usize = 0;
    while k < n
        invariant
            n == pat@.len(),
            i + n <= s@.len() <= usize::MAX,
            k <= n,
            forall|j: int| 0 <= j < k ==> s@[i + j] == pat@[j],
        decreases n - k,
    {
        if s.get_char(i + k) != pat.get_char(k) {
            proof {
                assert(s@.subrange(i as int, i + n)[k as int] != pat@[k as int]);
            }
            return false;
        }
        k = k + 1;
    }
    proof {
        assert(s@.subrange(i as int, i + n) =~= pat@);
    }
    true
}

/// Whether `pat` occurs in `s`.
pub fn contains_text(s: &str, pat: &str) -> (r: bool)
    ensures
        r == has_substring(s@, pat@),
{
    let len = s.unicode_len();
    let n = pat.unicode_len();
    if n > len {
        proof {
            assert forall|i: int| !occurs_at(s@, pat@, i) by {}
        }
        return false;
    }
    let last = len - n;
    let mut i: usize = 0;
    while i < last
        invariant
            len == s@.len(),
            n == pat@.len(),
            last == len - n,
            i <= last,
            forall|j: int| 0 <= j < i ==> !occurs_at(s@, pat@, j),
        decreases last - i,
    {
        if matches_at(s, pat, i) {
            return true;
        }
        i = i + 1;
    }
    if matches_at(s, pat, last) {
        return true;
    }
    proof {
        assert forall|j: int| !occurs_at(s@, pat@, j) by {
            if 0 <= j && j + n <= len {
                assert(j <= last);
            }
        }
    }
    false
}

/// The path of a level's scene file: `<folder>/<name>`.
pub fn level_asset_path(folder: &str, name: &str) -> (r: String)
    ensures
        r@ == folder@ + "/"@ + name@,
{
    let mut r = String::from_str(folder);
    r.append("/");
    r.append(name);
    r
}

/// A node becomes a prefab unless its name marks it as a collider or as a
/// reference.
pub open spec fn is_prefab(name: Seq<char>) -> bool {
    !has_substring(name, "_collider"@) && !has_substring(name, "_ref"@)
}

/// Whether the scene node called `name` is spawned as a prefab.
pub fn is_prefab_node(name: &str) -> (r: bool)
    ensures
        r == is_prefab(name@),
{
    !contains_text(name, "_collider") && !contains_text(name, "_ref")
}

/// The name of the node that holds the collider of the node called `base`.
pub fn collider_node_name(base: &str) -> (r: String)
    ensures
        r@ == base@ + "_collider"@,
{
    let mut r = String::from_str(base);
    r.append("_collider");
    r
}

/// The node that holds a collider is never spawned as a prefab of its own.
pub proof fn lemma_collider_node_not_prefab(base: Seq<char>)
    ensures
        !is_prefab(base + "_collider"@),
{
    let name = base + "_collider"@;
    assert(name.subrange(base.len() as int, name.len() as int) =~= "_collider"@);
    assert(occurs_at(name, "_collider"@, base.len() as int));
}

/// Triangle `t` of a flat index buffer: its three entries from `3 * t` on.
pub open spec fn triangle_at<T>(indices: Seq<T>, t: int) -> (T, T, T) {
    (indices[3 * t], indices[3 * t + 1], indices[3 * t + 2])
}

/// The triangles of a 32-bit index buffer, three indices each, in order.
pub fn triangles_u32(indices: &Vec<u32>) -> (r: Vec<[u32; 3]>)
    requires
        indices@.len() % 3 == 0,
    ensures
        3 * r@.len() == indices@.len(),
        forall|t: int|
            #![trigger r@[t]]
            0 <= t < r@.len() ==> (r@[t]@[0], r@[t]@[1], r@[t]@[2]) == triangle_at(
                indices@,
                t,
            ),
{
    let mut r: Vec<[u32; 3]> = Vec::new();
    let mut i: usize = 0;
    while i < indices.len()
        invariant
            indices@.len() % 3 == 0,
            i % 3 == 0,
            i <= indices@.len(),
            3 * r@.len() == i,
            forall|t: int|
                #![trigger r@[t]]
                0 <= t < r@.len() ==> (r@[t]@[0], r@[t]@[1], r@[t]@[2])
                    == triangle_at(indices@, t),
        decreases indices.len() - i,
    {
        let tri: [u32; 3] = [indices[i], indices[i + 1], indices[i + 2]];
        r.push(tri);
        i = i + 3;
    }
    r
}

/// The triangles of a 16-bit index buffer, three indices each, in order, with
/// every index widened to 32 bits.
pub fn triangles_u16(indices: &Vec<u16>) -> (r: Vec<[u32; 3]>)
    requires
        indices@.len() % 3 == 0,
    ensures
        3 * r@.len() == indices@.len(),
        forall|t: int|
            #![trigger r@[t]]
            0 <= t < r@.len() ==> r@[t]@[0] == indices@[3 * t] && r@[t]@[1]
                == indices@[3 * t + 1] && r@[t]@[2] == indices@[3 * t + 2],
{
    let mut r: Vec<[u32; 3]> = Vec::new();
    let mut i: usize = 0;
    while i < indices.len()
        invariant
            indices@.len() % 3 == 0,
            i % 3 == 0,
            i <= indices@.len(),
            3 * r@.len() == i,
            forall|t: int|
                #![trigger r@[t]]
                0 <= t < r@.len() ==> r@[t]@[0] == indices@[3 * t] && r@[t]@[1]
                    == indices@[3 * t + 1] && r@[t]@[2] == indices@[3 * t + 2],
        decreases indices.len() - i,
    {
        let tri: [u32; 3] = [indices[i] as u32, indices[i + 1] as u32, indices[i + 2] as u32];
        r.push(tri);
        i = i + 3;
    }
    r
}

} // verus!

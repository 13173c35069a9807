//! The stream transform: rotate every grapheme cluster of a text, in order.

use vstd::prelude::*;
use vstd::string::StringExecFns;

use crate::rotate::{norm_shift, normalize_shift, rotate_cluster, rotate_cluster_spec};
use crate::segment::{graphemes_of, split_graphemes};

verus! {

/// Rotation of a whole sequence of text units, each by the same offset.
pub open spec fn rotate_clusters_spec(gs: Seq<Seq<char>>, k: int) -> Seq<Seq<char>>
    recommends
        0 <= k < 26,
{
    gs.map_values(|g: Seq<char>| rotate_cluster_spec(g, k))
}

/// The whole transform: segment the text into grapheme clusters, rotate
/// each by the normalized shift, and concatenate the results in order.
pub open spec fn transform_spec(s: Seq<char>, shift: int) -> Seq<char> {
    rotate_clusters_spec(graphemes_of(s), norm_shift(shift)).flatten()
}

/// Rotating a text unit never changes its length.
pub proof fn lemma_rotate_cluster_len(g: Seq<char>, k: int)
    ensures
        rotate_cluster_spec(g, k).len() == g.len(),
{
}

/// Rotating the units of a text never changes its total length.
pub proof fn lemma_rotate_clusters_total_len(gs: Seq<Seq<char>>, k: int)
    ensures
        rotate_clusters_spec(gs, k).flatten().len() == gs.flatten().len(),
    decreases gs.len(),
{
    if gs.len() == 0 {
        assert(rotate_clusters_spec(gs, k) =~= Seq::<Seq<char>>::empty());
    } else {
        let rs = rotate_clusters_spec(gs, k);
        assert(rs.drop_first() =~= rotate_clusters_spec(gs.drop_first(), k));
        lemma_rotate_clusters_total_len(gs.drop_first(), k);
        lemma_rotate_cluster_len(gs.first(), k);
        assert(rs.flatten() == rs.first() + rs.drop_first().flatten());
        assert(gs.flatten() == gs.first() + gs.drop_first().flatten());
    }
}

/// Round trip: rotating a segmented text by a shift `s` and the result by
/// the complementary shift `26 - s` restores every text unit, and so the
/// text, for any shift and any units — all-letter text included.
pub proof fn lemma_round_trip(gs: Seq<Seq<char>>, s: int)
    ensures
        rotate_clusters_spec(rotate_clusters_spec(gs, norm_shift(s)), norm_shift(26 - s)) == gs,
{
    let k: int = norm_shift(s);
    assert(norm_shift(26 - s) == norm_shift(26 - k)) by {
        vstd::arithmetic::div_mod::lemma_sub_mod_noop(26, s, 26);
        vstd::arithmetic::div_mod::lemma_sub_mod_noop(26, k, 26);
        vstd::arithmetic::div_mod::lemma_mod_twice(s, 26);
    }
    let rr = rotate_clusters_spec(rotate_clusters_spec(gs, k), norm_shift(26 - k));
    assert forall|i: int| 0 <= i < gs.len() implies rr[i] == gs[i] by {
        crate::rotate::lemma_rotate_cluster_round_trip(gs[i], k);
    }
    assert(rr =~= gs);
}

/// Shift normalization: two shifts that agree modulo the alphabet size —
/// such as `s`, `s + 26`, `s - 26` and `s + 260` — transform every text
/// identically.
pub proof fn lemma_shift_normalization(s: Seq<char>, a: int, b: int)
    requires
        (a - b) % 26 == 0,
    ensures
        transform_spec(s, a) == transform_spec(s, b),
{
    vstd::arithmetic::div_mod::lemma_mod_equivalence(a, b, 26);
}

/// Rotate each unit of an already segmented text by the normalized shift.
/// The output has one unit per input unit, in the same order.
pub fn rotate_clusters(gs: &Vec<String>, shift: i32) -> (r: Vec<String>)
    ensures
        r.deep_view() == rotate_clusters_spec(gs.deep_view(), norm_shift(shift as int)),
{
    let offset: u8 = normalize_shift(shift);
    let mut r: Vec<String> = Vec::new();
    let n: usize = gs.len();
    for i in 0..n
        invariant
            n == gs.len(),
            offset < 26,
            offset as int == norm_shift(shift as int),
            r.deep_view() == rotate_clusters_spec(gs.deep_view().take(i as int), offset as int),
    {
        let rotated = rotate_cluster(&gs[i], offset);
        r.push(rotated);
        proof {
            let dv = gs.deep_view();
            assert(dv.take(i + 1) =~= dv.take(i as int).push(dv[i as int]));
            assert(r.deep_view() =~= rotate_clusters_spec(dv.take(i as int), offset as int).push(
                rotate_cluster_spec(dv[i as int], offset as int),
            ));
            assert(rotate_clusters_spec(dv.take(i + 1), offset as int) =~= rotate_clusters_spec(
                dv.take(i as int),
                offset as int,
            ).push(rotate_cluster_spec(dv[i as int], offset as int)));
        }
    }
    proof {
        assert(gs.deep_view().take(n as int) =~= gs.deep_view());
    }
    r
}

/// Transform a text and hand back one output unit per grapheme cluster of
/// the input, in input order: the unit is the rotated character for an
/// eligible cluster and the untouched cluster otherwise. Concatenated, the
/// units are the transformed text, which has exactly the input's length.
pub fn transform_units(plaintext: &str, shift: i32) -> (r: Vec<String>)
    ensures
        r.deep_view() == rotate_clusters_spec(graphemes_of(plaintext@), norm_shift(shift as int)),
        r.deep_view().flatten() == transform_spec(plaintext@, shift as int),
        transform_spec(plaintext@, shift as int).len() == plaintext@.len(),
{
    let gs = split_graphemes(plaintext);
    proof {
        lemma_rotate_clusters_total_len(graphemes_of(plaintext@), norm_shift(shift as int));
    }
    rotate_clusters(&gs, shift)
}

/// Transform a whole text at once: every grapheme cluster that is a single
/// ASCII letter is rotated by the shift within its own alphabet; every
/// other cluster is kept unchanged; order is kept; the output has exactly
/// the input's length, so empty input gives empty output.
pub fn transform(plaintext: &str, shift: i32) -> (r: String)
    ensures
        r@ == transform_spec(plaintext@, shift as int),
        r@.len() == plaintext@.len(),
        plaintext@.len() == 0 ==> r@ == Seq::<char>::empty(),
{
    let units = transform_units(plaintext, shift);
    let mut out: String = String::new();
    let n: usize = units.len();
    for i in 0..n
        invariant
            n == units.len(),
            units.deep_view().flatten() == transform_spec(plaintext@, shift as int),
            transform_spec(plaintext@, shift as int).len() == plaintext@.len(),
            out@ == units.deep_view().take(i as int).flatten(),
    {
        out.append(units[i].as_str());
        proof {
            let dv = units.deep_view();
            assert(dv.take(i + 1) =~= dv.take(i as int).push(dv[i as int]));
            dv.take(i as int).lemma_flatten_push(dv[i as int]);
            assert(dv[i as int] == units@[i as int]@);
        }
    }
    proof {
        assert(units.deep_view().take(n as int) =~= units.deep_view());
    }
    out
}

} // verus!

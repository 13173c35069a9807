//! Shift normalization and rotation of single characters and clusters.

use vstd::prelude::*;
use vstd::string::StrSliceExecFns;

verus! {

/// A shift amount is significant only modulo the alphabet size: its
/// effective value is the unique equivalent offset in `[0, 26)`.
pub open spec fn norm_shift(s: int) -> int {
    s % 26
}

/// Fold an arbitrary signed shift into the equivalent offset in `[0, 26)`.
pub fn normalize_shift(shift: i32) -> (r: u8)
    ensures
        r as int == norm_shift(shift as int),
        r < 26,
{
    let m: Option<i32> = shift.checked_rem_euclid(26);
    m.unwrap() as u8
}

pub open spec fn is_lower(c: char) -> bool {
    'a' <= c && c <= 'z'
}

pub open spec fn is_upper(c: char) -> bool {
    'A' <= c && c <= 'Z'
}

pub open spec fn is_ascii_letter(c: char) -> bool {
    is_lower(c) || is_upper(c)
}

/// Rotation of a single character: an ASCII letter moves forward by `k`
/// positions within its own alphabet, wrapping around; anything else is
/// unchanged.
pub open spec fn rotate_char_spec(c: char, k: int) -> char
    recommends
        0 <= k < 26,
{
    if is_lower(c) {
        (((c as int - 'a' as int + k) % 26 + 'a' as int) as u8) as char
    } else if is_upper(c) {
        (((c as int - 'A' as int + k) % 26 + 'A' as int) as u8) as char
    } else {
        c
    }
}

pub fn rotate_char(c: char, offset: u8) -> (r: char)
    requires
        offset < 26,
    ensures
        r == rotate_char_spec(c, offset as int),
{
    let code: u32 = c as u32;
    if 'a' as u32 <= code && code <= 'z' as u32 {
        let b: u8 = ((code - 'a' as u32) as u8 + offset) % 26 + 'a' as u8;
        b as char
    } else if 'A' as u32 <= code && code <= 'Z' as u32 {
        let b: u8 = ((code - 'A' as u32) as u8 + offset) % 26 + 'A' as u8;
        b as char
    } else {
        c
    }
}

/// A cluster is rotation-eligible exactly when it consists of a single
/// character and that character is an ASCII letter.
pub open spec fn eligible(g: Seq<char>) -> bool {
    g.len() == 1 && is_ascii_letter(g[0])
}

/// Rotation of one text unit: an eligible cluster becomes the rotated
/// single character; any other cluster passes through unchanged.
pub open spec fn rotate_cluster_spec(g: Seq<char>, k: int) -> Seq<char>
    recommends
        0 <= k < 26,
{
    if eligible(g) {
        seq![rotate_char_spec(g[0], k)]
    } else {
        g
    }
}

/// Case preservation: rotation never changes the case of a letter. A
/// lowercase letter stays lowercase and an uppercase letter stays
/// uppercase, whatever the offset.
pub proof fn lemma_case_preserved(c: char, k: int)
    requires
        0 <= k < 26,
    ensures
        is_lower(c) ==> is_lower(rotate_char_spec(c, k)),
        is_upper(c) ==> is_upper(rotate_char_spec(c, k)),
{
}

/// Non-letter identity: a cluster that is not a single ASCII letter —
/// spaces, punctuation, digits, multi-character clusters — passes through
/// unchanged, whatever the offset.
pub proof fn lemma_non_letter_identity(g: Seq<char>, k: int)
    requires
        !eligible(g),
    ensures
        rotate_cluster_spec(g, k) == g,
{
}

/// Round trip on one character: rotating by `k` and then by the
/// complementary shift `26 - k` restores the character.
pub proof fn lemma_rotate_char_round_trip(c: char, k: int)
    requires
        0 <= k < 26,
    ensures
        rotate_char_spec(rotate_char_spec(c, k), norm_shift(26 - k)) == c,
{
    lemma_case_preserved(c, k);
}

/// Round trip on one text unit: rotating by `k` and then by the
/// complementary shift `26 - k` restores the unit, whether or not it is
/// rotation-eligible.
pub proof fn lemma_rotate_cluster_round_trip(g: Seq<char>, k: int)
    requires
        0 <= k < 26,
    ensures
        rotate_cluster_spec(rotate_cluster_spec(g, k), norm_shift(26 - k)) == g,
{
    if eligible(g) {
        lemma_case_preserved(g[0], k);
        lemma_rotate_char_round_trip(g[0], k);
        assert(rotate_cluster_spec(rotate_cluster_spec(g, k), norm_shift(26 - k)) =~= g);
    }
}

/// Relies on `String::push`: appends exactly the given character.
#[verifier::external_body]
fn push_char(s: &mut String, c: char)
    ensures
        final(s)@ == old(s)@.push(c),
{
    s.push(c);
}

pub fn rotate_cluster(g: &String, offset: u8) -> (r: String)
    requires
        offset < 26,
    ensures
        r@ == rotate_cluster_spec(g@, offset as int),
{
    let s: &str = g.as_str();
    if s.unicode_len() == 1 {
        let c: char = s.get_char(0);
        let code: u32 = c as u32;
        let lower = 'a' as u32 <= code && code <= 'z' as u32;
        let upper = 'A' as u32 <= code && code <= 'Z' as u32;
        if lower || upper {
            let mut out = String::new();
            push_char(&mut out, rotate_char(c, offset));
            proof {
                assert(g@ =~= seq![c]);
                assert(out@ =~= seq![rotate_char_spec(c, offset as int)]);
            }
            return out;
        }
    }
    g.clone()
}

} // verus!

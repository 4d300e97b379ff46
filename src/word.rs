//! Bit-level operations on the raw words held by registers.
//!
//! A field is described by a mask over the word and the shift of its least significant bit.
//! Storing into a field and resetting a field are both a merge: the bits under the field's
//! mask are taken from another word, the rest are kept.
use vstd::prelude::*;

verus! {

/// `v` with the bits selected by `m` taken from `d`.
pub open spec fn merge8(v: u8, d: u8, m: u8) -> u8 {
    (v & !m) | (d & m)
}

/// `v` with the bits selected by `m` taken from `d`.
pub open spec fn merge16(v: u16, d: u16, m: u16) -> u16 {
    (v & !m) | (d & m)
}

/// The value of the field of `v` under mask `m`, whose lowest bit is at `shift`.
pub open spec fn load8(v: u8, m: u8, shift: u8) -> u8 {
    (v & m) >> shift
}

/// The value of the field of `v` under mask `m`, whose lowest bit is at `shift`.
pub open spec fn load16(v: u16, m: u16, shift: u16) -> u16 {
    (v & m) >> shift
}

/// Resetting two fields of a word to their defaults gives the same word in either order,
/// and the same word as resetting both fields at once.
pub proof fn lemma_resets_commute8(v: u8, d: u8, m1: u8, m2: u8)
    ensures
        merge8(merge8(v, d, m1), d, m2) == merge8(merge8(v, d, m2), d, m1),
        merge8(merge8(v, d, m1), d, m2) == merge8(v, d, m1 | m2),
{
    assert(((((v & !m1) | (d & m1)) & !m2) | (d & m2)) == ((((v & !m2) | (d & m2)) & !m1) | (d
        & m1)) && ((((v & !m1) | (d & m1)) & !m2) | (d & m2)) == ((v & !(m1 | m2)) | (d & (m1
        | m2)))) by (bit_vector);
}

/// Resetting two fields of a word to their defaults gives the same word in either order,
/// and the same word as resetting both fields at once.
pub proof fn lemma_resets_commute16(v: u16, d: u16, m1: u16, m2: u16)
    ensures
        merge16(merge16(v, d, m1), d, m2) == merge16(merge16(v, d, m2), d, m1),
        merge16(merge16(v, d, m1), d, m2) == merge16(v, d, m1 | m2),
{
    assert(((((v & !m1) | (d & m1)) & !m2) | (d & m2)) == ((((v & !m2) | (d & m2)) & !m1) | (d
        & m1)) && ((((v & !m1) | (d & m1)) & !m2) | (d & m2)) == ((v & !(m1 | m2)) | (d & (m1
        | m2)))) by (bit_vector);
}

/// A word that already agrees with `d` outside the mask `m` becomes `d` once the bits under
/// `m` are reset to `d`.
pub proof fn lemma_reset_restores8(v: u8, d: u8, m: u8)
    requires
        v & !m == d & !m,
    ensures
        merge8(v, d, m) == d,
{
    assert(v & !m == d & !m ==> (v & !m) | (d & m) == d) by (bit_vector);
}

/// A word that already agrees with `d` outside the mask `m` becomes `d` once the bits under
/// `m` are reset to `d`.
pub proof fn lemma_reset_restores16(v: u16, d: u16, m: u16)
    requires
        v & !m == d & !m,
    ensures
        merge16(v, d, m) == d,
{
    assert(v & !m == d & !m ==> (v & !m) | (d & m) == d) by (bit_vector);
}

/// The word `v` after the fields under the masks of `ms` are reset to `d`, one after the other
/// in the order of `ms`.
pub open spec fn resets8(v: u8, d: u8, ms: Seq<u8>) -> u8
    decreases ms.len(),
{
    if ms.len() == 0 {
        v
    } else {
        merge8(resets8(v, d, ms.drop_last()), d, ms.last())
    }
}

/// The union of the masks of `ms`.
pub open spec fn union8(ms: Seq<u8>) -> u8
    decreases ms.len(),
{
    if ms.len() == 0 {
        0
    } else {
        union8(ms.drop_last()) | ms.last()
    }
}

/// Resetting fields one after the other gives the same word as resetting the bits under all
/// their masks at once, so the order in which they are reset does not matter.
pub proof fn lemma_resets_in_any_order8(v: u8, d: u8, ms: Seq<u8>)
    ensures
        resets8(v, d, ms) == merge8(v, d, union8(ms)),
    decreases ms.len(),
{
    if ms.len() == 0 {
        assert((v & !0u8) | (d & 0u8) == v) by (bit_vector);
    } else {
        lemma_resets_in_any_order8(v, d, ms.drop_last());
        lemma_resets_commute8(v, d, union8(ms.drop_last()), ms.last());
    }
}

/// Setting the one-bit field under `m` by a write starts from the default word `d`, and by a
/// modify from the stored word `s`. Both set the field; elsewhere the write keeps `d` and the
/// modify keeps `s`, so the two give the same word exactly when `d` and `s` agree outside the
/// field.
pub proof fn lemma_write_and_modify_diverge8(d: u8, s: u8, m: u8)
    ensures
        merge8(d, m, m) & m == m,
        merge8(s, m, m) & m == m,
        merge8(d, m, m) & !m == d & !m,
        merge8(s, m, m) & !m == s & !m,
        (merge8(d, m, m) == merge8(s, m, m)) <==> (d & !m == s & !m),
{
    assert(((d & !m) | (m & m)) & m == m && ((s & !m) | (m & m)) & m == m && ((d & !m) | (m
        & m)) & !m == d & !m && ((s & !m) | (m & m)) & !m == s & !m && (((d & !m) | (m & m))
        == ((s & !m) | (m & m)) <==> d & !m == s & !m)) by (bit_vector);
}

/// The word `v` after the fields under the masks of `ms` are reset to `d`, one after the other
/// in the order of `ms`.
pub open spec fn resets16(v: u16, d: u16, ms: Seq<u16>) -> u16
    decreases ms.len(),
{
    if ms.len() == 0 {
        v
    } else {
        merge16(resets16(v, d, ms.drop_last()), d, ms.last())
    }
}

/// The union of the masks of `ms`.
pub open spec fn union16(ms: Seq<u16>) -> u16
    decreases ms.len(),
{
    if ms.len() == 0 {
        0
    } else {
        union16(ms.drop_last()) | ms.last()
    }
}

/// Resetting fields one after the other gives the same word as resetting the bits under all
/// their masks at once, so the order in which they are reset does not matter.
pub proof fn lemma_resets_in_any_order16(v: u16, d: u16, ms: Seq<u16>)
    ensures
        resets16(v, d, ms) == merge16(v, d, union16(ms)),
    decreases ms.len(),
{
    if ms.len() == 0 {
        assert((v & !0u16) | (d & 0u16) == v) by (bit_vector);
    } else {
        lemma_resets_in_any_order16(v, d, ms.drop_last());
        lemma_resets_commute16(v, d, union16(ms.drop_last()), ms.last());
    }
}

/// Setting the one-bit field under `m` by a write starts from the default word `d`, and by a
/// modify from the stored word `s`. Both set the field; elsewhere the write keeps `d` and the
/// modify keeps `s`, so the two give the same word exactly when `d` and `s` agree outside the
/// field.
pub proof fn lemma_write_and_modify_diverge16(d: u16, s: u16, m: u16)
    ensures
        merge16(d, m, m) & m == m,
        merge16(s, m, m) & m == m,
        merge16(d, m, m) & !m == d & !m,
        merge16(s, m, m) & !m == s & !m,
        (merge16(d, m, m) == merge16(s, m, m)) <==> (d & !m == s & !m),
{
    assert(((d & !m) | (m & m)) & m == m && ((s & !m) | (m & m)) & m == m && ((d & !m) | (m
        & m)) & !m == d & !m && ((s & !m) | (m & m)) & !m == s & !m && (((d & !m) | (m & m))
        == ((s & !m) | (m & m)) <==> d & !m == s & !m)) by (bit_vector);
}

} // verus!

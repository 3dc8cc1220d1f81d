//! The byte model shared by every register view: single bits and two-bit fields.
use vstd::prelude::*;

verus! {

/// Whether bit `k` of `v` is set.
pub open spec fn bit(v: u8, k: u8) -> bool {
    (v >> k) & 1u8 == 1u8
}

/// `v` with bit `k` set.
pub open spec fn set_bit(v: u8, k: u8) -> u8 {
    v | (1u8 << k)
}

/// `v` with bit `k` cleared.
pub open spec fn clear_bit(v: u8, k: u8) -> u8 {
    v & !(1u8 << k)
}

/// The two-bit field of `v` whose low bit is bit `lo`.
pub open spec fn field2(v: u8, lo: u8) -> u8 {
    (v >> lo) & 3u8
}

/// `v` with the two-bit field at `lo` replaced by the low two bits of `x`.
pub open spec fn set_field2(v: u8, lo: u8, x: u8) -> u8 {
    (v & !(3u8 << lo)) | ((x & 3u8) << lo)
}

/// Setting bit `k` sets that bit and keeps every other one.
pub proof fn lemma_set_bit(v: u8, k: u8, i: u8)
    requires
        k < 8,
        i < 8,
    ensures
        bit(set_bit(v, k), i) == (i == k || bit(v, i)),
{
    assert(((v | (1u8 << k)) >> i) & 1u8 == 1u8 <==> (i == k || (v >> i) & 1u8 == 1u8))
        by (bit_vector)
        requires
            k < 8,
            i < 8,
    ;
}

/// Clearing bit `k` clears that bit and keeps every other one.
pub proof fn lemma_clear_bit(v: u8, k: u8, i: u8)
    requires
        k < 8,
        i < 8,
    ensures
        bit(clear_bit(v, k), i) == (i != k && bit(v, i)),
{
    assert(((v & !(1u8 << k)) >> i) & 1u8 == 1u8 <==> (i != k && (v >> i) & 1u8 == 1u8))
        by (bit_vector)
        requires
            k < 8,
            i < 8,
    ;
}

/// Replacing the two-bit field at `lo` writes its two bits from `x` and keeps every
/// other bit.
pub proof fn lemma_set_field2(v: u8, lo: u8, x: u8, i: u8)
    requires
        lo < 7,
        i < 8,
    ensures
        bit(set_field2(v, lo, x), i) == if i == lo {
            bit(x, 0)
        } else if i == lo + 1 {
            bit(x, 1)
        } else {
            bit(v, i)
        },
{
    let r = set_field2(v, lo, x);
    assert(((((v & !(3u8 << lo)) | ((x & 3u8) << lo)) >> i) & 1u8 == 1u8) == if i == lo {
        (x >> 0u8) & 1u8 == 1u8
    } else if i == lo + 1 {
        (x >> 1u8) & 1u8 == 1u8
    } else {
        (v >> i) & 1u8 == 1u8
    }) by (bit_vector)
        requires
            lo < 7,
            i < 8,
    ;
}

/// A two-bit field is made of the two bits it covers.
pub proof fn lemma_field2(v: u8, lo: u8)
    requires
        lo < 7,
    ensures
        field2(v, lo) == (if bit(v, lo) { 1u8 } else { 0u8 }) + (if bit(v, (lo + 1) as u8) {
            2u8
        } else {
            0u8
        }),
{
    assert(((v >> lo) & 3u8) == (if (v >> lo) & 1u8 == 1u8 { 1u8 } else { 0u8 }) + (if (v >> ((
    lo + 1) as u8)) & 1u8 == 1u8 {
        2u8
    } else {
        0u8
    })) by (bit_vector)
        requires
            lo < 7,
    ;
}

/// Setting a bit that is already set changes nothing: enabling a flag twice is enabling
/// it once.
pub proof fn lemma_set_bit_idempotent(v: u8, k: u8)
    requires
        k < 8,
    ensures
        set_bit(set_bit(v, k), k) == set_bit(v, k),
{
    assert((v | (1u8 << k)) | (1u8 << k) == v | (1u8 << k)) by (bit_vector)
        requires
            k < 8,
    ;
}

/// Clearing a bit that is already clear changes nothing: disabling a flag twice is
/// disabling it once.
pub proof fn lemma_clear_bit_idempotent(v: u8, k: u8)
    requires
        k < 8,
    ensures
        clear_bit(clear_bit(v, k), k) == clear_bit(v, k),
{
    assert((v & !(1u8 << k)) & !(1u8 << k) == v & !(1u8 << k)) by (bit_vector)
        requires
            k < 8,
    ;
}

/// Setting a clear bit and then clearing it gives the byte back: enabling a disabled
/// flag and then disabling it restores the setting.
pub proof fn lemma_set_then_clear(v: u8, k: u8)
    requires
        k < 8,
        !bit(v, k),
    ensures
        clear_bit(set_bit(v, k), k) == v,
{
    assert((v | (1u8 << k)) & !(1u8 << k) == v) by (bit_vector)
        requires
            k < 8,
            (v >> k) & 1u8 != 1u8,
    ;
}

/// Clearing a set bit and then setting it gives the byte back: disabling an enabled
/// flag and then enabling it restores the setting.
pub proof fn lemma_clear_then_set(v: u8, k: u8)
    requires
        k < 8,
        bit(v, k),
    ensures
        set_bit(clear_bit(v, k), k) == v,
{
    assert((v & !(1u8 << k)) | (1u8 << k) == v) by (bit_vector)
        requires
            k < 8,
            (v >> k) & 1u8 == 1u8,
    ;
}

/// A two-bit field reads back the value last written to it.
pub proof fn lemma_field2_round_trip(v: u8, lo: u8, x: u8)
    requires
        lo < 7,
        x < 4,
    ensures
        field2(set_field2(v, lo, x), lo) == x,
{
    assert((((v & !(3u8 << lo)) | ((x & 3u8) << lo)) >> lo) & 3u8 == x) by (bit_vector)
        requires
            lo < 7,
            x < 4,
    ;
}

/// Setting or clearing a bit outside a two-bit field leaves the field as it was.
pub proof fn lemma_field2_other_bit(v: u8, lo: u8, k: u8)
    requires
        lo < 7,
        k < 8,
        k != lo,
        k != lo + 1,
    ensures
        field2(set_bit(v, k), lo) == field2(v, lo),
        field2(clear_bit(v, k), lo) == field2(v, lo),
{
    assert(((v | (1u8 << k)) >> lo) & 3u8 == (v >> lo) & 3u8 && ((v & !(1u8 << k)) >> lo) & 3u8
        == (v >> lo) & 3u8) by (bit_vector)
        requires
            lo < 7,
            k < 8,
            k != lo,
            k != lo + 1,
    ;
}

/// Writing one two-bit field leaves a disjoint one as it was.
pub proof fn lemma_field2_other_field(v: u8, lo: u8, at: u8, x: u8)
    requires
        lo < 7,
        at < 7,
        at + 2 <= lo || lo + 2 <= at,
    ensures
        field2(set_field2(v, at, x), lo) == field2(v, lo),
{
    assert((((v & !(3u8 << at)) | ((x & 3u8) << at)) >> lo) & 3u8 == (v >> lo) & 3u8)
        by (bit_vector)
        requires
            lo < 7,
            at < 7,
            at + 2 <= lo || lo + 2 <= at,
    ;
}

} // verus!

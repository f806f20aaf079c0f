//! What the register types share: single bits of a register word.
use vstd::prelude::*;

verus! {

/// Bit `n` of `bits`.
pub open spec fn bit_at(bits: u16, n: u16) -> bool {
    (bits >> n) & 1 == 1
}

/// `bits` with bit `n` replaced by `value`.
pub open spec fn with_bit(bits: u16, n: u16, value: bool) -> u16 {
    (bits & !(1u16 << n)) | ((if value {
        1u16
    } else {
        0u16
    }) << n)
}

/// Replacing bit `n` gives a word whose bit `n` is the new value and whose
/// other bits are as before.
pub proof fn lemma_with_bit(bits: u16, n: u16, value: bool, k: u16)
    requires
        n < 16,
        k < 16,
    ensures
        bit_at(with_bit(bits, n, value), k) == (if k == n {
            value
        } else {
            bit_at(bits, k)
        }),
{
    let v: u16 = if value {
        1
    } else {
        0
    };
    assert(((((bits & !(1u16 << n)) | (v << n)) >> k) & 1 == 1) == (if k == n {
        v == 1
    } else {
        (bits >> k) & 1 == 1
    })) by (bit_vector)
        requires
            n < 16,
            k < 16,
            v == 0 || v == 1,
    ;
}

/// Reads bit `n` of `bits`.
pub fn read_bit(bits: u16, n: u16) -> (r: bool)
    requires
        n < 16,
    ensures
        r == bit_at(bits, n),
{
    let r = ((bits >> n) & 0x01) != 0;
    assert((((bits >> n) & 0x01) != 0) == ((bits >> n) & 1 == 1)) by (bit_vector);
    r
}

/// Replaces bit `n` of `bits` by `value`.
pub fn write_bit(bits: u16, n: u16, value: bool) -> (r: u16)
    requires
        n < 16,
    ensures
        r == with_bit(bits, n, value),
{
    let v: u16 = if value {
        1
    } else {
        0
    };
    let r = (bits & !(0x01u16 << n)) | ((v & 0x01) << n);
    assert(r == (bits & !(1u16 << n)) | (v << n)) by (bit_vector)
        requires
            r == (bits & !(0x01u16 << n)) | ((v & 0x01) << n),
            v == 0 || v == 1,
    ;
    r
}

} // verus!

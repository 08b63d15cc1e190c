//! Model-specific register numbers and the byte layout of a register value.
use vstd::prelude::*;

verus! {

/// Register of the overclocking mailbox (command and response).
pub const OC_MBOX: u64 = 0x150;

/// Flex-ratio register, which holds the overclocking lock bit.
pub const FLEX_RATIO: u64 = 0x194;

/// Lock bit of the flex-ratio register (bit 20).
pub const FLEX_RATIO_OC_LOCK: u64 = 0x10_0000;

/// Whether bit `i` of `v` is set.
pub open spec fn bit_set(v: u64, i: u64) -> bool {
    (v >> i) & 1 == 1
}

/// Whether a flex-ratio register value reports overclocking as locked:
/// exactly when bit 20 is set.
pub fn oc_locked(flex_ratio: u64) -> (r: bool)
    ensures
        r == bit_set(flex_ratio, 20),
{
    let r = flex_ratio & FLEX_RATIO_OC_LOCK != 0;
    assert(((flex_ratio & 0x10_0000u64) != 0) == (((flex_ratio >> 20u64) & 1u64) == 1u64)) by (bit_vector);
    r
}

/// Byte `i` of `v`, counting from the least significant (`i < 8`).
pub open spec fn byte_of(v: u64, i: u64) -> u8 {
    ((v >> (8 * i)) & 0xff) as u8
}

/// The value of eight bytes read from a register, least significant first.
pub fn from_le_bytes(b: [u8; 8]) -> (r: u64)
    ensures
        forall|i: u64| i < 8 ==> #[trigger] byte_of(r, i) == b@[i as int],
{
    let (b0, b1, b2, b3, b4, b5, b6, b7) = (b[0], b[1], b[2], b[3], b[4], b[5], b[6], b[7]);
    let r = (b0 as u64) | (b1 as u64) << 8 | (b2 as u64) << 16 | (b3 as u64) << 24
        | (b4 as u64) << 32 | (b5 as u64) << 40 | (b6 as u64) << 48 | (b7 as u64) << 56;
    assert(byte_of(r, 0) == b0 && byte_of(r, 1) == b1 && byte_of(r, 2) == b2
        && byte_of(r, 3) == b3 && byte_of(r, 4) == b4 && byte_of(r, 5) == b5
        && byte_of(r, 6) == b6 && byte_of(r, 7) == b7) by (bit_vector)
        requires
            r == (b0 as u64) | (b1 as u64) << 8 | (b2 as u64) << 16 | (b3 as u64) << 24
                | (b4 as u64) << 32 | (b5 as u64) << 40 | (b6 as u64) << 48 | (b7 as u64) << 56,
    ;
    assert forall|i: u64| i < 8 implies #[trigger] byte_of(r, i) == b@[i as int] by {
        if i == 0 {} else if i == 1 {} else if i == 2 {} else if i == 3 {}
        else if i == 4 {} else if i == 5 {} else if i == 6 {} else {}
    }
    r
}

/// The eight bytes written to a register for `v`, least significant first.
pub fn to_le_bytes(v: u64) -> (r: [u8; 8])
    ensures
        forall|i: u64| i < 8 ==> r@[i as int] == #[trigger] byte_of(v, i),
{
    let r = [
        (v & 0xff) as u8,
        ((v >> 8) & 0xff) as u8,
        ((v >> 16) & 0xff) as u8,
        ((v >> 24) & 0xff) as u8,
        ((v >> 32) & 0xff) as u8,
        ((v >> 40) & 0xff) as u8,
        ((v >> 48) & 0xff) as u8,
        ((v >> 56) & 0xff) as u8,
    ];
    assert(v & 0xff == (v >> 0u64) & 0xff) by (bit_vector);
    assert forall|i: u64| i < 8 implies r@[i as int] == #[trigger] byte_of(v, i) by {
        if i == 0 {} else if i == 1 {} else if i == 2 {} else if i == 3 {}
        else if i == 4 {} else if i == 5 {} else if i == 6 {} else {}
    }
    r
}

} // verus!

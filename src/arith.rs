//! Binary add and subtract with carry, and the flags they produce.
use vstd::prelude::*;

verus! {

/// A byte read as a two's-complement number.
pub open spec fn signed(v: u8) -> int {
    if v < 128 { v as int } else { v as int - 256 }
}

/// `ADC`: result, carry out, signed overflow.
pub open spec fn spec_adc(a: u8, m: u8, carry: bool) -> (u8, bool, bool) {
    let c: int = if carry { 1 } else { 0 };
    let sum = a as int + m as int + c;
    let s = signed(a) + signed(m) + c;
    ((sum % 256) as u8, sum >= 256, s < -128 || s > 127)
}

/// `SBC`: result, carry out (set when nothing was borrowed), signed overflow.
pub open spec fn spec_sbc(a: u8, m: u8, carry: bool) -> (u8, bool, bool) {
    let borrow: int = if carry { 0 } else { 1 };
    let diff = a as int - m as int - borrow;
    let s = signed(a) - signed(m) - borrow;
    ((diff % 256) as u8, diff >= 0, s < -128 || s > 127)
}

/// Adds with carry, as the 6502's adder does.
pub fn add_with_carry(a: u8, m: u8, carry: bool) -> (r: (u8, bool, bool))
    ensures
        r == spec_adc(a, m, carry),
{
    let c: u16 = if carry { 1 } else { 0 };
    let sum: u16 = a as u16 + m as u16 + c;
    let res = (sum & 0xff) as u8;
    let carry_out = sum > 0xff;
    let overflow = (a ^ res) & (m ^ res) & 0x80 != 0;
    assert(sum & 0xff == sum % 256) by (bit_vector);
    assert(((a ^ res) & (m ^ res) & 0x80u8 != 0) == ((a >= 128) == (m >= 128) && (res >= 128) != (
    a >= 128))) by (bit_vector);
    (res, carry_out, overflow)
}

/// Subtracts with borrow: the adder fed with the complement of `m`.
pub fn subtract_with_carry(a: u8, m: u8, carry: bool) -> (r: (u8, bool, bool))
    ensures
        r == spec_sbc(a, m, carry),
{
    let inv = !m;
    assert(!m == 255 - m) by (bit_vector);
    let r = add_with_carry(a, inv, carry);
    let ghost borrow: int = if carry { 0 } else { 1 };
    assert((a as int + (255 - m as int) + 1 - borrow) % 256 == (a as int - m as int - borrow) % 256);
    r
}

} // verus!

//! The status register `P`: bits `N V - B D I Z C`.
use vstd::prelude::*;
use crate::registers::with_flag;

verus! {

pub const CARRY: u8 = 0b0000_0001;
pub const ZERO: u8 = 0b0000_0010;
pub const INTERRUPT_DISABLE: u8 = 0b0000_0100;
pub const DECIMAL_MODE: u8 = 0b0000_1000;
pub const BREAK: u8 = 0b0001_0000;
/// Bit 5, which always reads as 1 when pushed.
pub const BREAK2: u8 = 0b0010_0000;
pub const OVERFLOW: u8 = 0b0100_0000;
pub const NEGATIV: u8 = 0b1000_0000;

#[derive(Clone, Copy, Debug, PartialEq, Eq, Structural)]
pub struct CpuFlags {
    pub bits: u8,
}

/// `p` with `Z` and `N` describing `v`.
pub open spec fn with_zn(p: u8, v: u8) -> u8 {
    with_flag(with_flag(p, ZERO, v == 0), NEGATIV, v >= 128)
}

impl CpuFlags {
    pub fn from_bits_truncate(bits: u8) -> (r: Self)
        ensures
            r.bits == bits,
    {
        CpuFlags { bits }
    }

    pub open spec fn has(&self, flag: u8) -> bool {
        self.bits & flag == flag
    }

    /// Whether every bit of `flag` is set.
    pub fn contains(&self, flag: u8) -> (r: bool)
        ensures
            r == self.has(flag),
    {
        self.bits & flag == flag
    }

    pub fn insert(&mut self, flag: u8)
        ensures
            final(self).bits == old(self).bits | flag,
    {
        self.bits = self.bits | flag;
    }

    pub fn remove(&mut self, flag: u8)
        ensures
            final(self).bits == old(self).bits & !flag,
    {
        self.bits = self.bits & !flag;
    }

    pub fn set(&mut self, flag: u8, on: bool)
        ensures
            final(self).bits == with_flag(old(self).bits, flag, on),
    {
        if on {
            self.insert(flag);
        } else {
            self.remove(flag);
        }
    }

    /// Sets `Z` and `N` from a result.
    pub fn update_zero_and_negative(&mut self, v: u8)
        ensures
            final(self).bits == with_zn(old(self).bits, v),
    {
        self.set(ZERO, v == 0);
        self.set(NEGATIV, v >= 128);
    }
}

} // verus!

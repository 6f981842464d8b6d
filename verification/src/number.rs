//! Binary floating-point numbers, carried by their bit patterns.
//!
//! The configuration records hold a few numbers that are not integers: a
//! normalization epsilon, the base of the rotary embedding, a rotary factor.
//! This crate never computes with them. It reads them, stores them and hands
//! them on, so it keeps each one as the bit pattern of its IEEE 754 encoding,
//! which the caller turns back into a number.

use vstd::prelude::*;

verus! {

/// An IEEE 754 binary64 number, held by its bit pattern.
///
/// Two values are equal when their bit patterns are: `0.0` and `-0.0` differ.
#[derive(Clone, Copy, Debug, PartialEq, Eq, Structural)]
pub struct Double {
    pub bits: u64,
}

/// An IEEE 754 binary32 number, held by its bit pattern.
///
/// Two values are equal when their bit patterns are: `0.0` and `-0.0` differ.
#[derive(Clone, Copy, Debug, PartialEq, Eq, Structural)]
pub struct Single {
    pub bits: u32,
}

impl Double {
    pub fn from_bits(bits: u64) -> (r: Double)
        ensures
            r.bits == bits,
    {
        Double { bits }
    }

    pub fn to_bits(self) -> (r: u64)
        ensures
            r == self.bits,
    {
        self.bits
    }
}

impl Single {
    /// The bit pattern of ten thousand: sign 0, exponent 13, significand
    /// 10000 / 2^13.
    pub open spec fn ten_thousand() -> Single {
        Single { bits: 0x461C_4000 }
    }

    pub fn from_bits(bits: u32) -> (r: Single)
        ensures
            r.bits == bits,
    {
        Single { bits }
    }

    pub fn to_bits(self) -> (r: u32)
        ensures
            r == self.bits,
    {
        self.bits
    }
}

} // verus!

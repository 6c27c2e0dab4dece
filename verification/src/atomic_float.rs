//! A single shared cell for one 32-bit floating-point value.
//!
//! The cell holds the IEEE-754 bit pattern of an `f32` in one 32-bit word,
//! so a store followed by a load gives back the exact pattern that was
//! written: NaN payloads and the sign of zero are preserved, which a
//! numeric conversion would not guarantee.

use vstd::prelude::*;

verus! {

/// A cell holding the bit pattern of one 32-bit floating-point value.
///
/// The value is read and written as a `u32` bit pattern; callers convert
/// with `f32::to_bits` / `f32::from_bits` at the boundary.
pub struct AtomicFloat {
    atomic: u32,
}

impl AtomicFloat {
    /// The bit pattern the cell currently holds.
    pub closed spec fn bits(self) -> u32 {
        self.atomic
    }

    /// New cell holding the bit pattern `value`.
    pub fn new(value: u32) -> (r: AtomicFloat)
        ensures
            r.bits() == value,
    {
        AtomicFloat { atomic: value }
    }

    /// Get the bit pattern the cell currently holds.
    pub fn get(&self) -> (r: u32)
        ensures
            r == self.bits(),
    {
        self.atomic
    }

    /// Set the cell to the bit pattern `value`.
    pub fn set(&mut self, value: u32)
        ensures
            final(self).bits() == value,
    {
        self.atomic = value;
    }
}

impl Default for AtomicFloat {
    /// A cell holding the bit pattern of `0.0f32`, which is zero.
    fn default() -> (r: AtomicFloat)
        ensures
            r.bits() == 0,
    {
        AtomicFloat::new(0)
    }
}

} // verus!

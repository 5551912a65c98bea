//! A 256-bit unsigned integer carried as four little-endian 64-bit limbs.
//!
//! The L1 cost context delivers its quantities as 256-bit words, while the
//! receipt reports at most 128-bit quantities. This module holds the wide
//! carrier type and the saturating narrowing that every receipt field goes
//! through: a value over `u128::MAX` is clamped to `u128::MAX`, never
//! wrapped and never an error.

use vstd::prelude::*;

verus! {

/// A 256-bit unsigned integer; `limbs[0]` is least significant.
#[derive(Clone, Copy, Debug)]
pub struct U256 {
    /// Little-endian 64-bit limbs.
    pub limbs: [u64; 4],
}

impl U256 {
    /// The number this value stands for.
    pub open spec fn value(self) -> nat {
        (self.limbs@[0]
            + self.limbs@[1] * 0x1_0000_0000_0000_0000
            + self.limbs@[2] * 0x1_0000_0000_0000_0000_0000_0000_0000_0000
            + self.limbs@[3]
                * 0x1_0000_0000_0000_0000_0000_0000_0000_0000_0000_0000_0000_0000) as nat
    }

    /// The zero value.
    pub fn zero() -> (r: U256)
        ensures
            r.value() == 0,
    {
        U256 { limbs: [0, 0, 0, 0] }
    }

    /// Widens a 64-bit value.
    pub fn from_u64(x: u64) -> (r: U256)
        ensures
            r.value() == x,
    {
        U256 { limbs: [x, 0, 0, 0] }
    }

    /// Widens a 128-bit value.
    pub fn from_u128(x: u128) -> (r: U256)
        ensures
            r.value() == x,
    {
        let lo: u64 = (x % 0x1_0000_0000_0000_0000) as u64;
        let hi: u64 = (x / 0x1_0000_0000_0000_0000) as u64;
        U256 { limbs: [lo, hi, 0, 0] }
    }

    /// Narrows to 128 bits, clamping anything wider to `u128::MAX`.
    pub fn saturating_to_u128(&self) -> (r: u128)
        ensures
            r == clamp_u128(self.value()),
    {
        if self.limbs[2] == 0 && self.limbs[3] == 0 {
            (self.limbs[1] as u128) * 0x1_0000_0000_0000_0000 + (self.limbs[0] as u128)
        } else {
            u128::MAX
        }
    }
}

/// What a saturating narrowing to 128 bits returns.
pub open spec fn clamp_u128(n: nat) -> u128 {
    if n > u128::MAX {
        u128::MAX
    } else {
        n as u128
    }
}

/// Narrows the sum of two wide values to 128 bits, clamping on excess.
pub fn saturating_add_to_u128(a: &U256, b: &U256) -> (r: u128)
    ensures
        r == clamp_u128(a.value() + b.value()),
{
    let x = a.saturating_to_u128();
    let y = b.saturating_to_u128();
    if x > u128::MAX - y {
        u128::MAX
    } else {
        x + y
    }
}

} // verus!

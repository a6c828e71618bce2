//! 256-bit unsigned integers, held as four 64-bit limbs with the least
//! significant limb first.

use stylus_sdk::alloy_primitives::U256;
use vstd::prelude::*;

verus! {

/// The number that four little-endian limbs denote.
pub open spec fn limbs_value(limbs: Seq<u64>) -> nat
    recommends
        limbs.len() == 4,
{
    (limbs[0] as nat) + (limbs[1] as nat) * 0x1_0000_0000_0000_0000nat + (limbs[2] as nat)
        * 0x1_0000_0000_0000_0000_0000_0000_0000_0000nat + (limbs[3] as nat)
        * 0x1_0000_0000_0000_0000_0000_0000_0000_0000_0000_0000_0000_0000nat
}

/// 2^256, one more than the largest value of a `Uint256`.
pub open spec fn modulus() -> nat {
    0x1_0000_0000_0000_0000_0000_0000_0000_0000_0000_0000_0000_0000_0000_0000_0000_0000nat
}

/// An unsigned integer below 2^256.
#[derive(Clone, Copy, Debug, PartialEq, Eq)]
pub struct Uint256 {
    pub limbs: [u64; 4],
}

impl View for Uint256 {
    type V = nat;

    open spec fn view(&self) -> nat {
        limbs_value(self.limbs@)
    }
}

impl Uint256 {
    /// The integer with the given limbs, least significant first.
    pub fn from_limbs(limbs: [u64; 4]) -> (r: Uint256)
        ensures
            r.limbs == limbs,
    {
        Uint256 { limbs }
    }

    /// Zero.
    pub fn zero() -> (r: Uint256)
        ensures
            r@ == 0,
            r.limbs@ == seq![0u64, 0u64, 0u64, 0u64],
    {
        Uint256 { limbs: [0, 0, 0, 0] }
    }

    /// The integer equal to `value`.
    pub fn from_u64(value: u64) -> (r: Uint256)
        ensures
            r@ == value,
            r.limbs@ == seq![value, 0u64, 0u64, 0u64],
    {
        widen(value)
    }

    /// The value as a `u64`, where it fits in one.
    pub fn to_u64(&self) -> (r: Option<u64>)
        ensures
            r == (if self@ <= u64::MAX {
                Some(self@ as u64)
            } else {
                None
            }),
    {
        if self.limbs[1] == 0 && self.limbs[2] == 0 && self.limbs[3] == 0 {
            Some(self.limbs[0])
        } else {
            None
        }
    }
}

/// Every `Uint256` is below 2^256, and its limbs are determined by its value.
pub proof fn lemma_value_determines_limbs(a: Uint256, b: Uint256)
    ensures
        a@ < modulus(),
        a@ == b@ <==> a.limbs@ == b.limbs@,
{
    assert(a.limbs@ =~= b.limbs@ <==> (a.limbs[0] == b.limbs[0] && a.limbs[1] == b.limbs[1]
        && a.limbs[2] == b.limbs[2] && a.limbs[3] == b.limbs[3]));
}

/// Calls `U256::from` on a `u64` and hands back the limbs of what it made.
/// Claimed of it: the lowest limb is `value` and the other three are zero, so
/// the result denotes `value`; the conversion cannot fail, as 64 bits always
/// fit in 256.
#[verifier::external_body]
pub(crate) fn widen(value: u64) -> (r: Uint256)
    ensures
        r.limbs@ == seq![value, 0u64, 0u64, 0u64],
{
    Uint256 { limbs: U256::from(value).into_limbs() }
}

/// Calls `+` of `U256`, which is its `wrapping_add`, on the two integers
/// rebuilt from their limbs. Claimed of it: the result denotes the sum
/// reduced modulo 2^256; the operator never panics.
#[verifier::external_body]
pub(crate) fn wrapping_sum(a: Uint256, b: Uint256) -> (r: Uint256)
    ensures
        r@ == (a@ + b@) % modulus(),
{
    let x = U256::from_limbs(a.limbs);
    let y = U256::from_limbs(b.limbs);
    Uint256 { limbs: (x + y).into_limbs() }
}

} // verus!

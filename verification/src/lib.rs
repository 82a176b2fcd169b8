//! A synthetic perpetual-futures exchange, split into a virtual
//! constant-product market maker (price discovery) and a margin ledger
//! (collateral custody and position accounting).
//!
//! Amounts of collateral, reserves and position sizes are `u128` values in the
//! smallest denomination. Ratios and running accumulators are unsigned
//! fixed-point numbers held as raw `u128` values at scale [`arith::DEC_ONE`].
//! Contract addresses are plain `String`s.

use vstd::prelude::*;

pub mod arith;
pub mod bank;
pub mod error;
pub mod vamm;

verus! {

/// A diagnostic on the type of the argument: its size in bytes.
pub fn type_of<T>(_v: T) -> (n: usize)
    ensures
        n as nat == vstd::layout::size_of::<T>(),
{
    core::mem::size_of::<T>()
}

} // verus!

//! Token quantities transferred with an invocation.

use vstd::prelude::*;

verus! {

/// A non-negative quantity of value, in the smallest indivisible unit.
///
/// Zero is a valid, meaningful amount: it is used to trigger address
/// assignment without economic effect.
#[derive(Debug, Clone, Copy, PartialEq, Eq, Structural)]
pub struct TokenAmount {
    pub atto: u128,
}

impl View for TokenAmount {
    type V = u128;

    open spec fn view(&self) -> u128 {
        self.atto
    }
}

impl TokenAmount {
    /// The zero quantity.
    pub fn zero() -> (r: TokenAmount)
        ensures
            r@ == 0,
    {
        TokenAmount { atto: 0 }
    }

    /// Whether this quantity is zero.
    pub fn is_zero(&self) -> (r: bool)
        ensures
            r <==> self@ == 0,
    {
        self.atto == 0
    }
}

} // verus!

use vstd::prelude::*;

verus! {

/// A method of randomly generating lines. The two methods draw the four
/// possible lines with different, historically motivated probabilities.
#[derive(Copy, Clone, Debug, PartialEq, Eq, Structural)]
pub enum DivinationMethod {
    /// The ancient yarrow stalk method of divination.
    AncientYarrowStalk,
    /// The coin toss method of divination.
    CoinToss,
}

} // verus!

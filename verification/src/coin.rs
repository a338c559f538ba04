use vstd::prelude::*;

verus! {

/// The possible outcomes of a coin toss. In the three-coin casting
/// convention, heads count for 3 and tails count for 2, so six tossed coins
/// yield a digit string whose digits lie between 6 and 9.
#[derive(Copy, Clone, Debug, PartialEq, Eq, Structural)]
pub enum Coin {
    Heads,
    Tails,
}

} // verus!

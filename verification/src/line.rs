use crate::divination_method::DivinationMethod;
use vstd::prelude::*;

verus! {

/// A single line within a trigram or hexagram: broken or unbroken, and
/// possibly marked as "changing". Hexagrams and trigrams can "change" into
/// other hexagrams and trigrams based on which lines are marked as changing.
///
/// All four combinations are valid and distinct: young yin (broken, not
/// changing), old yin (broken, changing), young yang (unbroken, not
/// changing), old yang (unbroken, changing).
#[derive(Debug, Clone, Copy, PartialEq, Eq, Structural)]
pub enum Line {
    Unbroken { changing: bool },
    Broken { changing: bool },
}

/// Errors related to `Line`s.
#[derive(Debug, Clone, Copy, PartialEq, Eq, Structural)]
pub enum Error {
    /// Returned when creating a `Line` from an integer, if the given integer
    /// is not between 6 and 9 inclusive.
    IntegerOutOfRange(u8),
}

impl Line {
    /// Whether this line is broken (yin).
    pub open spec fn spec_is_broken(self) -> bool {
        self is Broken
    }

    /// Whether this line is marked as changing.
    pub open spec fn spec_is_changing(self) -> bool {
        match self {
            Line::Unbroken { changing } => changing,
            Line::Broken { changing } => changing,
        }
    }

    /// The line this one settles to: a changing line flips its orientation
    /// and clears the changing mark; a non-changing line stays as it is.
    pub open spec fn spec_settle(self) -> Line {
        if self.spec_is_broken() == self.spec_is_changing() {
            Line::Unbroken { changing: false }
        } else {
            Line::Broken { changing: false }
        }
    }

    /// The line a digit between 6 and 9 denotes, following the three-coin
    /// casting convention: 6 is broken changing, 7 unbroken not changing,
    /// 8 broken not changing, 9 unbroken changing. Any other integer is
    /// rejected as out of range.
    pub open spec fn spec_from_digit(n: u8) -> Result<Line, Error> {
        if n == 6 {
            Ok(Line::Broken { changing: true })
        } else if n == 7 {
            Ok(Line::Unbroken { changing: false })
        } else if n == 8 {
            Ok(Line::Broken { changing: false })
        } else if n == 9 {
            Ok(Line::Unbroken { changing: true })
        } else {
            Err(Error::IntegerOutOfRange(n))
        }
    }

    /// Generate a new `Line` at random by the given divination method.
    pub fn new_random(divination_method: DivinationMethod) -> Self {
        match divination_method {
            DivinationMethod::CoinToss => Self::from_coin_tosses(),
            DivinationMethod::AncientYarrowStalk => Self::from_yarrow_stalks(),
        }
    }

    pub fn is_changing(&self) -> (r: bool)
        ensures
            r == self.spec_is_changing(),
    {
        match self {
            Line::Broken { changing } => *changing,
            Line::Unbroken { changing } => *changing,
        }
    }

    /// young yin a.k.a. yin unchanging
    pub fn broken() -> (r: Self)
        ensures
            r == (Line::Broken { changing: false }),
    {
        Line::Broken { changing: false }
    }

    /// old yin a.k.a. yin changing into yang
    pub fn broken_changing() -> (r: Self)
        ensures
            r == (Line::Broken { changing: true }),
    {
        Line::Broken { changing: true }
    }

    /// young yang a.k.a. yang unchanging
    pub fn unbroken() -> (r: Self)
        ensures
            r == (Line::Unbroken { changing: false }),
    {
        Line::Unbroken { changing: false }
    }

    /// old yang a.k.a. yang changing into yin
    pub fn unbroken_changing() -> (r: Self)
        ensures
            r == (Line::Unbroken { changing: true }),
    {
        Line::Unbroken { changing: true }
    }

    /// Generate a new `Line` by the coin toss method: a single uniform draw
    /// from sixteen outcomes, weighted 2 broken changing, 6 broken, 2
    /// unbroken changing, 6 unbroken. This simplified single-draw model is
    /// the one this library specifies for the coin toss method.
    pub fn from_coin_tosses() -> Self {
        Self::from_coin_draw(random_sixteenth())
    }

    /// Generate a new `Line` by the ancient yarrow stalk method: a single
    /// uniform draw from sixteen outcomes, weighted 1 broken changing, 7
    /// broken, 3 unbroken changing, 5 unbroken.
    pub fn from_yarrow_stalks() -> Self {
        Self::from_yarrow_draw(random_sixteenth())
    }

    /// The line the coin toss method assigns to a uniform draw from 1..=16:
    /// draws 1 and 2 give old yin, 3 through 8 young yin, 9 and 10 old yang,
    /// and 11 through 16 young yang, so the four lines have the weights
    /// 2/16, 6/16, 2/16 and 6/16 respectively.
    pub open spec fn spec_from_coin_draw(d: u8) -> Line {
        if d <= 2 {
            Line::Broken { changing: true }
        } else if d <= 8 {
            Line::Broken { changing: false }
        } else if d <= 10 {
            Line::Unbroken { changing: true }
        } else {
            Line::Unbroken { changing: false }
        }
    }

    /// The line the yarrow stalk method assigns to a uniform draw from
    /// 1..=16: draw 1 gives old yin, 2 through 8 young yin, 9 through 11 old
    /// yang, and 12 through 16 young yang, so the four lines have the
    /// weights 1/16, 7/16, 3/16 and 5/16 respectively.
    pub open spec fn spec_from_yarrow_draw(d: u8) -> Line {
        if d <= 1 {
            Line::Broken { changing: true }
        } else if d <= 8 {
            Line::Broken { changing: false }
        } else if d <= 11 {
            Line::Unbroken { changing: true }
        } else {
            Line::Unbroken { changing: false }
        }
    }

    /// Map a uniform draw from 1..=16 to a line under the coin toss weights.
    pub fn from_coin_draw(d: u8) -> (r: Self)
        requires
            1 <= d <= 16,
        ensures
            r == Self::spec_from_coin_draw(d),
    {
        if d <= 2 {
            Line::broken_changing()
        } else if d <= 8 {
            Line::broken()
        } else if d <= 10 {
            Line::unbroken_changing()
        } else {
            Line::unbroken()
        }
    }

    /// Map a uniform draw from 1..=16 to a line under the yarrow stalk
    /// weights.
    pub fn from_yarrow_draw(d: u8) -> (r: Self)
        requires
            1 <= d <= 16,
        ensures
            r == Self::spec_from_yarrow_draw(d),
    {
        if d <= 1 {
            Line::broken_changing()
        } else if d <= 8 {
            Line::broken()
        } else if d <= 11 {
            Line::unbroken_changing()
        } else {
            Line::unbroken()
        }
    }

    /// Settle a line that might be "changing". If the line is changing, it
    /// is settled to its opposite orientation with the changing mark
    /// cleared. If the line is not changing, an equal copy is returned.
    pub fn settle(&self) -> (r: Line)
        ensures
            r == self.spec_settle(),
            !r.spec_is_changing(),
    {
        match *self {
            Line::Broken { changing: false } | Line::Unbroken { changing: true } => Line::broken(),
            Line::Unbroken { changing: false } | Line::Broken { changing: true } => {
                Line::unbroken()
            },
        }
    }

    /// Create a `Line` from a digit between 6 and 9 inclusive; any other
    /// integer is rejected with `Error::IntegerOutOfRange`.
    pub fn from_digit(n: u8) -> (r: Result<Line, Error>)
        ensures
            r == Self::spec_from_digit(n),
            r is Ok <==> 6 <= n <= 9,
    {
        match n {
            6 => Ok(Line::broken_changing()),
            7 => Ok(Line::unbroken()),
            8 => Ok(Line::broken()),
            9 => Ok(Line::unbroken_changing()),
            _ => Err(Error::IntegerOutOfRange(n)),
        }
    }
}

/// Law: settling is idempotent. A settled line is never changing, and
/// settling an already settled line returns an equal line.
pub proof fn lemma_settle_idempotent(l: Line)
    ensures
        !l.spec_settle().spec_is_changing(),
        l.spec_settle().spec_settle() == l.spec_settle(),
{
}

/// Relies on fastrand::u8: a uniform draw from the given bounded range,
/// here 1..=16; it panics only on an empty range.
#[verifier::external_body]
fn random_sixteenth() -> (r: u8)
    ensures
        1 <= r <= 16,
{
    fastrand::u8(1..=16)
}

} // verus!

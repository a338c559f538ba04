use crate::divination_method::DivinationMethod;
use crate::line;
use crate::line::Line;
use crate::sequence_table;
use crate::trigram::Trigram;
use crate::trigram::TrigramName;
use vstd::prelude::*;

verus! {

/// The 64 hexagrams have several different orderings, the most common of
/// which is the King Wen sequence.
#[derive(Clone, Copy, Debug, PartialEq, Eq, Structural)]
pub enum HexagramOrdering {
    /// The most common sequence
    KingWen,
    /// a.k.a Fu Xi sequence, Shao Yong sequence
    Binary,
    /// From the Mawangdui Silk Texts
    Mawangdui,
}

/// A `Hexagram` is a pair of [`Trigram`]s: the lines above and the lines
/// below. The ordered pair of trigram names determines the hexagram's number
/// and meaning. If lines are marked as "changing", then a second hexagram
/// (the relating hexagram) provides additional meaning: the figure obtained
/// by settling every changing line.
#[derive(Clone, Copy, Debug, PartialEq, Eq, Structural)]
pub struct Hexagram {
    pub above: Trigram,
    pub below: Trigram,
}

impl Hexagram {
    /// This hexagram's six lines: the above trigram's lines top to bottom,
    /// then the below trigram's lines top to bottom.
    pub open spec fn spec_lines(self) -> Seq<Line> {
        seq![self.above.0, self.above.1, self.above.2, self.below.0, self.below.1, self.below.2]
    }

    /// Whether any of the six lines is marked as changing.
    pub open spec fn spec_any_changing(self) -> bool {
        self.above.0.spec_is_changing() || self.above.1.spec_is_changing()
            || self.above.2.spec_is_changing() || self.below.0.spec_is_changing()
            || self.below.1.spec_is_changing() || self.below.2.spec_is_changing()
    }

    /// The hexagram obtained by settling all six lines: each changing line
    /// flipped, the changing mark cleared on all.
    pub open spec fn spec_settled(self) -> Hexagram {
        Hexagram {
            above: Trigram(
                self.above.0.spec_settle(),
                self.above.1.spec_settle(),
                self.above.2.spec_settle(),
            ),
            below: Trigram(
                self.below.0.spec_settle(),
                self.below.1.spec_settle(),
                self.below.2.spec_settle(),
            ),
        }
    }

    /// The 1-based positions of the changing lines, in the fixed scan order
    /// of `spec_lines`: the above trigram's lines first (positions 1 to 3,
    /// top to bottom), then the below trigram's (positions 4 to 6).
    pub open spec fn spec_changing_line_positions(self) -> Seq<usize> {
        (if self.above.0.spec_is_changing() {
            seq![1usize]
        } else {
            Seq::empty()
        }) + (if self.above.1.spec_is_changing() {
            seq![2usize]
        } else {
            Seq::empty()
        }) + (if self.above.2.spec_is_changing() {
            seq![3usize]
        } else {
            Seq::empty()
        }) + (if self.below.0.spec_is_changing() {
            seq![4usize]
        } else {
            Seq::empty()
        }) + (if self.below.1.spec_is_changing() {
            seq![5usize]
        } else {
            Seq::empty()
        }) + (if self.below.2.spec_is_changing() {
            seq![6usize]
        } else {
            Seq::empty()
        })
    }

    /// The relating hexagram: the fully settled hexagram when at least one
    /// line is changing, and absent when none is.
    pub open spec fn spec_relating(self) -> Option<Hexagram> {
        if self.spec_any_changing() {
            Some(self.spec_settled())
        } else {
            None
        }
    }

    /// The ordered pair of trigram names (above, below), classified from the
    /// settled lines when `with_changes` is set and from the raw lines
    /// otherwise.
    pub open spec fn spec_trigram_names(self, with_changes: bool) -> (TrigramName, TrigramName) {
        if with_changes {
            (self.spec_settled().above.spec_classify(), self.spec_settled().below.spec_classify())
        } else {
            (self.above.spec_classify(), self.below.spec_classify())
        }
    }

    /// The King Wen sequence number of this hexagram, before or after
    /// settling the changing lines.
    pub open spec fn spec_sequence_number(self, with_changes: bool) -> int {
        sequence_table::spec_king_wen_number(
            self.spec_trigram_names(with_changes).0,
            self.spec_trigram_names(with_changes).1,
        )
    }

    /// The hexagram the six digits of a cast denote: the first three digits
    /// give the above trigram's lines top to bottom, the last three the
    /// below trigram's. Each digit must lie between 6 and 9; the first digit
    /// outside that range, scanning left to right, is reported out of range.
    pub open spec fn spec_from_digits(d: Seq<u8>) -> Result<Hexagram, line::Error>
        recommends
            d.len() == 6,
    {
        if !(6 <= d[0] <= 9) {
            Err(line::Error::IntegerOutOfRange(d[0]))
        } else if !(6 <= d[1] <= 9) {
            Err(line::Error::IntegerOutOfRange(d[1]))
        } else if !(6 <= d[2] <= 9) {
            Err(line::Error::IntegerOutOfRange(d[2]))
        } else if !(6 <= d[3] <= 9) {
            Err(line::Error::IntegerOutOfRange(d[3]))
        } else if !(6 <= d[4] <= 9) {
            Err(line::Error::IntegerOutOfRange(d[4]))
        } else if !(6 <= d[5] <= 9) {
            Err(line::Error::IntegerOutOfRange(d[5]))
        } else {
            Ok(
                Hexagram {
                    above: Trigram(
                        Line::spec_from_digit(d[0]).unwrap(),
                        Line::spec_from_digit(d[1]).unwrap(),
                        Line::spec_from_digit(d[2]).unwrap(),
                    ),
                    below: Trigram(
                        Line::spec_from_digit(d[3]).unwrap(),
                        Line::spec_from_digit(d[4]).unwrap(),
                        Line::spec_from_digit(d[5]).unwrap(),
                    ),
                },
            )
        }
    }

    /// Create a new `Hexagram` from two [`Trigram`]s.
    pub fn new(above: Trigram, below: Trigram) -> (r: Self)
        ensures
            r == (Hexagram { above, below }),
    {
        Hexagram { above, below }
    }

    pub fn above(&self) -> (r: &Trigram)
        ensures
            *r == self.above,
    {
        &self.above
    }

    pub fn below(&self) -> (r: &Trigram)
        ensures
            *r == self.below,
    {
        &self.below
    }

    /// Create a new `Hexagram` from two random [`Trigram`]s, both generated
    /// by the given divination method.
    pub fn new_random(divination_method: DivinationMethod) -> Self {
        Hexagram {
            above: Trigram::new_random(divination_method),
            below: Trigram::new_random(divination_method),
        }
    }

    /// Create a new `Hexagram` from the six digits of a cast, each between 6
    /// and 9 inclusive: the first three digits are the above trigram's lines
    /// top to bottom, the last three the below trigram's. A digit outside
    /// that range is rejected with `line::Error::IntegerOutOfRange`.
    pub fn from_digits(digits: [u8; 6]) -> (r: Result<Hexagram, line::Error>)
        ensures
            r == Self::spec_from_digits(digits@),
            r is Ok <==> (forall|i: int| 0 <= i < 6 ==> 6 <= #[trigger] digits@[i] <= 9),
    {
        let a0 = Line::from_digit(digits[0])?;
        let a1 = Line::from_digit(digits[1])?;
        let a2 = Line::from_digit(digits[2])?;
        let b0 = Line::from_digit(digits[3])?;
        let b1 = Line::from_digit(digits[4])?;
        let b2 = Line::from_digit(digits[5])?;
        Ok(Hexagram { above: Trigram(a0, a1, a2), below: Trigram(b0, b1, b2) })
    }

    /// Classify each trigram's name, after settling all changing lines first
    /// when `with_changes` is set; the raw orientations are used otherwise.
    pub fn trigram_names(&self, with_changes: bool) -> (r: (TrigramName, TrigramName))
        ensures
            r == self.spec_trigram_names(with_changes),
    {
        if with_changes {
            let settled = Hexagram {
                above: Trigram(
                    self.above.0.settle(),
                    self.above.1.settle(),
                    self.above.2.settle(),
                ),
                below: Trigram(
                    self.below.0.settle(),
                    self.below.1.settle(),
                    self.below.2.settle(),
                ),
            };
            (settled.above.classify(), settled.below.classify())
        } else {
            (self.above.classify(), self.below.classify())
        }
    }

    /// Get this hexagram's King Wen sequence number, between 1 and 64. With
    /// `with_changes` set the number of the settled figure is returned; when
    /// no line is changing that equals the number of the raw figure, because
    /// settling is then the identity on every line's orientation.
    pub fn sequence_number(&self, with_changes: bool) -> (r: u8)
        ensures
            r as int == self.spec_sequence_number(with_changes),
            1 <= r <= 64,
            !self.spec_any_changing() ==> r as int == self.spec_sequence_number(false),
    {
        let (above_name, below_name) = self.trigram_names(with_changes);
        sequence_table::king_wen_number(above_name, below_name)
    }

    /// Get the unicode symbol representing this hexagram, before or after
    /// settling the changing lines.
    pub fn symbol(&self, with_changes: bool) -> (r: &'static str)
        ensures
            r@ == sequence_table::spec_symbol_of_number(self.spec_sequence_number(with_changes)),
    {
        let (above_name, below_name) = self.trigram_names(with_changes);
        sequence_table::symbol(above_name, below_name)
    }

    /// Get the 1-based positions of the lines that are marked as "changing",
    /// scanning the above trigram's lines first (positions 1 to 3, top to
    /// bottom), then the below trigram's (positions 4 to 6).
    pub fn get_changing_line_positions(&self) -> (r: Vec<usize>)
        ensures
            r@ == self.spec_changing_line_positions(),
    {
        let mut positions: Vec<usize> = Vec::new();
        if self.above.0.is_changing() {
            positions.push(1);
        }
        if self.above.1.is_changing() {
            positions.push(2);
        }
        if self.above.2.is_changing() {
            positions.push(3);
        }
        if self.below.0.is_changing() {
            positions.push(4);
        }
        if self.below.1.is_changing() {
            positions.push(5);
        }
        if self.below.2.is_changing() {
            positions.push(6);
        }
        assert(positions@ =~= self.spec_changing_line_positions());
        positions
    }

    /// Get this `Hexagram`'s six `Line`s: the above trigram's lines followed
    /// by the below trigram's. The lines are copied.
    pub fn lines(&self) -> (r: Vec<Line>)
        ensures
            r@ == self.spec_lines(),
    {
        let mut lines: Vec<Line> = Vec::new();
        lines.push(self.above.0);
        lines.push(self.above.1);
        lines.push(self.above.2);
        lines.push(self.below.0);
        lines.push(self.below.1);
        lines.push(self.below.2);
        assert(lines@ =~= self.spec_lines());
        lines
    }

    /// Return this hexagram's "relating" hexagram, if it has one. Only
    /// hexagrams with changing lines have relating hexagrams: the relating
    /// hexagram is the fully settled figure, and it has no changing line.
    pub fn relating_hexagram(&self) -> (r: Option<Self>)
        ensures
            r == self.spec_relating(),
            r matches Some(h) ==> !h.spec_any_changing(),
    {
        let Hexagram { above, below } = self;
        let Trigram(a1, a2, a3) = above;
        let Trigram(b1, b2, b3) = below;
        let lines_are_changing = a1.is_changing() || a2.is_changing() || a3.is_changing()
            || b1.is_changing() || b2.is_changing() || b3.is_changing();

        if lines_are_changing {
            Some(
                Hexagram::new(
                    Trigram(a1.settle(), a2.settle(), a3.settle()),
                    Trigram(b1.settle(), b2.settle(), b3.settle()),
                ),
            )
        } else {
            None
        }
    }
}

/// Law: a hexagram has a relating hexagram if and only if it has a changing
/// line — `spec_relating` is absent exactly when the sequence of changing
/// line positions is empty.
pub proof fn lemma_relating_iff_changing(h: Hexagram)
    ensures
        h.spec_relating() is None <==> h.spec_changing_line_positions().len() == 0,
{
}

} // verus!

use crate::trigram::Trigram;
use vstd::prelude::*;

verus! {

/// The translated names of one hexagram in a textual data set: the English
/// gloss, the Chinese characters and the pinyin romanization.
#[derive(Debug, Clone)]
pub struct NameTranslations {
    pub english: String,
    pub chinese: String,
    pub pinyin: String,
}

/// The pair of Bagua ranks, each between 1 and 8, that a textual data set
/// uses to identify a hexagram: the rank of the trigram above and the rank
/// of the trigram below.
#[derive(Debug, Clone, Copy, PartialEq, Eq, Structural)]
pub struct TrigramUsizePair {
    pub above: usize,
    pub below: usize,
}

/// Associates the meaning of a changing line with the position of a changing
/// line in a hexagram.
#[derive(Debug, Clone)]
pub struct ChangingLineMeaning {
    pub position: usize,
    pub meaning: String,
}

impl View for ChangingLineMeaning {
    type V = (usize, Seq<char>);

    open spec fn view(&self) -> (usize, Seq<char>) {
        (self.position, self.meaning@)
    }
}

impl TrigramUsizePair {
    /// The pair of canonical settled trigrams these ranks denote: both ranks
    /// must lie between 1 and 8, and the rank above is checked first.
    pub open spec fn spec_trigrams(self) -> Result<(Trigram, Trigram), crate::trigram::Error> {
        if !(1 <= self.above <= 8) {
            Err(crate::trigram::Error::IntegerOutOfRange(self.above))
        } else if !(1 <= self.below <= 8) {
            Err(crate::trigram::Error::IntegerOutOfRange(self.below))
        } else {
            Ok(
                (
                    Trigram::spec_from_rank(self.above).unwrap(),
                    Trigram::spec_from_rank(self.below).unwrap(),
                ),
            )
        }
    }

    /// Convert this pair of ranks into the pair of canonical settled
    /// trigrams it denotes; a rank outside 1 through 8 is rejected with
    /// `trigram::Error::IntegerOutOfRange`, the rank above checked first.
    pub fn trigrams(&self) -> (r: Result<(Trigram, Trigram), crate::trigram::Error>)
        ensures
            r == self.spec_trigrams(),
            r is Ok <==> (1 <= self.above <= 8 && 1 <= self.below <= 8),
    {
        let above = Trigram::from_rank(self.above)?;
        let below = Trigram::from_rank(self.below)?;
        Ok((above, below))
    }
}

/// The meanings that apply to a set of changing line positions, scanning the
/// given meanings in order and keeping, as (position, meaning text) pairs,
/// exactly those whose position occurs among the given positions.
pub open spec fn spec_line_meanings(
    meanings: Seq<ChangingLineMeaning>,
    positions: Seq<usize>,
) -> Seq<(usize, Seq<char>)>
    decreases meanings.len(),
{
    if meanings.len() == 0 {
        Seq::empty()
    } else {
        spec_line_meanings(meanings.drop_last(), positions) + (if positions.contains(
            meanings.last()@.0,
        ) {
            seq![meanings.last()@]
        } else {
            Seq::empty()
        })
    }
}

/// The views of a sequence of changing line meanings, in order.
pub open spec fn spec_meaning_views(meanings: Seq<ChangingLineMeaning>) -> Seq<(usize, Seq<char>)> {
    meanings.map_values(|m: ChangingLineMeaning| m@)
}

/// Whether a position occurs in a list of positions.
pub fn contains_position(positions: &Vec<usize>, p: usize) -> (r: bool)
    ensures
        r == positions@.contains(p),
{
    let mut i: usize = 0;
    while i < positions.len()
        invariant
            i <= positions@.len(),
            forall|j: int| 0 <= j < i ==> positions@[j] != p,
        decreases positions@.len() - i,
    {
        if positions[i] == p {
            return true;
        }
        i += 1;
    }
    false
}

/// Filter a list of changing line meanings down to those whose position
/// occurs among the given changing line positions, keeping their order. The
/// kept meanings are copied.
pub fn line_meanings(
    meanings: &Vec<ChangingLineMeaning>,
    changing_lines: &Vec<usize>,
) -> (r: Vec<ChangingLineMeaning>)
    ensures
        spec_meaning_views(r@) == spec_line_meanings(meanings@, changing_lines@),
{
    let mut kept: Vec<ChangingLineMeaning> = Vec::new();
    let mut i: usize = 0;
    while i < meanings.len()
        invariant
            i <= meanings@.len(),
            spec_meaning_views(kept@) == spec_line_meanings(
                meanings@.take(i as int),
                changing_lines@,
            ),
        decreases meanings@.len() - i,
    {
        let m = &meanings[i];
        if contains_position(changing_lines, m.position) {
            kept.push(ChangingLineMeaning { position: m.position, meaning: m.meaning.clone() });
        }
        proof {
            let taken = meanings@.take(i + 1 as int);
            assert(taken.drop_last() =~= meanings@.take(i as int));
            assert(taken.last() == meanings@[i as int]);
            assert(spec_meaning_views(kept@) =~= spec_line_meanings(taken, changing_lines@));
        }
        i += 1;
    }
    proof {
        assert(meanings@.take(meanings@.len() as int) =~= meanings@);
    }
    kept
}
} // verus!

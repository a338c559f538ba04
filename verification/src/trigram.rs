use crate::divination_method::DivinationMethod;
use crate::line::Line;
use vstd::prelude::*;
use vstd::string::StringExecFns;

verus! {

/// A `Trigram` is an ordered triple of [`Line`]s, from top to bottom. This
/// is the building block of [`Hexagram`](crate::hexagram::Hexagram)s.
#[derive(Clone, Copy, Debug, PartialEq, Eq, Structural)]
pub struct Trigram(pub Line, pub Line, pub Line);

/// Named trigrams according to the Bagua.
#[derive(Clone, Copy, Debug, PartialEq, Eq, Structural)]
pub enum TrigramName {
    Dui,  // Lake or Marsh
    Gen,  // Mountain
    Kan,  // Water
    Kun,  // Earth
    Li,   // Flame or Fire
    Qian, // Heaven
    Xun,  // Wind
    Zhen, // Thunder
}

/// Errors related to `Trigram`s.
#[derive(Debug, Clone, Copy, PartialEq, Eq, Structural)]
pub enum Error {
    /// Returned when creating a `Trigram` from a rank, if the given integer
    /// is not between 1 and 8 inclusive.
    IntegerOutOfRange(usize),
}

impl TrigramName {
    /// The rank of this name in the Bagua numbering: Qian is 1, Dui 2, Li 3,
    /// Zhen 4, Xun 5, Kan 6, Gen 7 and Kun 8.
    pub open spec fn spec_rank(self) -> int {
        match self {
            TrigramName::Qian => 1,
            TrigramName::Dui => 2,
            TrigramName::Li => 3,
            TrigramName::Zhen => 4,
            TrigramName::Xun => 5,
            TrigramName::Kan => 6,
            TrigramName::Gen => 7,
            TrigramName::Kun => 8,
        }
    }

    /// The name holding the given Bagua rank; meaningful for ranks 1
    /// through 8.
    pub open spec fn spec_of_rank(n: int) -> TrigramName {
        if n == 1 {
            TrigramName::Qian
        } else if n == 2 {
            TrigramName::Dui
        } else if n == 3 {
            TrigramName::Li
        } else if n == 4 {
            TrigramName::Zhen
        } else if n == 5 {
            TrigramName::Xun
        } else if n == 6 {
            TrigramName::Kan
        } else if n == 7 {
            TrigramName::Gen
        } else {
            TrigramName::Kun
        }
    }

    /// The unicode symbol of the named trigram.
    pub open spec fn spec_symbol(self) -> Seq<char> {
        match self {
            TrigramName::Qian => "☰"@,
            TrigramName::Kun => "☷"@,
            TrigramName::Zhen => "☳"@,
            TrigramName::Kan => "☵"@,
            TrigramName::Gen => "☶"@,
            TrigramName::Xun => "☴"@,
            TrigramName::Li => "☲"@,
            TrigramName::Dui => "☱"@,
        }
    }

    /// The pinyin romanization of the named trigram.
    pub open spec fn spec_pinyin(self) -> Seq<char> {
        match self {
            TrigramName::Qian => "Qián"@,
            TrigramName::Kun => "Kūn"@,
            TrigramName::Zhen => "Zhèn"@,
            TrigramName::Kan => "Kǎn"@,
            TrigramName::Gen => "Gèn"@,
            TrigramName::Xun => "Xùn"@,
            TrigramName::Li => "Lí"@,
            TrigramName::Dui => "Duì"@,
        }
    }

    /// The Chinese character of the named trigram.
    pub open spec fn spec_chinese(self) -> Seq<char> {
        match self {
            TrigramName::Qian => "乾"@,
            TrigramName::Kun => "坤"@,
            TrigramName::Zhen => "震"@,
            TrigramName::Kan => "坎"@,
            TrigramName::Gen => "艮"@,
            TrigramName::Xun => "巽"@,
            TrigramName::Li => "離"@,
            TrigramName::Dui => "兌"@,
        }
    }

    /// The English translation of the named trigram.
    pub open spec fn spec_english(self) -> Seq<char> {
        match self {
            TrigramName::Qian => "The Creative"@,
            TrigramName::Kun => "The Receptive"@,
            TrigramName::Zhen => "The Arousing"@,
            TrigramName::Kan => "The Abysmal"@,
            TrigramName::Gen => "Keeping Still"@,
            TrigramName::Xun => "The Gentle"@,
            TrigramName::Li => "The Clinging"@,
            TrigramName::Dui => "The Joyous"@,
        }
    }

    /// The attribute keyword of the named trigram.
    pub open spec fn spec_attribute(self) -> Seq<char> {
        match self {
            TrigramName::Qian => "strong, persisting"@,
            TrigramName::Kun => "devoted, yielding"@,
            TrigramName::Zhen => "inciting movement"@,
            TrigramName::Kan => "dangerous"@,
            TrigramName::Gen => "resting, stand-still"@,
            TrigramName::Xun => "penetrating"@,
            TrigramName::Li => "light-giving"@,
            TrigramName::Dui => "pleasure"@,
        }
    }

    /// The natural image of the named trigram.
    pub open spec fn spec_image(self) -> Seq<char> {
        match self {
            TrigramName::Qian => "heaven, sky"@,
            TrigramName::Kun => "earth, ground"@,
            TrigramName::Zhen => "thunder"@,
            TrigramName::Kan => "water"@,
            TrigramName::Gen => "mountain"@,
            TrigramName::Xun => "wind, air"@,
            TrigramName::Li => "fire, glow"@,
            TrigramName::Dui => "lake, marsh"@,
        }
    }

    /// The family relationship of the named trigram.
    pub open spec fn spec_family_relationship(self) -> Seq<char> {
        match self {
            TrigramName::Qian => "father"@,
            TrigramName::Kun => "mother"@,
            TrigramName::Zhen => "first son"@,
            TrigramName::Kan => "second son"@,
            TrigramName::Gen => "third son"@,
            TrigramName::Xun => "first daughter"@,
            TrigramName::Li => "second daughter"@,
            TrigramName::Dui => "third daughter"@,
        }
    }

    /// Get this name's rank in the Bagua numbering.
    pub fn rank(&self) -> (r: usize)
        ensures
            r == self.spec_rank(),
            1 <= r <= 8,
    {
        match self {
            TrigramName::Qian => 1,
            TrigramName::Dui => 2,
            TrigramName::Li => 3,
            TrigramName::Zhen => 4,
            TrigramName::Xun => 5,
            TrigramName::Kan => 6,
            TrigramName::Gen => 7,
            TrigramName::Kun => 8,
        }
    }

    /// Get the unicode trigram symbol of this name.
    pub fn symbol(&self) -> (r: &'static str)
        ensures
            r@ == self.spec_symbol(),
    {
        match self {
            TrigramName::Qian => "☰",
            TrigramName::Kun => "☷",
            TrigramName::Zhen => "☳",
            TrigramName::Kan => "☵",
            TrigramName::Gen => "☶",
            TrigramName::Xun => "☴",
            TrigramName::Li => "☲",
            TrigramName::Dui => "☱",
        }
    }

    /// Get the pinyin version of this name.
    pub fn pinyin(&self) -> (r: String)
        ensures
            r@ == self.spec_pinyin(),
    {
        match self {
            TrigramName::Qian => String::from_str("Qián"),
            TrigramName::Kun => String::from_str("Kūn"),
            TrigramName::Zhen => String::from_str("Zhèn"),
            TrigramName::Kan => String::from_str("Kǎn"),
            TrigramName::Gen => String::from_str("Gèn"),
            TrigramName::Xun => String::from_str("Xùn"),
            TrigramName::Li => String::from_str("Lí"),
            TrigramName::Dui => String::from_str("Duì"),
        }
    }

    /// Get the Chinese character version of this name.
    pub fn chinese(&self) -> (r: String)
        ensures
            r@ == self.spec_chinese(),
    {
        match self {
            TrigramName::Qian => String::from_str("乾"),
            TrigramName::Kun => String::from_str("坤"),
            TrigramName::Zhen => String::from_str("震"),
            TrigramName::Kan => String::from_str("坎"),
            TrigramName::Gen => String::from_str("艮"),
            TrigramName::Xun => String::from_str("巽"),
            TrigramName::Li => String::from_str("離"),
            TrigramName::Dui => String::from_str("兌"),
        }
    }

    /// Get the English translation of this name.
    pub fn english(&self) -> (r: String)
        ensures
            r@ == self.spec_english(),
    {
        match self {
            TrigramName::Qian => String::from_str("The Creative"),
            TrigramName::Kun => String::from_str("The Receptive"),
            TrigramName::Zhen => String::from_str("The Arousing"),
            TrigramName::Kan => String::from_str("The Abysmal"),
            TrigramName::Gen => String::from_str("Keeping Still"),
            TrigramName::Xun => String::from_str("The Gentle"),
            TrigramName::Li => String::from_str("The Clinging"),
            TrigramName::Dui => String::from_str("The Joyous"),
        }
    }

    /// Get the attribute that this name represents.
    pub fn attribute(&self) -> (r: String)
        ensures
            r@ == self.spec_attribute(),
    {
        match self {
            TrigramName::Qian => String::from_str("strong, persisting"),
            TrigramName::Kun => String::from_str("devoted, yielding"),
            TrigramName::Zhen => String::from_str("inciting movement"),
            TrigramName::Kan => String::from_str("dangerous"),
            TrigramName::Gen => String::from_str("resting, stand-still"),
            TrigramName::Xun => String::from_str("penetrating"),
            TrigramName::Li => String::from_str("light-giving"),
            TrigramName::Dui => String::from_str("pleasure"),
        }
    }

    /// Get the natural image that this name represents.
    pub fn image(&self) -> (r: String)
        ensures
            r@ == self.spec_image(),
    {
        match self {
            TrigramName::Qian => String::from_str("heaven, sky"),
            TrigramName::Kun => String::from_str("earth, ground"),
            TrigramName::Zhen => String::from_str("thunder"),
            TrigramName::Kan => String::from_str("water"),
            TrigramName::Gen => String::from_str("mountain"),
            TrigramName::Xun => String::from_str("wind, air"),
            TrigramName::Li => String::from_str("fire, glow"),
            TrigramName::Dui => String::from_str("lake, marsh"),
        }
    }

    /// Get the family relationship that this name represents.
    pub fn family_relationship(&self) -> (r: String)
        ensures
            r@ == self.spec_family_relationship(),
    {
        match self {
            TrigramName::Qian => String::from_str("father"),
            TrigramName::Kun => String::from_str("mother"),
            TrigramName::Zhen => String::from_str("first son"),
            TrigramName::Kan => String::from_str("second son"),
            TrigramName::Gen => String::from_str("third son"),
            TrigramName::Xun => String::from_str("first daughter"),
            TrigramName::Li => String::from_str("second daughter"),
            TrigramName::Dui => String::from_str("third daughter"),
        }
    }
}

impl Trigram {
    /// The name this trigram classifies to: a total function of the three
    /// lines' orientations, independent of any changing marks.
    pub open spec fn spec_classify(self) -> TrigramName {
        if self.0 is Unbroken {
            if self.1 is Unbroken {
                if self.2 is Unbroken {
                    TrigramName::Qian
                } else {
                    TrigramName::Xun
                }
            } else {
                if self.2 is Unbroken {
                    TrigramName::Li
                } else {
                    TrigramName::Gen
                }
            }
        } else {
            if self.1 is Unbroken {
                if self.2 is Unbroken {
                    TrigramName::Dui
                } else {
                    TrigramName::Kan
                }
            } else {
                if self.2 is Unbroken {
                    TrigramName::Zhen
                } else {
                    TrigramName::Kun
                }
            }
        }
    }

    /// The canonical settled trigram of a name: the one line pattern that
    /// classifies to the name, with no line changing.
    pub open spec fn spec_canonical(name: TrigramName) -> Trigram {
        match name {
            TrigramName::Qian => Trigram(
                Line::Unbroken { changing: false },
                Line::Unbroken { changing: false },
                Line::Unbroken { changing: false },
            ),
            TrigramName::Kun => Trigram(
                Line::Broken { changing: false },
                Line::Broken { changing: false },
                Line::Broken { changing: false },
            ),
            TrigramName::Zhen => Trigram(
                Line::Broken { changing: false },
                Line::Broken { changing: false },
                Line::Unbroken { changing: false },
            ),
            TrigramName::Kan => Trigram(
                Line::Broken { changing: false },
                Line::Unbroken { changing: false },
                Line::Broken { changing: false },
            ),
            TrigramName::Gen => Trigram(
                Line::Unbroken { changing: false },
                Line::Broken { changing: false },
                Line::Broken { changing: false },
            ),
            TrigramName::Xun => Trigram(
                Line::Unbroken { changing: false },
                Line::Unbroken { changing: false },
                Line::Broken { changing: false },
            ),
            TrigramName::Li => Trigram(
                Line::Unbroken { changing: false },
                Line::Broken { changing: false },
                Line::Unbroken { changing: false },
            ),
            TrigramName::Dui => Trigram(
                Line::Broken { changing: false },
                Line::Unbroken { changing: false },
                Line::Unbroken { changing: false },
            ),
        }
    }

    /// The trigram a rank between 1 and 8 denotes: the canonical settled
    /// trigram of the name holding that rank. Any other integer is rejected
    /// as out of range.
    pub open spec fn spec_from_rank(n: usize) -> Result<Trigram, Error> {
        if 1 <= n <= 8 {
            Ok(Self::spec_canonical(TrigramName::spec_of_rank(n as int)))
        } else {
            Err(Error::IntegerOutOfRange(n))
        }
    }

    /// Generate a new `Trigram` from three random lines, all drawn by the
    /// given divination method.
    pub fn new_random(divination_method: DivinationMethod) -> Self {
        Trigram(
            Line::new_random(divination_method),
            Line::new_random(divination_method),
            Line::new_random(divination_method),
        )
    }

    /// Get this `Trigram`'s `Line`s, top to bottom. The lines are copied.
    pub fn lines(&self) -> (r: Vec<Line>)
        ensures
            r@ == seq![self.0, self.1, self.2],
    {
        let mut lines: Vec<Line> = Vec::new();
        lines.push(self.0);
        lines.push(self.1);
        lines.push(self.2);
        assert(lines@ =~= seq![self.0, self.1, self.2]);
        lines
    }

    /// Generate a new `Trigram` by the coin toss method.
    pub fn from_coin_tosses() -> Self {
        Trigram(
            Line::from_coin_tosses(),
            Line::from_coin_tosses(),
            Line::from_coin_tosses(),
        )
    }

    /// Generate a new `Trigram` by the yarrow stalk method.
    pub fn from_yarrow_stalks() -> Self {
        Trigram(
            Line::from_yarrow_stalks(),
            Line::from_yarrow_stalks(),
            Line::from_yarrow_stalks(),
        )
    }

    /// Classify this trigram into its name: an exhaustive match on the three
    /// lines' orientations that ignores the changing marks and never fails.
    pub fn classify(&self) -> (r: TrigramName)
        ensures
            r == self.spec_classify(),
    {
        match *self {
            Trigram(Line::Unbroken { .. }, Line::Unbroken { .. }, Line::Unbroken { .. }) => {
                TrigramName::Qian
            },
            Trigram(Line::Broken { .. }, Line::Broken { .. }, Line::Broken { .. }) => {
                TrigramName::Kun
            },
            Trigram(Line::Broken { .. }, Line::Broken { .. }, Line::Unbroken { .. }) => {
                TrigramName::Zhen
            },
            Trigram(Line::Broken { .. }, Line::Unbroken { .. }, Line::Broken { .. }) => {
                TrigramName::Kan
            },
            Trigram(Line::Unbroken { .. }, Line::Broken { .. }, Line::Broken { .. }) => {
                TrigramName::Gen
            },
            Trigram(Line::Unbroken { .. }, Line::Unbroken { .. }, Line::Broken { .. }) => {
                TrigramName::Xun
            },
            Trigram(Line::Unbroken { .. }, Line::Broken { .. }, Line::Unbroken { .. }) => {
                TrigramName::Li
            },
            Trigram(Line::Broken { .. }, Line::Unbroken { .. }, Line::Unbroken { .. }) => {
                TrigramName::Dui
            },
        }
    }

    /// Create the canonical settled `Trigram` for a Bagua rank between 1 and
    /// 8 inclusive; any other integer is rejected with
    /// `Error::IntegerOutOfRange`.
    pub fn from_rank(n: usize) -> (r: Result<Trigram, Error>)
        ensures
            r == Self::spec_from_rank(n),
            r is Ok <==> 1 <= n <= 8,
    {
        if 1 <= n && n <= 8 {
            let name = match n {
                1 => TrigramName::Qian,
                2 => TrigramName::Dui,
                3 => TrigramName::Li,
                4 => TrigramName::Zhen,
                5 => TrigramName::Xun,
                6 => TrigramName::Kan,
                7 => TrigramName::Gen,
                _ => TrigramName::Kun,
            };
            Ok(Self::canonical(name))
        } else {
            Err(Error::IntegerOutOfRange(n))
        }
    }

    /// Build the canonical settled trigram of a name.
    pub fn canonical(name: TrigramName) -> (r: Trigram)
        ensures
            r == Self::spec_canonical(name),
    {
        let broken = Line::broken();
        let unbroken = Line::unbroken();
        match name {
            TrigramName::Qian => Trigram(unbroken, unbroken, unbroken),
            TrigramName::Kun => Trigram(broken, broken, broken),
            TrigramName::Zhen => Trigram(broken, broken, unbroken),
            TrigramName::Kan => Trigram(broken, unbroken, broken),
            TrigramName::Gen => Trigram(unbroken, broken, broken),
            TrigramName::Xun => Trigram(unbroken, unbroken, broken),
            TrigramName::Li => Trigram(unbroken, broken, unbroken),
            TrigramName::Dui => Trigram(broken, unbroken, unbroken),
        }
    }

    /// Get the unicode trigram symbol corresponding to this `Trigram`.
    pub fn symbol(&self) -> (r: &'static str)
        ensures
            r@ == self.spec_classify().spec_symbol(),
    {
        self.classify().symbol()
    }

    /// Get the pinyin version of the `Trigram`.
    pub fn pinyin(&self) -> (r: String)
        ensures
            r@ == self.spec_classify().spec_pinyin(),
    {
        self.classify().pinyin()
    }

    /// Get the Chinese character version of the `Trigram`.
    pub fn chinese(&self) -> (r: String)
        ensures
            r@ == self.spec_classify().spec_chinese(),
    {
        self.classify().chinese()
    }

    /// Get the English translation of the `Trigram`.
    pub fn english(&self) -> (r: String)
        ensures
            r@ == self.spec_classify().spec_english(),
    {
        self.classify().english()
    }

    /// Get the attribute that the `Trigram` represents.
    pub fn attribute(&self) -> (r: String)
        ensures
            r@ == self.spec_classify().spec_attribute(),
    {
        self.classify().attribute()
    }

    /// Get the image that the `Trigram` represents.
    pub fn image(&self) -> (r: String)
        ensures
            r@ == self.spec_classify().spec_image(),
    {
        self.classify().image()
    }

    /// Get the family relationship that the `Trigram` represents.
    pub fn family_relationship(&self) -> (r: String)
        ensures
            r@ == self.spec_classify().spec_family_relationship(),
    {
        self.classify().family_relationship()
    }

    /// Get a `Trigram`'s rank/index in the Bagua.
    pub fn number(&self) -> (r: usize)
        ensures
            r == self.spec_classify().spec_rank(),
            1 <= r <= 8,
    {
        self.classify().rank()
    }
}

/// Law: ranks, canonical trigrams and classification round-trip. For every
/// rank between 1 and 8, the canonical trigram of the name holding that rank
/// has no changing line, classifies back to that name, and so carries the
/// rank it was built from.
pub proof fn lemma_rank_classify_round_trip()
    ensures
        forall|name: TrigramName| #[trigger] Trigram::spec_canonical(name).spec_classify() == name,
        forall|n: int|
            1 <= n <= 8 ==> #[trigger] TrigramName::spec_of_rank(n).spec_rank() == n,
        forall|name: TrigramName| TrigramName::spec_of_rank(#[trigger] name.spec_rank()) == name,
        forall|n: usize|
            1 <= n <= 8 ==> (#[trigger] Trigram::spec_from_rank(
                n,
            )).unwrap().spec_classify().spec_rank() == n,
{
    assert forall|name: TrigramName| #[trigger]
        Trigram::spec_canonical(name).spec_classify() == name by {
        match name {
            TrigramName::Qian => {},
            TrigramName::Kun => {},
            TrigramName::Zhen => {},
            TrigramName::Kan => {},
            TrigramName::Gen => {},
            TrigramName::Xun => {},
            TrigramName::Li => {},
            TrigramName::Dui => {},
        }
    }
}

/// Law: classification is faithful to the line pattern. The canonical
/// trigram of the name a trigram classifies to has the same three
/// orientations as the trigram itself, whatever its changing marks.
pub proof fn lemma_classification_matches_orientations(t: Trigram)
    ensures
        Trigram::spec_canonical(t.spec_classify()).0.spec_is_broken() == t.0.spec_is_broken(),
        Trigram::spec_canonical(t.spec_classify()).1.spec_is_broken() == t.1.spec_is_broken(),
        Trigram::spec_canonical(t.spec_classify()).2.spec_is_broken() == t.2.spec_is_broken(),
{
}

} // verus!

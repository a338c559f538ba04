use crate::trigram::TrigramName;
use vstd::prelude::*;

verus! {

/// Errors related to sequence-table lookups.
#[derive(Debug, Clone, Copy, PartialEq, Eq, Structural)]
pub enum Error {
    /// Returned when looking up a hexagram by number, if the given integer
    /// is not between 1 and 64 inclusive.
    IntegerOutOfRange(u8),
}

/// The King Wen number of the hexagram with the given trigrams above and
/// below: a fixed constant between 1 and 64 for each of the 64 ordered
/// pairs, no two pairs sharing a number.
pub open spec fn spec_king_wen_number(above: TrigramName, below: TrigramName) -> int {
    match (above, below) {
        (TrigramName::Qian, TrigramName::Qian) => 1,
        (TrigramName::Qian, TrigramName::Zhen) => 25,
        (TrigramName::Qian, TrigramName::Kan) => 6,
        (TrigramName::Qian, TrigramName::Gen) => 33,
        (TrigramName::Qian, TrigramName::Kun) => 12,
        (TrigramName::Qian, TrigramName::Xun) => 44,
        (TrigramName::Qian, TrigramName::Li) => 13,
        (TrigramName::Qian, TrigramName::Dui) => 10,
        (TrigramName::Zhen, TrigramName::Qian) => 34,
        (TrigramName::Zhen, TrigramName::Zhen) => 51,
        (TrigramName::Zhen, TrigramName::Kan) => 40,
        (TrigramName::Zhen, TrigramName::Gen) => 62,
        (TrigramName::Zhen, TrigramName::Kun) => 16,
        (TrigramName::Zhen, TrigramName::Xun) => 32,
        (TrigramName::Zhen, TrigramName::Li) => 55,
        (TrigramName::Zhen, TrigramName::Dui) => 54,
        (TrigramName::Kan, TrigramName::Qian) => 5,
        (TrigramName::Kan, TrigramName::Zhen) => 3,
        (TrigramName::Kan, TrigramName::Kan) => 29,
        (TrigramName::Kan, TrigramName::Gen) => 39,
        (TrigramName::Kan, TrigramName::Kun) => 8,
        (TrigramName::Kan, TrigramName::Xun) => 48,
        (TrigramName::Kan, TrigramName::Li) => 63,
        (TrigramName::Kan, TrigramName::Dui) => 60,
        (TrigramName::Gen, TrigramName::Qian) => 26,
        (TrigramName::Gen, TrigramName::Zhen) => 27,
        (TrigramName::Gen, TrigramName::Kan) => 4,
        (TrigramName::Gen, TrigramName::Gen) => 52,
        (TrigramName::Gen, TrigramName::Kun) => 23,
        (TrigramName::Gen, TrigramName::Xun) => 18,
        (TrigramName::Gen, TrigramName::Li) => 22,
        (TrigramName::Gen, TrigramName::Dui) => 41,
        (TrigramName::Kun, TrigramName::Qian) => 11,
        (TrigramName::Kun, TrigramName::Zhen) => 24,
        (TrigramName::Kun, TrigramName::Kan) => 7,
        (TrigramName::Kun, TrigramName::Gen) => 15,
        (TrigramName::Kun, TrigramName::Kun) => 2,
        (TrigramName::Kun, TrigramName::Xun) => 46,
        (TrigramName::Kun, TrigramName::Li) => 36,
        (TrigramName::Kun, TrigramName::Dui) => 19,
        (TrigramName::Xun, TrigramName::Qian) => 9,
        (TrigramName::Xun, TrigramName::Zhen) => 42,
        (TrigramName::Xun, TrigramName::Kan) => 59,
        (TrigramName::Xun, TrigramName::Gen) => 53,
        (TrigramName::Xun, TrigramName::Kun) => 20,
        (TrigramName::Xun, TrigramName::Xun) => 57,
        (TrigramName::Xun, TrigramName::Li) => 37,
        (TrigramName::Xun, TrigramName::Dui) => 61,
        (TrigramName::Li, TrigramName::Qian) => 14,
        (TrigramName::Li, TrigramName::Zhen) => 21,
        (TrigramName::Li, TrigramName::Kan) => 64,
        (TrigramName::Li, TrigramName::Gen) => 56,
        (TrigramName::Li, TrigramName::Kun) => 35,
        (TrigramName::Li, TrigramName::Xun) => 50,
        (TrigramName::Li, TrigramName::Li) => 30,
        (TrigramName::Li, TrigramName::Dui) => 38,
        (TrigramName::Dui, TrigramName::Qian) => 43,
        (TrigramName::Dui, TrigramName::Zhen) => 17,
        (TrigramName::Dui, TrigramName::Kan) => 47,
        (TrigramName::Dui, TrigramName::Gen) => 31,
        (TrigramName::Dui, TrigramName::Kun) => 45,
        (TrigramName::Dui, TrigramName::Xun) => 28,
        (TrigramName::Dui, TrigramName::Li) => 49,
        (TrigramName::Dui, TrigramName::Dui) => 58,
    }
}

/// The ordered trigram pair (above, below) whose hexagram carries the given
/// King Wen number; meaningful for numbers 1 through 64.
pub open spec fn spec_king_wen_pair(n: int) -> (TrigramName, TrigramName) {
    if n == 1 {
        (TrigramName::Qian, TrigramName::Qian)
    } else if n == 2 {
        (TrigramName::Kun, TrigramName::Kun)
    } else if n == 3 {
        (TrigramName::Kan, TrigramName::Zhen)
    } else if n == 4 {
        (TrigramName::Gen, TrigramName::Kan)
    } else if n == 5 {
        (TrigramName::Kan, TrigramName::Qian)
    } else if n == 6 {
        (TrigramName::Qian, TrigramName::Kan)
    } else if n == 7 {
        (TrigramName::Kun, TrigramName::Kan)
    } else if n == 8 {
        (TrigramName::Kan, TrigramName::Kun)
    } else if n == 9 {
        (TrigramName::Xun, TrigramName::Qian)
    } else if n == 10 {
        (TrigramName::Qian, TrigramName::Dui)
    } else if n == 11 {
        (TrigramName::Kun, TrigramName::Qian)
    } else if n == 12 {
        (TrigramName::Qian, TrigramName::Kun)
    } else if n == 13 {
        (TrigramName::Qian, TrigramName::Li)
    } else if n == 14 {
        (TrigramName::Li, TrigramName::Qian)
    } else if n == 15 {
        (TrigramName::Kun, TrigramName::Gen)
    } else if n == 16 {
        (TrigramName::Zhen, TrigramName::Kun)
    } else if n == 17 {
        (TrigramName::Dui, TrigramName::Zhen)
    } else if n == 18 {
        (TrigramName::Gen, TrigramName::Xun)
    } else if n == 19 {
        (TrigramName::Kun, TrigramName::Dui)
    } else if n == 20 {
        (TrigramName::Xun, TrigramName::Kun)
    } else if n == 21 {
        (TrigramName::Li, TrigramName::Zhen)
    } else if n == 22 {
        (TrigramName::Gen, TrigramName::Li)
    } else if n == 23 {
        (TrigramName::Gen, TrigramName::Kun)
    } else if n == 24 {
        (TrigramName::Kun, TrigramName::Zhen)
    } else if n == 25 {
        (TrigramName::Qian, TrigramName::Zhen)
    } else if n == 26 {
        (TrigramName::Gen, TrigramName::Qian)
    } else if n == 27 {
        (TrigramName::Gen, TrigramName::Zhen)
    } else if n == 28 {
        (TrigramName::Dui, TrigramName::Xun)
    } else if n == 29 {
        (TrigramName::Kan, TrigramName::Kan)
    } else if n == 30 {
        (TrigramName::Li, TrigramName::Li)
    } else if n == 31 {
        (TrigramName::Dui, TrigramName::Gen)
    } else if n == 32 {
        (TrigramName::Zhen, TrigramName::Xun)
    } else if n == 33 {
        (TrigramName::Qian, TrigramName::Gen)
    } else if n == 34 {
        (TrigramName::Zhen, TrigramName::Qian)
    } else if n == 35 {
        (TrigramName::Li, TrigramName::Kun)
    } else if n == 36 {
        (TrigramName::Kun, TrigramName::Li)
    } else if n == 37 {
        (TrigramName::Xun, TrigramName::Li)
    } else if n == 38 {
        (TrigramName::Li, TrigramName::Dui)
    } else if n == 39 {
        (TrigramName::Kan, TrigramName::Gen)
    } else if n == 40 {
        (TrigramName::Zhen, TrigramName::Kan)
    } else if n == 41 {
        (TrigramName::Gen, TrigramName::Dui)
    } else if n == 42 {
        (TrigramName::Xun, TrigramName::Zhen)
    } else if n == 43 {
        (TrigramName::Dui, TrigramName::Qian)
    } else if n == 44 {
        (TrigramName::Qian, TrigramName::Xun)
    } else if n == 45 {
        (TrigramName::Dui, TrigramName::Kun)
    } else if n == 46 {
        (TrigramName::Kun, TrigramName::Xun)
    } else if n == 47 {
        (TrigramName::Dui, TrigramName::Kan)
    } else if n == 48 {
        (TrigramName::Kan, TrigramName::Xun)
    } else if n == 49 {
        (TrigramName::Dui, TrigramName::Li)
    } else if n == 50 {
        (TrigramName::Li, TrigramName::Xun)
    } else if n == 51 {
        (TrigramName::Zhen, TrigramName::Zhen)
    } else if n == 52 {
        (TrigramName::Gen, TrigramName::Gen)
    } else if n == 53 {
        (TrigramName::Xun, TrigramName::Gen)
    } else if n == 54 {
        (TrigramName::Zhen, TrigramName::Dui)
    } else if n == 55 {
        (TrigramName::Zhen, TrigramName::Li)
    } else if n == 56 {
        (TrigramName::Li, TrigramName::Gen)
    } else if n == 57 {
        (TrigramName::Xun, TrigramName::Xun)
    } else if n == 58 {
        (TrigramName::Dui, TrigramName::Dui)
    } else if n == 59 {
        (TrigramName::Xun, TrigramName::Kan)
    } else if n == 60 {
        (TrigramName::Kan, TrigramName::Dui)
    } else if n == 61 {
        (TrigramName::Xun, TrigramName::Dui)
    } else if n == 62 {
        (TrigramName::Zhen, TrigramName::Gen)
    } else if n == 63 {
        (TrigramName::Kan, TrigramName::Li)
    } else if n == 64 {
        (TrigramName::Li, TrigramName::Kan)
    } else {
        (TrigramName::Dui, TrigramName::Dui)
    }
}

/// The unicode symbol of the hexagram with the given King Wen number, from
/// the block that orders the 64 hexagram glyphs in the King Wen sequence;
/// meaningful for numbers 1 through 64.
pub open spec fn spec_symbol_of_number(n: int) -> Seq<char> {
    if n == 1 {
        "䷀"@
    } else if n == 2 {
        "䷁"@
    } else if n == 3 {
        "䷂"@
    } else if n == 4 {
        "䷃"@
    } else if n == 5 {
        "䷄"@
    } else if n == 6 {
        "䷅"@
    } else if n == 7 {
        "䷆"@
    } else if n == 8 {
        "䷇"@
    } else if n == 9 {
        "䷈"@
    } else if n == 10 {
        "䷉"@
    } else if n == 11 {
        "䷊"@
    } else if n == 12 {
        "䷋"@
    } else if n == 13 {
        "䷌"@
    } else if n == 14 {
        "䷍"@
    } else if n == 15 {
        "䷎"@
    } else if n == 16 {
        "䷏"@
    } else if n == 17 {
        "䷐"@
    } else if n == 18 {
        "䷑"@
    } else if n == 19 {
        "䷒"@
    } else if n == 20 {
        "䷓"@
    } else if n == 21 {
        "䷔"@
    } else if n == 22 {
        "䷕"@
    } else if n == 23 {
        "䷖"@
    } else if n == 24 {
        "䷗"@
    } else if n == 25 {
        "䷘"@
    } else if n == 26 {
        "䷙"@
    } else if n == 27 {
        "䷚"@
    } else if n == 28 {
        "䷛"@
    } else if n == 29 {
        "䷜"@
    } else if n == 30 {
        "䷝"@
    } else if n == 31 {
        "䷞"@
    } else if n == 32 {
        "䷟"@
    } else if n == 33 {
        "䷠"@
    } else if n == 34 {
        "䷡"@
    } else if n == 35 {
        "䷢"@
    } else if n == 36 {
        "䷣"@
    } else if n == 37 {
        "䷤"@
    } else if n == 38 {
        "䷥"@
    } else if n == 39 {
        "䷦"@
    } else if n == 40 {
        "䷧"@
    } else if n == 41 {
        "䷨"@
    } else if n == 42 {
        "䷩"@
    } else if n == 43 {
        "䷪"@
    } else if n == 44 {
        "䷫"@
    } else if n == 45 {
        "䷬"@
    } else if n == 46 {
        "䷭"@
    } else if n == 47 {
        "䷮"@
    } else if n == 48 {
        "䷯"@
    } else if n == 49 {
        "䷰"@
    } else if n == 50 {
        "䷱"@
    } else if n == 51 {
        "䷲"@
    } else if n == 52 {
        "䷳"@
    } else if n == 53 {
        "䷴"@
    } else if n == 54 {
        "䷵"@
    } else if n == 55 {
        "䷶"@
    } else if n == 56 {
        "䷷"@
    } else if n == 57 {
        "䷸"@
    } else if n == 58 {
        "䷹"@
    } else if n == 59 {
        "䷺"@
    } else if n == 60 {
        "䷻"@
    } else if n == 61 {
        "䷼"@
    } else if n == 62 {
        "䷽"@
    } else if n == 63 {
        "䷾"@
    } else if n == 64 {
        "䷿"@
    } else {
        ""@
    }
}

/// The result of looking up a King Wen number: the ordered trigram pair for
/// numbers 1 through 64, and an out-of-range error for any other integer.
pub open spec fn spec_king_wen_lookup(n: u8) -> Result<(TrigramName, TrigramName), Error> {
    if 1 <= n <= 64 {
        Ok(spec_king_wen_pair(n as int))
    } else {
        Err(Error::IntegerOutOfRange(n))
    }
}

/// Look up the King Wen number of the hexagram with the given trigrams
/// above and below.
pub fn king_wen_number(above: TrigramName, below: TrigramName) -> (r: u8)
    ensures
        r as int == spec_king_wen_number(above, below),
        1 <= r <= 64,
{
    match (above, below) {
        (TrigramName::Qian, TrigramName::Qian) => 1,
        (TrigramName::Qian, TrigramName::Zhen) => 25,
        (TrigramName::Qian, TrigramName::Kan) => 6,
        (TrigramName::Qian, TrigramName::Gen) => 33,
        (TrigramName::Qian, TrigramName::Kun) => 12,
        (TrigramName::Qian, TrigramName::Xun) => 44,
        (TrigramName::Qian, TrigramName::Li) => 13,
        (TrigramName::Qian, TrigramName::Dui) => 10,
        (TrigramName::Zhen, TrigramName::Qian) => 34,
        (TrigramName::Zhen, TrigramName::Zhen) => 51,
        (TrigramName::Zhen, TrigramName::Kan) => 40,
        (TrigramName::Zhen, TrigramName::Gen) => 62,
        (TrigramName::Zhen, TrigramName::Kun) => 16,
        (TrigramName::Zhen, TrigramName::Xun) => 32,
        (TrigramName::Zhen, TrigramName::Li) => 55,
        (TrigramName::Zhen, TrigramName::Dui) => 54,
        (TrigramName::Kan, TrigramName::Qian) => 5,
        (TrigramName::Kan, TrigramName::Zhen) => 3,
        (TrigramName::Kan, TrigramName::Kan) => 29,
        (TrigramName::Kan, TrigramName::Gen) => 39,
        (TrigramName::Kan, TrigramName::Kun) => 8,
        (TrigramName::Kan, TrigramName::Xun) => 48,
        (TrigramName::Kan, TrigramName::Li) => 63,
        (TrigramName::Kan, TrigramName::Dui) => 60,
        (TrigramName::Gen, TrigramName::Qian) => 26,
        (TrigramName::Gen, TrigramName::Zhen) => 27,
        (TrigramName::Gen, TrigramName::Kan) => 4,
        (TrigramName::Gen, TrigramName::Gen) => 52,
        (TrigramName::Gen, TrigramName::Kun) => 23,
        (TrigramName::Gen, TrigramName::Xun) => 18,
        (TrigramName::Gen, TrigramName::Li) => 22,
        (TrigramName::Gen, TrigramName::Dui) => 41,
        (TrigramName::Kun, TrigramName::Qian) => 11,
        (TrigramName::Kun, TrigramName::Zhen) => 24,
        (TrigramName::Kun, TrigramName::Kan) => 7,
        (TrigramName::Kun, TrigramName::Gen) => 15,
        (TrigramName::Kun, TrigramName::Kun) => 2,
        (TrigramName::Kun, TrigramName::Xun) => 46,
        (TrigramName::Kun, TrigramName::Li) => 36,
        (TrigramName::Kun, TrigramName::Dui) => 19,
        (TrigramName::Xun, TrigramName::Qian) => 9,
        (TrigramName::Xun, TrigramName::Zhen) => 42,
        (TrigramName::Xun, TrigramName::Kan) => 59,
        (TrigramName::Xun, TrigramName::Gen) => 53,
        (TrigramName::Xun, TrigramName::Kun) => 20,
        (TrigramName::Xun, TrigramName::Xun) => 57,
        (TrigramName::Xun, TrigramName::Li) => 37,
        (TrigramName::Xun, TrigramName::Dui) => 61,
        (TrigramName::Li, TrigramName::Qian) => 14,
        (TrigramName::Li, TrigramName::Zhen) => 21,
        (TrigramName::Li, TrigramName::Kan) => 64,
        (TrigramName::Li, TrigramName::Gen) => 56,
        (TrigramName::Li, TrigramName::Kun) => 35,
        (TrigramName::Li, TrigramName::Xun) => 50,
        (TrigramName::Li, TrigramName::Li) => 30,
        (TrigramName::Li, TrigramName::Dui) => 38,
        (TrigramName::Dui, TrigramName::Qian) => 43,
        (TrigramName::Dui, TrigramName::Zhen) => 17,
        (TrigramName::Dui, TrigramName::Kan) => 47,
        (TrigramName::Dui, TrigramName::Gen) => 31,
        (TrigramName::Dui, TrigramName::Kun) => 45,
        (TrigramName::Dui, TrigramName::Xun) => 28,
        (TrigramName::Dui, TrigramName::Li) => 49,
        (TrigramName::Dui, TrigramName::Dui) => 58,
    }
}

/// Look up the ordered trigram pair (above, below) of the hexagram with the
/// given King Wen number; an integer outside 1 through 64 is rejected with
/// `Error::IntegerOutOfRange`.
pub fn king_wen_pair(n: u8) -> (r: Result<(TrigramName, TrigramName), Error>)
    ensures
        r == spec_king_wen_lookup(n),
        r is Ok <==> 1 <= n <= 64,
{
    match n {
        1 => Ok((TrigramName::Qian, TrigramName::Qian)),
        2 => Ok((TrigramName::Kun, TrigramName::Kun)),
        3 => Ok((TrigramName::Kan, TrigramName::Zhen)),
        4 => Ok((TrigramName::Gen, TrigramName::Kan)),
        5 => Ok((TrigramName::Kan, TrigramName::Qian)),
        6 => Ok((TrigramName::Qian, TrigramName::Kan)),
        7 => Ok((TrigramName::Kun, TrigramName::Kan)),
        8 => Ok((TrigramName::Kan, TrigramName::Kun)),
        9 => Ok((TrigramName::Xun, TrigramName::Qian)),
        10 => Ok((TrigramName::Qian, TrigramName::Dui)),
        11 => Ok((TrigramName::Kun, TrigramName::Qian)),
        12 => Ok((TrigramName::Qian, TrigramName::Kun)),
        13 => Ok((TrigramName::Qian, TrigramName::Li)),
        14 => Ok((TrigramName::Li, TrigramName::Qian)),
        15 => Ok((TrigramName::Kun, TrigramName::Gen)),
        16 => Ok((TrigramName::Zhen, TrigramName::Kun)),
        17 => Ok((TrigramName::Dui, TrigramName::Zhen)),
        18 => Ok((TrigramName::Gen, TrigramName::Xun)),
        19 => Ok((TrigramName::Kun, TrigramName::Dui)),
        20 => Ok((TrigramName::Xun, TrigramName::Kun)),
        21 => Ok((TrigramName::Li, TrigramName::Zhen)),
        22 => Ok((TrigramName::Gen, TrigramName::Li)),
        23 => Ok((TrigramName::Gen, TrigramName::Kun)),
        24 => Ok((TrigramName::Kun, TrigramName::Zhen)),
        25 => Ok((TrigramName::Qian, TrigramName::Zhen)),
        26 => Ok((TrigramName::Gen, TrigramName::Qian)),
        27 => Ok((TrigramName::Gen, TrigramName::Zhen)),
        28 => Ok((TrigramName::Dui, TrigramName::Xun)),
        29 => Ok((TrigramName::Kan, TrigramName::Kan)),
        30 => Ok((TrigramName::Li, TrigramName::Li)),
        31 => Ok((TrigramName::Dui, TrigramName::Gen)),
        32 => Ok((TrigramName::Zhen, TrigramName::Xun)),
        33 => Ok((TrigramName::Qian, TrigramName::Gen)),
        34 => Ok((TrigramName::Zhen, TrigramName::Qian)),
        35 => Ok((TrigramName::Li, TrigramName::Kun)),
        36 => Ok((TrigramName::Kun, TrigramName::Li)),
        37 => Ok((TrigramName::Xun, TrigramName::Li)),
        38 => Ok((TrigramName::Li, TrigramName::Dui)),
        39 => Ok((TrigramName::Kan, TrigramName::Gen)),
        40 => Ok((TrigramName::Zhen, TrigramName::Kan)),
        41 => Ok((TrigramName::Gen, TrigramName::Dui)),
        42 => Ok((TrigramName::Xun, TrigramName::Zhen)),
        43 => Ok((TrigramName::Dui, TrigramName::Qian)),
        44 => Ok((TrigramName::Qian, TrigramName::Xun)),
        45 => Ok((TrigramName::Dui, TrigramName::Kun)),
        46 => Ok((TrigramName::Kun, TrigramName::Xun)),
        47 => Ok((TrigramName::Dui, TrigramName::Kan)),
        48 => Ok((TrigramName::Kan, TrigramName::Xun)),
        49 => Ok((TrigramName::Dui, TrigramName::Li)),
        50 => Ok((TrigramName::Li, TrigramName::Xun)),
        51 => Ok((TrigramName::Zhen, TrigramName::Zhen)),
        52 => Ok((TrigramName::Gen, TrigramName::Gen)),
        53 => Ok((TrigramName::Xun, TrigramName::Gen)),
        54 => Ok((TrigramName::Zhen, TrigramName::Dui)),
        55 => Ok((TrigramName::Zhen, TrigramName::Li)),
        56 => Ok((TrigramName::Li, TrigramName::Gen)),
        57 => Ok((TrigramName::Xun, TrigramName::Xun)),
        58 => Ok((TrigramName::Dui, TrigramName::Dui)),
        59 => Ok((TrigramName::Xun, TrigramName::Kan)),
        60 => Ok((TrigramName::Kan, TrigramName::Dui)),
        61 => Ok((TrigramName::Xun, TrigramName::Dui)),
        62 => Ok((TrigramName::Zhen, TrigramName::Gen)),
        63 => Ok((TrigramName::Kan, TrigramName::Li)),
        64 => Ok((TrigramName::Li, TrigramName::Kan)),
        _ => Err(Error::IntegerOutOfRange(n)),
    }
}

/// Look up the unicode symbol of the hexagram with the given trigrams above
/// and below.
pub fn symbol(above: TrigramName, below: TrigramName) -> (r: &'static str)
    ensures
        r@ == spec_symbol_of_number(spec_king_wen_number(above, below)),
{
    match (above, below) {
        (TrigramName::Qian, TrigramName::Qian) => "䷀",
        (TrigramName::Qian, TrigramName::Zhen) => "䷘",
        (TrigramName::Qian, TrigramName::Kan) => "䷅",
        (TrigramName::Qian, TrigramName::Gen) => "䷠",
        (TrigramName::Qian, TrigramName::Kun) => "䷋",
        (TrigramName::Qian, TrigramName::Xun) => "䷫",
        (TrigramName::Qian, TrigramName::Li) => "䷌",
        (TrigramName::Qian, TrigramName::Dui) => "䷉",
        (TrigramName::Zhen, TrigramName::Qian) => "䷡",
        (TrigramName::Zhen, TrigramName::Zhen) => "䷲",
        (TrigramName::Zhen, TrigramName::Kan) => "䷧",
        (TrigramName::Zhen, TrigramName::Gen) => "䷽",
        (TrigramName::Zhen, TrigramName::Kun) => "䷏",
        (TrigramName::Zhen, TrigramName::Xun) => "䷟",
        (TrigramName::Zhen, TrigramName::Li) => "䷶",
        (TrigramName::Zhen, TrigramName::Dui) => "䷵",
        (TrigramName::Kan, TrigramName::Qian) => "䷄",
        (TrigramName::Kan, TrigramName::Zhen) => "䷂",
        (TrigramName::Kan, TrigramName::Kan) => "䷜",
        (TrigramName::Kan, TrigramName::Gen) => "䷦",
        (TrigramName::Kan, TrigramName::Kun) => "䷇",
        (TrigramName::Kan, TrigramName::Xun) => "䷯",
        (TrigramName::Kan, TrigramName::Li) => "䷾",
        (TrigramName::Kan, TrigramName::Dui) => "䷻",
        (TrigramName::Gen, TrigramName::Qian) => "䷙",
        (TrigramName::Gen, TrigramName::Zhen) => "䷚",
        (TrigramName::Gen, TrigramName::Kan) => "䷃",
        (TrigramName::Gen, TrigramName::Gen) => "䷳",
        (TrigramName::Gen, TrigramName::Kun) => "䷖",
        (TrigramName::Gen, TrigramName::Xun) => "䷑",
        (TrigramName::Gen, TrigramName::Li) => "䷕",
        (TrigramName::Gen, TrigramName::Dui) => "䷨",
        (TrigramName::Kun, TrigramName::Qian) => "䷊",
        (TrigramName::Kun, TrigramName::Zhen) => "䷗",
        (TrigramName::Kun, TrigramName::Kan) => "䷆",
        (TrigramName::Kun, TrigramName::Gen) => "䷎",
        (TrigramName::Kun, TrigramName::Kun) => "䷁",
        (TrigramName::Kun, TrigramName::Xun) => "䷭",
        (TrigramName::Kun, TrigramName::Li) => "䷣",
        (TrigramName::Kun, TrigramName::Dui) => "䷒",
        (TrigramName::Xun, TrigramName::Qian) => "䷈",
        (TrigramName::Xun, TrigramName::Zhen) => "䷩",
        (TrigramName::Xun, TrigramName::Kan) => "䷺",
        (TrigramName::Xun, TrigramName::Gen) => "䷴",
        (TrigramName::Xun, TrigramName::Kun) => "䷓",
        (TrigramName::Xun, TrigramName::Xun) => "䷸",
        (TrigramName::Xun, TrigramName::Li) => "䷤",
        (TrigramName::Xun, TrigramName::Dui) => "䷼",
        (TrigramName::Li, TrigramName::Qian) => "䷍",
        (TrigramName::Li, TrigramName::Zhen) => "䷔",
        (TrigramName::Li, TrigramName::Kan) => "䷿",
        (TrigramName::Li, TrigramName::Gen) => "䷷",
        (TrigramName::Li, TrigramName::Kun) => "䷢",
        (TrigramName::Li, TrigramName::Xun) => "䷱",
        (TrigramName::Li, TrigramName::Li) => "䷝",
        (TrigramName::Li, TrigramName::Dui) => "䷥",
        (TrigramName::Dui, TrigramName::Qian) => "䷪",
        (TrigramName::Dui, TrigramName::Zhen) => "䷐",
        (TrigramName::Dui, TrigramName::Kan) => "䷮",
        (TrigramName::Dui, TrigramName::Gen) => "䷞",
        (TrigramName::Dui, TrigramName::Kun) => "䷬",
        (TrigramName::Dui, TrigramName::Xun) => "䷛",
        (TrigramName::Dui, TrigramName::Li) => "䷰",
        (TrigramName::Dui, TrigramName::Dui) => "䷹",
    }
}

/// Law: the King Wen table is bijective. Every ordered trigram pair maps to
/// a number between 1 and 64, recovering the pair from that number gives the
/// pair back, and every number between 1 and 64 is reached from exactly the
/// pair it recovers to — so the 64 numbers of the 64 ordered pairs are
/// exactly 1 through 64, with no repeats.
pub proof fn lemma_king_wen_bijective()
    ensures
        forall|a: TrigramName, b: TrigramName|
            1 <= #[trigger] spec_king_wen_number(a, b) <= 64,
        forall|a: TrigramName, b: TrigramName|
            #[trigger] spec_king_wen_pair(spec_king_wen_number(a, b)) == (a, b),
        forall|n: int|
            1 <= n <= 64 ==> #[trigger] spec_king_wen_number(
                spec_king_wen_pair(n).0,
                spec_king_wen_pair(n).1,
            ) == n,
{
}

/// Law: the 64 hexagram symbols are pairwise distinct — two different King
/// Wen numbers between 1 and 64 never share a glyph.
pub proof fn lemma_symbols_distinct()
    ensures
        forall|n: int, m: int|
            1 <= n <= 64 && 1 <= m <= 64 && n != m ==> spec_symbol_of_number(n)
                != spec_symbol_of_number(m),
{
    reveal_strlit("䷀");
    reveal_strlit("䷁");
    reveal_strlit("䷂");
    reveal_strlit("䷃");
    reveal_strlit("䷄");
    reveal_strlit("䷅");
    reveal_strlit("䷆");
    reveal_strlit("䷇");
    reveal_strlit("䷈");
    reveal_strlit("䷉");
    reveal_strlit("䷊");
    reveal_strlit("䷋");
    reveal_strlit("䷌");
    reveal_strlit("䷍");
    reveal_strlit("䷎");
    reveal_strlit("䷏");
    reveal_strlit("䷐");
    reveal_strlit("䷑");
    reveal_strlit("䷒");
    reveal_strlit("䷓");
    reveal_strlit("䷔");
    reveal_strlit("䷕");
    reveal_strlit("䷖");
    reveal_strlit("䷗");
    reveal_strlit("䷘");
    reveal_strlit("䷙");
    reveal_strlit("䷚");
    reveal_strlit("䷛");
    reveal_strlit("䷜");
    reveal_strlit("䷝");
    reveal_strlit("䷞");
    reveal_strlit("䷟");
    reveal_strlit("䷠");
    reveal_strlit("䷡");
    reveal_strlit("䷢");
    reveal_strlit("䷣");
    reveal_strlit("䷤");
    reveal_strlit("䷥");
    reveal_strlit("䷦");
    reveal_strlit("䷧");
    reveal_strlit("䷨");
    reveal_strlit("䷩");
    reveal_strlit("䷪");
    reveal_strlit("䷫");
    reveal_strlit("䷬");
    reveal_strlit("䷭");
    reveal_strlit("䷮");
    reveal_strlit("䷯");
    reveal_strlit("䷰");
    reveal_strlit("䷱");
    reveal_strlit("䷲");
    reveal_strlit("䷳");
    reveal_strlit("䷴");
    reveal_strlit("䷵");
    reveal_strlit("䷶");
    reveal_strlit("䷷");
    reveal_strlit("䷸");
    reveal_strlit("䷹");
    reveal_strlit("䷺");
    reveal_strlit("䷻");
    reveal_strlit("䷼");
    reveal_strlit("䷽");
    reveal_strlit("䷾");
    reveal_strlit("䷿");
    assert forall|n: int, m: int|
        1 <= n <= 64 && 1 <= m <= 64 && n != m implies spec_symbol_of_number(n)
        != spec_symbol_of_number(m) by {
        assert(spec_symbol_of_number(n)[0] != spec_symbol_of_number(m)[0]);
    }
}

} // verus!

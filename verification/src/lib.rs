//! Divination with the I Ching, as a verified core library.
//!
//! The I Ching (the *Book of Changes*) assigns meaning to randomly generated
//! figures. A [`line::Line`] is a single broken or unbroken stroke, possibly
//! marked as changing; a [`trigram::Trigram`] stacks three lines and
//! classifies to one of the eight named trigrams of the Bagua; a
//! [`hexagram::Hexagram`] pairs two trigrams and maps, through the King Wen
//! sequence table, to one of 64 numbered hexagrams. When any line is
//! changing, a hexagram also has a "relating" hexagram: the figure obtained
//! by settling every changing line.
//!
//! Textual meanings (names, judgements, line meanings) live outside this
//! crate: a caller looks them up by the hexagram number that
//! [`sequence_table`] produces. The plain record types such lookups return
//! are in [`hexagram_info`].

/// The two faces of a tossed coin.
pub mod coin;
/// The methods of divination that generate random lines.
pub mod divination_method;
/// `Hexagram`s, pairs of trigrams, are the primary unit of divination.
pub mod hexagram;
/// Plain record types for textual hexagram meanings kept outside this crate.
pub mod hexagram_info;
/// `Line`s are the building blocks of `Trigram`s and `Hexagram`s.
pub mod line;
/// The King Wen sequence: the bijection between ordered trigram-name pairs
/// and the numbers 1 through 64, with the matching unicode symbols.
pub mod sequence_table;
/// `Trigram`s, triples of lines, are the building blocks of `Hexagram`s.
pub mod trigram;

pub use crate::hexagram::Hexagram;
pub use crate::hexagram::HexagramOrdering;

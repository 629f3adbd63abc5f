//! The supported encodings and the byte strings that stand for an empty
//! aggregate in each of them.

use vstd::prelude::*;

verus! {

/// The byte `{`, which opens a map.
pub const MAP_OPEN: u8 = 0x7b;

/// The byte `}`, which closes a map.
pub const MAP_CLOSE: u8 = 0x7d;

/// The byte `[`, which opens a sequence.
pub const SEQUENCE_OPEN: u8 = 0x5b;

/// The byte `]`, which closes a sequence.
pub const SEQUENCE_CLOSE: u8 = 0x5d;

/// The wire encodings in which a payload can be written and read.
#[derive(Copy, Clone, Debug, PartialEq, Eq, Structural)]
pub enum Encoding {
    /// A self-describing encoding with explicit maps and sequences.
    Structured,
    /// A flat `key=value` encoding without nesting.
    Form,
}

/// The two bytes `{}`: a keyed map without entries.
pub open spec fn empty_map() -> Seq<u8> {
    seq![MAP_OPEN, MAP_CLOSE]
}

/// The two bytes `[]`: an ordered sequence without elements.
pub open spec fn empty_sequence() -> Seq<u8> {
    seq![SEQUENCE_OPEN, SEQUENCE_CLOSE]
}

impl Encoding {
    /// The one byte string that is written for a value without content:
    /// the empty map in the structured encoding, no byte at all in the form
    /// encoding.
    pub open spec fn canonical(self) -> Seq<u8> {
        match self {
            Encoding::Structured => empty_map(),
            Encoding::Form => Seq::<u8>::empty(),
        }
    }

    /// Whether `bytes` is read as a value without content: in the structured
    /// encoding the empty map or the empty sequence, in the form encoding
    /// the empty string, and nothing else.
    pub open spec fn accepts(self, bytes: Seq<u8>) -> bool {
        match self {
            Encoding::Structured => bytes == empty_map() || bytes == empty_sequence(),
            Encoding::Form => bytes.len() == 0,
        }
    }
}

/// Tells whether `bytes` is exactly `open` followed by `close`.
fn is_pair(bytes: &[u8], open: u8, close: u8) -> (matched: bool)
    ensures
        matched == (bytes@ == seq![open, close]),
{
    let matched = bytes.len() == 2 && bytes[0] == open && bytes[1] == close;
    proof {
        if matched {
            assert(bytes@ =~= seq![open, close]);
        }
    }
    matched
}

/// Tells whether `bytes` is a map without entries, that is exactly `{}`.
pub fn is_empty_map(bytes: &[u8]) -> (matched: bool)
    ensures
        matched == (bytes@ == empty_map()),
{
    is_pair(bytes, MAP_OPEN, MAP_CLOSE)
}

/// Tells whether `bytes` is a sequence without elements, that is exactly `[]`.
pub fn is_empty_sequence(bytes: &[u8]) -> (matched: bool)
    ensures
        matched == (bytes@ == empty_sequence()),
{
    is_pair(bytes, SEQUENCE_OPEN, SEQUENCE_CLOSE)
}

} // verus!

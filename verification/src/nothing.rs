//! The marker type and its two conversions.

use vstd::prelude::*;
use crate::encoding::{is_empty_map, is_empty_sequence, Encoding, MAP_CLOSE, MAP_OPEN};
use crate::error::DecodeError;

verus! {

/// The absence of content.
///
/// Use it where a typed interface asks for a payload and there is none.
/// It holds no data, so any two values of it are the same value.
#[derive(Copy, Clone, Debug, PartialEq, Eq, Structural)]
pub struct Nothing;

impl Nothing {
    /// The bytes that `encode` writes for this value.
    pub open spec fn encoded(self, encoding: Encoding) -> Seq<u8> {
        encoding.canonical()
    }

    /// What `decode` makes of `bytes`: the value where the encoding accepts
    /// them, the error everywhere else.
    pub open spec fn decoded(bytes: Seq<u8>, encoding: Encoding) -> Result<Nothing, DecodeError> {
        if encoding.accepts(bytes) {
            Ok(Nothing)
        } else {
            Err(DecodeError)
        }
    }

    /// Writes the value in `encoding`: `{}` in the structured encoding, the
    /// empty string in the form encoding. Never fails.
    pub fn encode(&self, encoding: Encoding) -> (bytes: Vec<u8>)
        ensures
            bytes@ == self.encoded(encoding),
            encoding == Encoding::Structured ==> bytes@ == seq![MAP_OPEN, MAP_CLOSE],
            encoding == Encoding::Form ==> bytes@ == Seq::<u8>::empty(),
    {
        let mut bytes: Vec<u8> = Vec::new();
        self.encode_into(encoding, &mut bytes);
        bytes
    }

    /// Writes the value at the end of `out`, which holds the document written
    /// so far. Whatever precedes it, a field's key included, the value adds
    /// exactly the bytes that it has on its own, and `out` keeps all it had.
    pub fn encode_into(&self, encoding: Encoding, out: &mut Vec<u8>)
        ensures
            final(out)@ == old(out)@ + self.encoded(encoding),
            encoding == Encoding::Structured ==> final(out)@ == old(out)@.push(MAP_OPEN).push(
                MAP_CLOSE,
            ),
            encoding == Encoding::Form ==> final(out)@ == old(out)@,
    {
        match encoding {
            Encoding::Structured => {
                out.push(MAP_OPEN);
                out.push(MAP_CLOSE);
            },
            Encoding::Form => {},
        }
    }

    /// Reads a value from `bytes`, which must be all of its representation.
    ///
    /// The structured encoding accepts the empty map `{}` and the empty
    /// sequence `[]`; the form encoding accepts the empty string. Every other
    /// input is refused with [`DecodeError`], and nothing is returned of it.
    pub fn decode(bytes: &[u8], encoding: Encoding) -> (result: Result<Nothing, DecodeError>)
        ensures
            result == Nothing::decoded(bytes@, encoding),
            result is Ok <==> encoding.accepts(bytes@),
    {
        let accepted = match encoding {
            Encoding::Structured => is_empty_sequence(bytes) || is_empty_map(bytes),
            Encoding::Form => bytes.len() == 0,
        };
        if accepted {
            Ok(Nothing)
        } else {
            Err(DecodeError)
        }
    }

    /// Concludes the reading of an aggregate that a source hands over step by
    /// step, as a sequence or as a map.
    ///
    /// `ended` is what the source answered on being asked to confirm that the
    /// aggregate holds nothing further. Where it confirmed, the value is
    /// returned; where it objected, its objection is returned as it came, and
    /// no value with it.
    pub fn conclude<E>(ended: Result<(), E>) -> (result: Result<Nothing, E>)
        ensures
            ended is Ok ==> result == Ok::<Nothing, E>(Nothing),
            ended is Err ==> result is Err && result->Err_0 == ended->Err_0,
    {
        match ended {
            Ok(_) => Ok(Nothing),
            Err(objection) => Err(objection),
        }
    }
}

} // verus!

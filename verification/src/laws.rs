//! What holds across the conversions, proved once for all values.

use vstd::prelude::*;
use crate::encoding::{empty_map, empty_sequence, Encoding};
use crate::error::DecodeError;
use crate::nothing::Nothing;

verus! {

/// Round trip: in every encoding, what `encode` writes for a value is accepted
/// by `decode`, which gives that value back.
pub proof fn lemma_round_trip(value: Nothing, encoding: Encoding)
    ensures
        encoding.accepts(value.encoded(encoding)),
        Nothing::decoded(value.encoded(encoding), encoding) == Ok::<Nothing, DecodeError>(value),
{
}

/// All values of the marker are one value: it carries no data by which two of
/// them could differ, so they are written alike in every encoding.
pub proof fn lemma_values_are_interchangeable(a: Nothing, b: Nothing, encoding: Encoding)
    ensures
        a == b,
        a.encoded(encoding) == b.encoded(encoding),
{
}

/// Reading is more lenient than writing: the structured encoding reads the
/// empty sequence as well as the empty map, but it never writes the former.
pub proof fn lemma_sequence_form_is_read_not_written(value: Nothing)
    ensures
        Encoding::Structured.accepts(empty_sequence()),
        Encoding::Structured.accepts(empty_map()),
        value.encoded(Encoding::Structured) == empty_map(),
        value.encoded(Encoding::Structured) != empty_sequence(),
{
}

/// What one encoding writes is not accepted by the other: the two forms are
/// never mistaken for each other.
pub proof fn lemma_encodings_do_not_mix(value: Nothing, written: Encoding, read: Encoding)
    requires
        written != read,
    ensures
        !read.accepts(value.encoded(written)),
{
    assert(empty_map().len() == 2);
    assert(empty_sequence().len() == 2);
}

} // verus!

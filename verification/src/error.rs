//! The one way in which reading can fail.

use vstd::prelude::*;

verus! {

/// The input was not an empty aggregate of the encoding in use: it held at
/// least one element or entry where none was expected, or it was no
/// aggregate at all.
#[derive(Copy, Clone, Debug, PartialEq, Eq, Structural)]
pub struct DecodeError;

} // verus!

//! A marker for "no content" and the exact bytes that stand for it on the wire.
//!
//! Request/response interfaces that are generic over their payload need a
//! concrete type for the slots that carry nothing. [`Nothing`] is that type.
//! What sets it apart from `()` is its wire contract: in a structured,
//! self-describing encoding it is the empty map `{}`, never `null` or `[]`;
//! in a flat form encoding it is the empty string. Reading is more lenient
//! than writing: a structured source may present the value as an empty map
//! or as an empty sequence, and both are accepted.
//!
//! Every executable function here is verified against the spec functions of
//! [`encoding`], and [`laws`] proves what holds across them.

pub mod encoding;
pub mod error;
pub mod laws;
pub mod nothing;

pub use encoding::Encoding;
pub use error::DecodeError;
pub use nothing::Nothing;

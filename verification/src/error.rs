//! The decoder's error kinds, and the shape of a decoding result.

use vstd::prelude::*;

verus! {

/// Why a decode failed.
#[derive(Debug, Clone, Copy, PartialEq, Eq, Structural)]
pub enum DecodeError {
    /// A read ran past the end of its buffer.
    BufferUnderrun,
    /// The first four bytes are not the module signature.
    InvalidMagic,
    /// The byte is no value type tag.
    InvalidValType(u8),
    /// A function type did not start with its tag byte; the byte found.
    InvalidFunctionTypeTag(u8),
    /// The byte is no known opcode.
    InvalidOpcode(u8),
    /// An expression that has to close with `end` closed with `else`.
    UnexpectedElse,
    /// The byte is no known section identifier.
    UnknownSectionId(u8),
    /// A name is not valid UTF-8.
    InvalidUtf8,
}

/// What the grammar assigns to the bytes from some position on: the value
/// that stands there together with the position just behind it, or the
/// error that the bytes run into.
pub type Decoded<T> = Result<(T, int), DecodeError>;

/// The view of a returned value, errors kept as they are.
pub open spec fn viewed<T: View>(r: Result<T, DecodeError>) -> Result<T::V, DecodeError> {
    match r {
        Ok(t) => Ok(t@),
        Err(e) => Err(e),
    }
}

/// A read that started at offset `start`, returned `got` and left the cursor
/// at `end` did what `expected` asks for: on success it returned the value
/// and moved behind it, on failure it returned the error and did not move.
pub open spec fn reads_as<V>(
    expected: Decoded<V>,
    start: int,
    got: Result<V, DecodeError>,
    end: int,
) -> bool {
    match expected {
        Ok((v, e)) => got == Ok::<V, DecodeError>(v) && end == e,
        Err(err) => got == Err::<V, DecodeError>(err) && end == start,
    }
}

/// The same for a decoder that fills a node in place: `value` is what the
/// node holds afterwards.
pub open spec fn loads_as<V>(
    expected: Decoded<V>,
    start: int,
    got: Result<(), DecodeError>,
    value: V,
    end: int,
) -> bool {
    match expected {
        Ok((v, e)) => got is Ok && value == v && end == e,
        Err(err) => got == Err::<(), DecodeError>(err) && end == start,
    }
}

} // verus!

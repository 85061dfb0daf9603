//! The cursor buffer: a byte sequence with a read position.

use vstd::prelude::*;
use vstd::utf8::{decode_utf8, valid_utf8};
use crate::error::{reads_as, viewed, DecodeError, Decoded};
use crate::leb128::{
    accumulated, continues, lemma_accumulate, lemma_sign_extend, lemma_varint_end_skip, parse_i32,
    parse_u32, wrap_i32,
};

verus! {

/// The byte at `pos`.
pub open spec fn parse_byte(bytes: Seq<u8>, pos: int) -> Decoded<u8> {
    if 0 <= pos < bytes.len() {
        Ok((bytes[pos], pos + 1))
    } else {
        Err(DecodeError::BufferUnderrun)
    }
}

/// The `n` bytes from `pos` on.
pub open spec fn parse_bytes(bytes: Seq<u8>, pos: int, n: nat) -> Decoded<Seq<u8>> {
    if 0 <= pos && pos + n <= bytes.len() {
        Ok((bytes.subrange(pos, pos + n), pos + n))
    } else {
        Err(DecodeError::BufferUnderrun)
    }
}

/// The views of a sequence's items.
pub open spec fn views<T: View>(s: Seq<T>) -> Seq<T::V> {
    s.map_values(|t: T| t@)
}

/// The views of a returned vector's items, errors kept as they are.
pub open spec fn viewed_items<T: View>(r: Result<Vec<T>, DecodeError>) -> Result<
    Seq<T::V>,
    DecodeError,
> {
    match r {
        Ok(v) => Ok(views(v@)),
        Err(e) => Err(e),
    }
}

/// `n` values in a row from `pos` on, each as `one` decodes it: the first
/// `n - 1` of them, then one more. The first value that fails, fails the
/// row.
pub open spec fn parse_repeat<V>(
    one: spec_fn(Seq<u8>, int) -> Decoded<V>,
    bytes: Seq<u8>,
    pos: int,
    n: nat,
) -> Decoded<Seq<V>>
    decreases n,
{
    if n == 0 {
        Ok((Seq::empty(), pos))
    } else {
        match parse_repeat(one, bytes, pos, (n - 1) as nat) {
            Err(e) => Err(e),
            Ok((front, p)) => match one(bytes, p) {
                Err(e) => Err(e),
                Ok((v, q)) => Ok((front.push(v), q)),
            },
        }
    }
}

/// A length-prefixed sequence: an unsigned varint count, then that many
/// values.
pub open spec fn parse_vec<V>(
    one: spec_fn(Seq<u8>, int) -> Decoded<V>,
    bytes: Seq<u8>,
    pos: int,
) -> Decoded<Seq<V>> {
    match parse_u32(bytes, pos) {
        Err(e) => Err(e),
        Ok((n, p)) => parse_repeat(one, bytes, p, n as nat),
    }
}

/// A name: an unsigned varint byte length, then that many bytes, which have
/// to be UTF-8; the characters they encode.
pub open spec fn parse_name(bytes: Seq<u8>, pos: int) -> Decoded<Seq<char>> {
    match parse_u32(bytes, pos) {
        Err(e) => Err(e),
        Ok((n, p)) => match parse_bytes(bytes, p, n as nat) {
            Err(e) => Err(e),
            Ok((raw, q)) => if valid_utf8(raw) {
                Ok((decode_utf8(raw), q))
            } else {
                Err(DecodeError::InvalidUtf8)
            },
        },
    }
}

/// A row that has failed stays failed however many values are asked for.
pub proof fn lemma_repeat_fails<V>(
    one: spec_fn(Seq<u8>, int) -> Decoded<V>,
    bytes: Seq<u8>,
    pos: int,
    i: nat,
    n: nat,
)
    requires
        i <= n,
        parse_repeat(one, bytes, pos, i) is Err,
    ensures
        parse_repeat(one, bytes, pos, n) == parse_repeat(one, bytes, pos, i),
    decreases n,
{
    if i < n {
        lemma_repeat_fails(one, bytes, pos, i, (n - 1) as nat);
    }
}

/// Past the last byte every read fails with `BufferUnderrun`: a byte, one
/// byte or more, a varint, a name, a sequence.
pub proof fn lemma_underrun_at_end<V>(
    one: spec_fn(Seq<u8>, int) -> Decoded<V>,
    bytes: Seq<u8>,
    pos: int,
    n: nat,
)
    requires
        pos >= bytes.len(),
    ensures
        parse_byte(bytes, pos) == Err::<(u8, int), DecodeError>(DecodeError::BufferUnderrun),
        n > 0 ==> parse_bytes(bytes, pos, n) == Err::<(Seq<u8>, int), DecodeError>(
            DecodeError::BufferUnderrun,
        ),
        parse_u32(bytes, pos) == Err::<(u32, int), DecodeError>(DecodeError::BufferUnderrun),
        parse_i32(bytes, pos) == Err::<(i32, int), DecodeError>(DecodeError::BufferUnderrun),
        parse_name(bytes, pos) == Err::<(Seq<char>, int), DecodeError>(
            DecodeError::BufferUnderrun,
        ),
        parse_vec(one, bytes, pos) == Err::<(Seq<V>, int), DecodeError>(
            DecodeError::BufferUnderrun,
        ),
{
}

/// Bytes that end inside a varint fail it with `BufferUnderrun`: where every
/// byte from `pos` on has its high bit set, no varint ends.
pub proof fn lemma_underrun_in_varint(bytes: Seq<u8>, pos: int)
    requires
        forall|i: int| pos <= i < bytes.len() ==> continues(#[trigger] bytes[i]),
    ensures
        parse_u32(bytes, pos) == Err::<(u32, int), DecodeError>(DecodeError::BufferUnderrun),
        parse_i32(bytes, pos) == Err::<(i32, int), DecodeError>(DecodeError::BufferUnderrun),
    decreases bytes.len() - pos,
{
    if 0 <= pos < bytes.len() {
        lemma_underrun_in_varint(bytes, pos + 1);
    }
}

/// A byte sequence and a read offset into it. The offset never passes the
/// end of the bytes.
#[derive(Debug)]
pub struct Buffer {
    cursor: usize,
    buf: Vec<u8>,
}

impl Buffer {
    #[verifier::type_invariant]
    spec fn in_bounds(self) -> bool {
        self.cursor <= self.buf.len()
    }

    /// The bytes that the buffer owns.
    pub closed spec fn bytes(&self) -> Seq<u8> {
        self.buf@
    }

    /// The read offset.
    pub closed spec fn offset(&self) -> int {
        self.cursor as int
    }

    /// A buffer over `buf`, positioned at its start.
    pub fn new(buf: Vec<u8>) -> (b: Buffer)
        ensures
            b.bytes() == buf@,
            b.offset() == 0,
    {
        Buffer { cursor: 0, buf }
    }

    /// The number of bytes in the buffer, read or not.
    pub fn byte_len(&self) -> (n: u64)
        ensures
            n == self.bytes().len(),
    {
        self.buf.len() as u64
    }

    /// The read offset, to come back to with `reset`.
    pub(crate) fn position(&self) -> (p: usize)
        ensures
            p == self.offset(),
            p <= self.bytes().len(),
    {
        proof {
            use_type_invariant(self);
        }
        self.cursor
    }

    /// Moves the read offset to `position`.
    pub(crate) fn reset(&mut self, position: usize)
        requires
            position <= old(self).bytes().len(),
        ensures
            final(self).bytes() == old(self).bytes(),
            final(self).offset() == position,
    {
        self.cursor = position;
    }

    /// Whether every byte has been read.
    pub fn eof(&self) -> (b: bool)
        ensures
            b == (self.offset() == self.bytes().len()),
            self.offset() <= self.bytes().len(),
    {
        proof {
            use_type_invariant(self);
        }
        self.cursor >= self.buf.len()
    }

    /// Reads one byte.
    pub fn read_byte(&mut self) -> (r: Result<u8, DecodeError>)
        ensures
            final(self).bytes() == old(self).bytes(),
            reads_as(
                parse_byte(old(self).bytes(), old(self).offset()),
                old(self).offset(),
                r,
                final(self).offset(),
            ),
    {
        proof {
            use_type_invariant(&*self);
        }
        if self.cursor < self.buf.len() {
            let byte: u8 = self.buf[self.cursor];
            self.cursor = self.cursor + 1;
            Ok(byte)
        } else {
            Err(DecodeError::BufferUnderrun)
        }
    }

    /// Reads `size` bytes, none if fewer are left.
    pub fn read_bytes(&mut self, size: u32) -> (r: Result<Vec<u8>, DecodeError>)
        ensures
            final(self).bytes() == old(self).bytes(),
            reads_as(
                parse_bytes(old(self).bytes(), old(self).offset(), size as nat),
                old(self).offset(),
                viewed(r),
                final(self).offset(),
            ),
    {
        proof {
            use_type_invariant(&*self);
        }
        let left: usize = self.buf.len() - self.cursor;
        if left < size as usize {
            return Err(DecodeError::BufferUnderrun);
        }
        let end: usize = self.cursor + size as usize;
        let mut slice: Vec<u8> = Vec::new();
        let mut at: usize = self.cursor;
        while at < end
            invariant
                self.cursor <= at <= end <= self.buf.len(),
                slice@ == self.buf@.subrange(self.cursor as int, at as int),
            decreases end - at,
        {
            slice.push(self.buf[at]);
            at = at + 1;
        }
        self.cursor = end;
        Ok(slice)
    }

    /// Reads `size` bytes into a buffer of their own, positioned at its
    /// start.
    pub fn read_buffer(&mut self, size: u32) -> (r: Result<Buffer, DecodeError>)
        ensures
            final(self).bytes() == old(self).bytes(),
            match parse_bytes(old(self).bytes(), old(self).offset(), size as nat) {
                Ok((region, end)) => r matches Ok(sub) && sub.bytes() == region && sub.offset() == 0
                    && final(self).offset() == end,
                Err(e) => r matches Err(err) && err == e && final(self).offset() == old(self).offset(),
            },
    {
        match self.read_bytes(size) {
            Ok(buf_slice) => Ok(Buffer::new(buf_slice)),
            Err(e) => Err(e),
        }
    }

    /// Reads an unsigned 32-bit LEB128 integer.
    pub fn read_u32(&mut self) -> (r: Result<u32, DecodeError>)
        ensures
            final(self).bytes() == old(self).bytes(),
            reads_as(
                parse_u32(old(self).bytes(), old(self).offset()),
                old(self).offset(),
                r,
                final(self).offset(),
            ),
    {
        proof {
            use_type_invariant(&*self);
        }
        let mark: usize = self.cursor;
        let ghost bytes = self.bytes();
        let mut result: u32 = 0;
        let mut shift: u32 = 0;
        loop
            invariant
                self.bytes() == bytes,
                bytes == old(self).bytes(),
                mark == old(self).offset(),
                mark <= self.offset() <= bytes.len(),
                forall|i: int| mark <= i < self.offset() ==> continues(#[trigger] bytes[i]),
                accumulated(bytes, mark as int, (self.offset() - mark) as nat, result, shift),
            decreases bytes.len() - self.offset(),
        {
            let ghost n = (self.offset() - mark) as nat;
            proof {
                lemma_varint_end_skip(bytes, mark as int, self.offset());
            }
            let byte: u8 = match self.read_byte() {
                Ok(b) => b,
                Err(e) => {
                    self.cursor = mark;
                    return Err(e);
                },
            };
            proof {
                lemma_accumulate(bytes, mark as int, n, result, shift, byte);
            }
            if shift < 32 {
                result = result | (((byte & 0x7f) as u32) << shift);
                shift = shift + 7;
            }
            if byte & 0x80 == 0 {
                proof {
                    assert(byte & 0x80 == 0 <==> byte < 128) by (bit_vector);
                }
                return Ok(result);
            }
            proof {
                assert(byte & 0x80 == 0 <==> byte < 128) by (bit_vector);
            }
        }
    }

    /// Reads a signed 32-bit LEB128 integer.
    pub fn read_i32(&mut self) -> (r: Result<i32, DecodeError>)
        ensures
            final(self).bytes() == old(self).bytes(),
            reads_as(
                parse_i32(old(self).bytes(), old(self).offset()),
                old(self).offset(),
                r,
                final(self).offset(),
            ),
    {
        proof {
            use_type_invariant(&*self);
        }
        let mark: usize = self.cursor;
        let ghost bytes = self.bytes();
        let mut result: u32 = 0;
        let mut shift: u32 = 0;
        loop
            invariant
                self.bytes() == bytes,
                bytes == old(self).bytes(),
                mark == old(self).offset(),
                mark <= self.offset() <= bytes.len(),
                forall|i: int| mark <= i < self.offset() ==> continues(#[trigger] bytes[i]),
                accumulated(bytes, mark as int, (self.offset() - mark) as nat, result, shift),
            decreases bytes.len() - self.offset(),
        {
            let ghost n = (self.offset() - mark) as nat;
            proof {
                lemma_varint_end_skip(bytes, mark as int, self.offset());
            }
            let byte: u8 = match self.read_byte() {
                Ok(b) => b,
                Err(e) => {
                    self.cursor = mark;
                    return Err(e);
                },
            };
            proof {
                lemma_accumulate(bytes, mark as int, n, result, shift, byte);
                assert(byte & 0x80 == 0 <==> byte < 128) by (bit_vector);
                assert(byte & 0x40 != 0 <==> byte % 128 >= 64) by (bit_vector);
            }
            if shift < 32 {
                result = result | (((byte & 0x7f) as u32) << shift);
                shift = shift + 7;
            }
            if byte & 0x80 == 0 {
                // sign extend negative numbers
                if shift < 32 && (byte & 0x40) != 0 {
                    proof {
                        lemma_sign_extend(bytes, mark as int, n + 1, result, shift);
                    }
                    result = result | (0xffff_ffffu32 << shift);
                }
                return Ok(as_signed(result));
            }
        }
    }

    /// Reads a length-prefixed sequence: an unsigned varint count, then that
    /// many values, each read by `f`. The first value that fails, fails the
    /// read.
    ///
    /// Whatever `f` does, a count that cannot be read fails the read and
    /// leaves the buffer as it was, and a read that succeeds returns as many
    /// values as the count says. The rest is stated for every decoder `one`
    /// of the grammar that `f` implements, that is, for which each call of
    /// `f` reads as `one` says and leaves the bytes alone: the read then is
    /// the length-prefixed sequence of `one`, and a failure leaves the
    /// buffer as it was.
    pub fn read_vec<T: View, F: Fn(&mut Buffer) -> Result<T, DecodeError>>(&mut self, f: F) -> (r:
        Result<Vec<T>, DecodeError>)
        requires
            forall|b: &mut Buffer| call_requires(f, (b,)),
        ensures
            match parse_u32(old(self).bytes(), old(self).offset()) {
                Ok((count, _)) => r matches Ok(items) ==> items.len() == count,
                Err(e) => r matches Err(err) && err == e && final(self).bytes() == old(self).bytes()
                    && final(self).offset() == old(self).offset(),
            },
            forall|one: spec_fn(Seq<u8>, int) -> Decoded<T::V>|
                (forall|b: &mut Buffer, x: Result<T, DecodeError>| #[trigger]
                    call_ensures(f, (b,), x) ==> final(b).bytes() == b.bytes() && reads_as(
                        one(b.bytes(), b.offset()),
                        b.offset(),
                        viewed(x),
                        final(b).offset(),
                    )) ==> final(self).bytes() == old(self).bytes() && reads_as(
                    #[trigger] parse_vec(one, old(self).bytes(), old(self).offset()),
                    old(self).offset(),
                    viewed_items(r),
                    final(self).offset(),
                ),
    {
        let mark: usize = self.cursor;
        let ghost bytes = self.bytes();
        let mut vec: Vec<T> = Vec::new();
        let size: u32 = match self.read_u32() {
            Ok(n) => n,
            Err(e) => {
                return Err(e);
            },
        };
        let ghost first = self.offset();
        let mut i: u32 = 0;
        proof {
            assert(views(vec@) =~= Seq::<T::V>::empty());
        }
        while i < size
            invariant
                i <= size,
                vec.len() == i,
                bytes == old(self).bytes(),
                mark == old(self).offset(),
                mark <= bytes.len(),
                parse_u32(bytes, mark as int) == Ok::<(u32, int), DecodeError>((size, first)),
                forall|b: &mut Buffer| call_requires(f, (b,)),
                forall|one: spec_fn(Seq<u8>, int) -> Decoded<T::V>|
                    (forall|b: &mut Buffer, x: Result<T, DecodeError>| #[trigger]
                        call_ensures(f, (b,), x) ==> final(b).bytes() == b.bytes() && reads_as(
                            one(b.bytes(), b.offset()),
                            b.offset(),
                            viewed(x),
                            final(b).offset(),
                        )) ==> self.bytes() == bytes && #[trigger] parse_repeat(
                        one,
                        bytes,
                        first,
                        i as nat,
                    ) == Ok::<(Seq<T::V>, int), DecodeError>((views(vec@), self.offset())),
            decreases size - i,
        {
            let ghost before = views(vec@);
            let ghost here = self.offset();
            match f(self) {
                Ok(x) => {
                    vec.push(x);
                    proof {
                        assert(views(vec@) =~= before.push(x@));
                        assert forall|one: spec_fn(Seq<u8>, int) -> Decoded<T::V>|
                            (forall|b: &mut Buffer, x: Result<T, DecodeError>| #[trigger]
                                call_ensures(f, (b,), x) ==> final(b).bytes() == b.bytes()
                                    && reads_as(
                                    one(b.bytes(), b.offset()),
                                    b.offset(),
                                    viewed(x),
                                    final(b).offset(),
                                )) implies self.bytes() == bytes && #[trigger] parse_repeat(
                            one,
                            bytes,
                            first,
                            (i + 1) as nat,
                        ) == Ok::<(Seq<T::V>, int), DecodeError>((views(vec@), self.offset())) by {
                            assert(parse_repeat(one, bytes, first, i as nat) == Ok::<
                                (Seq<T::V>, int),
                                DecodeError,
                            >((before, here)));
                        }
                    }
                },
                Err(e) => {
                    // `f` may have put another buffer in this one's place
                    if mark <= self.buf.len() {
                        self.cursor = mark;
                    }
                    proof {
                        assert forall|one: spec_fn(Seq<u8>, int) -> Decoded<T::V>|
                            (forall|b: &mut Buffer, x: Result<T, DecodeError>| #[trigger]
                                call_ensures(f, (b,), x) ==> final(b).bytes() == b.bytes()
                                    && reads_as(
                                    one(b.bytes(), b.offset()),
                                    b.offset(),
                                    viewed(x),
                                    final(b).offset(),
                                )) implies self.bytes() == bytes && #[trigger] parse_vec(
                            one,
                            bytes,
                            mark as int,
                        ) == Err::<(Seq<T::V>, int), DecodeError>(e) && self.offset() == mark by {
                            assert(parse_repeat(one, bytes, first, i as nat) is Ok);
                            lemma_repeat_fails(one, bytes, first, (i + 1) as nat, size as nat);
                        }
                    }
                    return Err(e);
                },
            }
            i = i + 1;
        }
        Ok(vec)
    }

    /// Reads a name: its byte length, then the bytes, as a UTF-8 string.
    pub fn read_name(&mut self) -> (r: Result<String, DecodeError>)
        ensures
            final(self).bytes() == old(self).bytes(),
            reads_as(
                parse_name(old(self).bytes(), old(self).offset()),
                old(self).offset(),
                viewed(r),
                final(self).offset(),
            ),
    {
        proof {
            use_type_invariant(&*self);
        }
        let mark: usize = self.cursor;
        let size: u32 = self.read_u32()?;
        let bytes: Vec<u8> = match self.read_bytes(size) {
            Ok(b) => b,
            Err(e) => {
                self.cursor = mark;
                return Err(e);
            },
        };
        match string_from_utf8(bytes) {
            Some(name) => Ok(name),
            None => {
                self.cursor = mark;
                Err(DecodeError::InvalidUtf8)
            },
        }
    }
}

/// `String::from_utf8` of std: it gives the string exactly when the bytes
/// are valid UTF-8, and the string then holds the characters that the bytes
/// encode.
#[verifier::external_body]
fn string_from_utf8(bytes: Vec<u8>) -> (r: Option<String>)
    ensures
        r is Some <==> valid_utf8(bytes@),
        r matches Some(s) ==> s@ == decode_utf8(bytes@),
{
    match String::from_utf8(bytes) {
        Ok(s) => Some(s),
        Err(_) => None,
    }
}

/// The 32 bits of `x` read as two's complement.
fn as_signed(x: u32) -> (r: i32)
    ensures
        r == wrap_i32(x as nat),
{
    if x < 0x8000_0000 {
        x as i32
    } else {
        ((x - 0x8000_0000) as i32) - 0x7fff_ffff - 1
    }
}

} // verus!


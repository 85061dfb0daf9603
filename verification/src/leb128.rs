//! LEB128: integers written as groups of seven bits, least significant group
//! first, each byte's high bit saying whether another group follows.
//!
//! The decoded value is defined arithmetically, as the sum of the groups'
//! payloads weighted by powers of 128 and reduced to 32 bits. The buffer's
//! readers compute it with shifts and are proved against this definition.

use vstd::prelude::*;
use vstd::arithmetic::div_mod::{lemma_fundamental_div_mod, lemma_mod_multiples_vanish, lemma_small_mod};
use crate::error::{DecodeError, Decoded};

verus! {

/// The seven payload bits of a group.
pub open spec fn payload(b: u8) -> nat {
    (b % 128) as nat
}

/// Whether the group is followed by another one.
pub open spec fn continues(b: u8) -> bool {
    b >= 128
}

/// 128 to the power `n`: the weight of group `n`.
pub open spec fn pow128(n: nat) -> nat
    decreases n,
{
    if n == 0 {
        1
    } else {
        128 * pow128((n - 1) as nat)
    }
}

/// The position just behind the varint that starts at `pos`: behind the
/// first byte from `pos` on whose high bit is clear. `None` if the bytes end
/// before such a byte.
pub open spec fn varint_end(bytes: Seq<u8>, pos: int) -> Option<int>
    decreases bytes.len() - pos,
{
    if pos < 0 || pos >= bytes.len() {
        None
    } else if !continues(bytes[pos]) {
        Some(pos + 1)
    } else {
        varint_end(bytes, pos + 1)
    }
}

/// The sum of the first `n` groups from `pos` on, group `i` weighted by
/// `128^i`. Unbounded: no bits are lost here.
pub open spec fn varint_sum(bytes: Seq<u8>, pos: int, n: nat) -> nat
    decreases n,
{
    if n == 0 {
        0
    } else {
        varint_sum(bytes, pos, (n - 1) as nat) + payload(bytes[pos + n - 1]) * pow128((n - 1) as nat)
    }
}

/// A natural number read as a 32-bit two's complement integer.
pub open spec fn wrap_i32(x: nat) -> int {
    let m = x % 0x1_0000_0000;
    if m >= 0x8000_0000 {
        m - 0x1_0000_0000
    } else {
        m as int
    }
}

/// The unsigned 32-bit varint at `pos`: the sum of its groups, of which the
/// low 32 bits are kept. Fails where the bytes end inside the varint.
pub open spec fn parse_u32(bytes: Seq<u8>, pos: int) -> Decoded<u32> {
    match varint_end(bytes, pos) {
        None => Err(DecodeError::BufferUnderrun),
        Some(end) => Ok(((varint_sum(bytes, pos, (end - pos) as nat) % 0x1_0000_0000) as u32, end)),
    }
}

/// The signed 32-bit varint at `pos`. A varint of fewer than five groups
/// (fewer than 32 bits) whose last group has bit `0x40` set is negative: the
/// sum of its groups less `128^n`. Any other is the sum's low 32 bits read
/// as two's complement.
pub open spec fn parse_i32(bytes: Seq<u8>, pos: int) -> Decoded<i32> {
    match varint_end(bytes, pos) {
        None => Err(DecodeError::BufferUnderrun),
        Some(end) => {
            let n = (end - pos) as nat;
            let sum = varint_sum(bytes, pos, n);
            if n < 5 && payload(bytes[end - 1]) >= 64 {
                Ok(((sum - pow128(n)) as i32, end))
            } else {
                Ok((wrap_i32(sum) as i32, end))
            }
        },
    }
}

/// The LEB128 encoding of `u` with the fewest groups.
pub open spec fn encode_u32(u: u32) -> Seq<u8>
    decreases u,
{
    if u < 128 {
        seq![u as u8]
    } else {
        seq![(u % 128 + 128) as u8] + encode_u32(u / 128)
    }
}

/// The first powers of 128.
pub proof fn lemma_pow128_values()
    ensures
        pow128(0) == 1,
        pow128(1) == 0x80,
        pow128(2) == 0x4000,
        pow128(3) == 0x20_0000,
        pow128(4) == 0x1000_0000,
        pow128(5) == 0x8_0000_0000,
{
    reveal_with_fuel(pow128, 6);
}

/// From the fifth group on a group's weight is a multiple of `2^32`.
pub proof fn lemma_pow128_high(n: nat)
    requires
        n >= 5,
    ensures
        pow128(n) % 0x1_0000_0000 == 0,
    decreases n,
{
    if n == 5 {
        lemma_pow128_values();
    } else {
        lemma_pow128_high((n - 1) as nat);
        let p = pow128((n - 1) as nat) as int;
        lemma_fundamental_div_mod(p, 0x1_0000_0000);
        let q = p / 0x1_0000_0000;
        assert(128 * p == 0x1_0000_0000 * (128 * q) + 0) by (nonlinear_arith)
            requires
                p == 0x1_0000_0000 * q,
        ;
        lemma_mod_multiples_vanish(128 * q, 0, 0x1_0000_0000);
    }
}

/// The sum of `n` groups stays below `128^n`.
pub proof fn lemma_varint_sum_bound(bytes: Seq<u8>, pos: int, n: nat)
    ensures
        varint_sum(bytes, pos, n) < pow128(n),
    decreases n,
{
    if n > 0 {
        let m = (n - 1) as nat;
        lemma_varint_sum_bound(bytes, pos, m);
        let p = payload(bytes[pos + n - 1]);
        assert(p * pow128(m) <= 127 * pow128(m)) by (nonlinear_arith)
            requires
                p <= 127,
        ;
    }
}

/// Adding a group from the fifth on leaves the low 32 bits of the sum as
/// they are.
pub proof fn lemma_high_group_vanishes(sum: nat, p: nat, n: nat)
    requires
        n >= 5,
    ensures
        (sum + p * pow128(n)) % 0x1_0000_0000 == sum % 0x1_0000_0000,
{
    lemma_pow128_high(n);
    let w = pow128(n) as int;
    lemma_fundamental_div_mod(w, 0x1_0000_0000);
    let q = w / 0x1_0000_0000;
    assert(p * w == 0x1_0000_0000 * (p * q)) by (nonlinear_arith)
        requires
            w == 0x1_0000_0000 * q,
    ;
    lemma_mod_multiples_vanish(p * q, sum as int, 0x1_0000_0000);
}

/// A varint ends inside the bytes, behind at least one byte, and every byte
/// before its last has the high bit set.
pub proof fn lemma_varint_end(bytes: Seq<u8>, pos: int)
    ensures
        varint_end(bytes, pos) matches Some(end) ==> {
            &&& 0 <= pos < end <= bytes.len()
            &&& !continues(bytes[end - 1])
            &&& forall|i: int| pos <= i < end - 1 ==> continues(#[trigger] bytes[i])
        },
    decreases bytes.len() - pos,
{
    if 0 <= pos < bytes.len() && continues(bytes[pos]) {
        lemma_varint_end(bytes, pos + 1);
    }
}

/// Skipping bytes whose high bit is set does not change where the varint
/// ends.
pub proof fn lemma_varint_end_skip(bytes: Seq<u8>, pos: int, at: int)
    requires
        0 <= pos <= at <= bytes.len(),
        forall|i: int| pos <= i < at ==> continues(#[trigger] bytes[i]),
    ensures
        varint_end(bytes, pos) == varint_end(bytes, at),
    decreases at - pos,
{
    if pos < at {
        lemma_varint_end_skip(bytes, pos + 1, at);
    }
}

/// What the varint readers hold after `n` groups: the low 32 bits of the
/// groups' sum, and the shift for the next group, which stops growing once
/// it has left the 32 bits.
pub open spec fn accumulated(bytes: Seq<u8>, pos: int, n: nat, result: u32, shift: u32) -> bool {
    &&& result == varint_sum(bytes, pos, n) % 0x1_0000_0000
    &&& if n < 5 {
        shift == 7 * n
    } else {
        shift == 35
    }
}

/// Sign extension: setting every bit from the varint's width upwards takes
/// `128^n` off the value.
pub proof fn lemma_sign_extend(bytes: Seq<u8>, pos: int, n: nat, result: u32, shift: u32)
    requires
        1 <= n < 5,
        accumulated(bytes, pos, n, result, shift),
    ensures
        wrap_i32((result | (0xffff_ffffu32 << shift)) as nat) == varint_sum(bytes, pos, n)
            - pow128(n),
{
    let sum = varint_sum(bytes, pos, n);
    lemma_pow128_values();
    lemma_varint_sum_bound(bytes, pos, n);
    assert(sum < 0x1_0000_0000) by {
        reveal_with_fuel(pow128, 6);
    }
    lemma_small_mod(sum, 0x1_0000_0000);
    if n == 1 {
        assert(result | (0xffff_ffffu32 << 7u32) == result + 0xffff_ff80) by (bit_vector)
            requires
                result < 0x80,
        ;
    } else if n == 2 {
        assert(result | (0xffff_ffffu32 << 14u32) == result + 0xffff_c000) by (bit_vector)
            requires
                result < 0x4000,
        ;
    } else if n == 3 {
        assert(result | (0xffff_ffffu32 << 21u32) == result + 0xffe0_0000) by (bit_vector)
            requires
                result < 0x20_0000,
        ;
    } else {
        assert(result | (0xffff_ffffu32 << 28u32) == result + 0xf000_0000) by (bit_vector)
            requires
                result < 0x1000_0000,
        ;
    }
}

/// One more group: or-ing its payload in at the current shift adds the
/// group to the sum, as far as the 32 bits hold it.
pub proof fn lemma_accumulate(bytes: Seq<u8>, pos: int, n: nat, result: u32, shift: u32, byte: u8)
    requires
        accumulated(bytes, pos, n, result, shift),
        byte == bytes[pos + n],
    ensures
        shift < 32 ==> accumulated(
            bytes,
            pos,
            n + 1,
            result | (((byte & 0x7f) as u32) << shift),
            (shift + 7) as u32,
        ),
        shift >= 32 ==> accumulated(bytes, pos, n + 1, result, shift),
{
    let sum = varint_sum(bytes, pos, n);
    let p = (byte & 0x7f) as u32;
    assert(byte & 0x7f == byte % 128) by (bit_vector);
    assert(p == payload(byte));
    lemma_pow128_values();
    lemma_varint_sum_bound(bytes, pos, n);
    assert(varint_sum(bytes, pos, n + 1) == sum + payload(byte) * pow128(n));
    if n < 5 {
        assert(sum < 0x1_0000_0000) by {
            reveal_with_fuel(pow128, 6);
        }
        lemma_small_mod(sum, 0x1_0000_0000);
        assert(result == sum);
        if n == 0 {
            assert(pow128(n) == 1);
            assert(result | (p << 0u32) == result + p * 1) by (bit_vector)
                requires
                    result < 1,
                    p < 128,
            ;
        } else if n == 1 {
            assert(pow128(n) == 0x80);
            assert(result | (p << 7u32) == result + p * 0x80) by (bit_vector)
                requires
                    result < 0x80,
                    p < 128,
            ;
        } else if n == 2 {
            assert(pow128(n) == 0x4000);
            assert(result | (p << 14u32) == result + p * 0x4000) by (bit_vector)
                requires
                    result < 0x4000,
                    p < 128,
            ;
        } else if n == 3 {
            assert(pow128(n) == 0x20_0000);
            assert(result | (p << 21u32) == result + p * 0x20_0000) by (bit_vector)
                requires
                    result < 0x20_0000,
                    p < 128,
            ;
        } else {
            assert(pow128(n) == 0x1000_0000);
            assert(result | (p << 28u32) == (result + p * 0x1000_0000) % 0x1_0000_0000)
                by (bit_vector)
                requires
                    result < 0x1000_0000,
                    p < 128,
            ;
        }
        if n < 4 {
            assert(sum + payload(byte) * pow128(n) < 0x1_0000_0000) by {
                lemma_varint_sum_bound(bytes, pos, n + 1);
                reveal_with_fuel(pow128, 6);
            }
            lemma_small_mod(sum + payload(byte) * pow128(n), 0x1_0000_0000);
        }
    } else {
        lemma_high_group_vanishes(sum, payload(byte), n);
    }
}

/// The sum of the groups taken from the front: the first payload, and 128
/// times the sum of the groups behind it.
pub proof fn lemma_varint_sum_front(bytes: Seq<u8>, pos: int, n: nat)
    ensures
        varint_sum(bytes, pos, n + 1) == payload(bytes[pos]) + 128 * varint_sum(bytes, pos + 1, n),
    decreases n,
{
    if n == 0 {
        let first = payload(bytes[pos]);
        assert(varint_sum(bytes, pos, 0) == 0);
        assert(varint_sum(bytes, pos + 1, 0) == 0);
        assert(varint_sum(bytes, pos, 1) == varint_sum(bytes, pos, 0) + first * pow128(0));
        assert(first * pow128(0) == first) by (nonlinear_arith)
            requires
                pow128(0) == 1,
        ;
    } else {
        let m = (n - 1) as nat;
        lemma_varint_sum_front(bytes, pos, m);
        let last = payload(bytes[pos + n]);
        assert(varint_sum(bytes, pos + 1, n) == varint_sum(bytes, pos + 1, m) + last * pow128(m));
        assert(varint_sum(bytes, pos, n + 1) == varint_sum(bytes, pos, n) + last * pow128(n));
        assert(128 * (last * pow128(m)) == last * pow128(n)) by (nonlinear_arith)
            requires
                pow128(n) == 128 * pow128(m),
        ;
    }
}

/// Where the encoding of `u` stands in `bytes` at `pos`, a varint of as many
/// groups as the encoding has bytes stands there, and its groups sum to `u`.
pub proof fn lemma_encoding_decodes(u: u32, bytes: Seq<u8>, pos: int)
    requires
        0 <= pos,
        pos + encode_u32(u).len() <= bytes.len(),
        forall|i: int| 0 <= i < encode_u32(u).len() ==> bytes[pos + i] == #[trigger] encode_u32(u)[i],
    ensures
        encode_u32(u).len() >= 1,
        varint_end(bytes, pos) == Some(pos + encode_u32(u).len()),
        varint_sum(bytes, pos, encode_u32(u).len()) == u,
    decreases u,
{
    let code = encode_u32(u);
    if u < 128 {
        assert(code.len() == 1);
        assert(bytes[pos] == code[0]);
        lemma_varint_sum_front(bytes, pos, 0);
        assert(varint_sum(bytes, pos + 1, 0) == 0);
    } else {
        let rest = encode_u32(u / 128);
        assert(code == seq![(u % 128 + 128) as u8] + rest);
        assert(bytes[pos] == code[0]);
        assert forall|i: int| 0 <= i < rest.len() implies bytes[pos + 1 + i] == #[trigger] rest[i] by {
            assert(code[i + 1] == rest[i]);
        }
        lemma_encoding_decodes(u / 128, bytes, pos + 1);
        lemma_varint_sum_front(bytes, pos, rest.len());
        assert(code.len() == rest.len() + 1);
    }
}

/// Round trip: decoding the encoding of any `u` gives `u` back, and takes
/// the whole encoding.
pub proof fn lemma_u32_round_trip(u: u32)
    ensures
        parse_u32(encode_u32(u), 0) == Ok::<(u32, int), DecodeError>(
            (u, encode_u32(u).len() as int),
        ),
{
    lemma_encoding_decodes(u, encode_u32(u), 0);
    lemma_small_mod(u as nat, 0x1_0000_0000);
}

/// Round trip within other bytes: wherever the encoding of `u` stands,
/// decoding there gives `u` back and ends behind the encoding.
pub proof fn lemma_u32_round_trip_within(u: u32, before: Seq<u8>, after: Seq<u8>)
    ensures
        parse_u32(before + encode_u32(u) + after, before.len() as int) == Ok::<
            (u32, int),
            DecodeError,
        >((u, (before.len() + encode_u32(u).len()) as int)),
{
    lemma_encoding_decodes(u, before + encode_u32(u) + after, before.len() as int);
    lemma_small_mod(u as nat, 0x1_0000_0000);
}

} // verus!

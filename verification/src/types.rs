//! Primitive field decoders for the wire format: fixed-length little-endian
//! integers, length-encoded integers, fixed-length text, and
//! remainder-of-buffer text. Each decoder reports the decoded value together
//! with the number of bytes consumed, and never reads past the end of the
//! buffer: a read that would do so fails with `TruncatedField` instead.

use vstd::prelude::*;
use vstd::utf8::{decode_utf8, valid_utf8};

verus! {

/// Failure of a semantic or primitive decoder.
/// - `TruncatedField`: a field extends past the end of the buffer.
/// - `InvalidEncoding`: text bytes are not valid UTF-8.
/// - `TypeMismatch`: a packet of the wrong type was handed to a decoder.
/// - `MalformedPacket`: the body does not follow the layout its type demands.
#[derive(Clone, Copy, PartialEq, Eq, Structural, Debug)]
pub enum DecodeError {
    TruncatedField,
    InvalidEncoding,
    TypeMismatch,
    MalformedPacket,
}

/// A decoded length-encoded integer: either a value or the NULL sentinel
/// (first byte 0xFB), which carries no value.
#[derive(Clone, Copy, PartialEq, Eq, Structural, Debug)]
pub enum LenEncInt {
    Value(u64),
    Null,
}

/// The unsigned value of a byte sequence read little-endian: the first byte
/// is least significant.
pub open spec fn le_bytes_value(s: Seq<u8>) -> nat
    decreases s.len(),
{
    if s.len() == 0 {
        0
    } else {
        s[0] as nat + 0x100 * le_bytes_value(s.subrange(1, s.len() as int))
    }
}

/// 256 to the power `n`: the number of values `n` bytes can take.
pub open spec fn pow256(n: nat) -> nat
    decreases n,
{
    if n == 0 {
        1
    } else {
        0x100 * pow256((n - 1) as nat)
    }
}

pub proof fn lemma_pow256_increases(a: nat, b: nat)
    requires
        a <= b,
    ensures
        pow256(a) <= pow256(b),
    decreases b,
{
    if a < b {
        lemma_pow256_increases(a, (b - 1) as nat);
        assert(pow256(b) == 0x100 * pow256((b - 1) as nat));
    }
}

/// A value read from `s.len()` bytes is below 256^len.
pub proof fn lemma_le_bytes_value_bound(s: Seq<u8>)
    ensures
        le_bytes_value(s) < pow256(s.len()),
    decreases s.len(),
{
    if s.len() > 0 {
        let tail = s.subrange(1, s.len() as int);
        lemma_le_bytes_value_bound(tail);
        assert(pow256(s.len()) == 0x100 * pow256((s.len() - 1) as nat));
    }
}

proof fn lemma_pow256_8_fits()
    ensures
        pow256(7) == 0x100000000000000,
        pow256(8) == 0x10000000000000000,
{
    reveal_with_fuel(pow256, 9);
}

/// A value read from two bytes fits in 16 bits.
pub proof fn lemma_two_byte_value_bound(s: Seq<u8>)
    requires
        s.len() == 2,
    ensures
        le_bytes_value(s) < 0x10000,
{
    lemma_le_bytes_value_bound(s);
    assert(pow256(0) == 1);
    assert(pow256(1) == 0x100);
    assert(pow256(2) == 0x10000);
}

/// Reads `n` bytes little-endian starting at `offset`.
fn read_le(buf: &[u8], offset: usize, n: usize) -> (v: u64)
    requires
        n <= 8,
        offset + n <= buf@.len(),
    ensures
        v == le_bytes_value(buf@.subrange(offset as int, offset + n)),
{
    let len: usize = buf.len();
    let mut acc: u64 = 0;
    let mut j: usize = n;
    proof {
        assert(buf@.subrange(offset + n, offset + n).len() == 0);
    }
    while j > 0
        invariant
            j <= n <= 8,
            offset + n <= len == buf@.len(),
            acc == le_bytes_value(buf@.subrange(offset + j, offset + n)),
            acc < pow256((n - j) as nat),
        decreases j,
    {
        j = j - 1;
        let b = buf[offset + j];
        proof {
            let cur = buf@.subrange(offset + j, offset + n);
            let tail = buf@.subrange(offset + j + 1, offset + n);
            assert(cur.subrange(1, cur.len() as int) =~= tail);
            assert(le_bytes_value(cur) == cur[0] as nat + 0x100 * le_bytes_value(tail));
            assert(cur[0] == buf@[offset + j]);
            lemma_pow256_increases((n - j - 1) as nat, 7);
            lemma_pow256_8_fits();
            assert(pow256((n - j) as nat) == 0x100 * pow256((n - j - 1) as nat));
        }
        acc = b as u64 + 0x100 * acc;
    }
    acc
}

/// Decodes a fixed-length little-endian integer of `n` bytes at `offset`.
/// Consumes exactly `n` bytes; fails `TruncatedField` when fewer remain.
pub fn int_fixed_len(buf: &[u8], offset: usize, n: usize) -> (r: Result<(u64, usize), DecodeError>)
    requires
        n <= 8,
    ensures
        offset + n <= buf@.len() ==> r == Ok::<(u64, usize), DecodeError>(
            (le_bytes_value(buf@.subrange(offset as int, offset + n)) as u64, n),
        ),
        offset + n > buf@.len() ==> r == Err::<(u64, usize), DecodeError>(
            DecodeError::TruncatedField,
        ),
{
    if n > buf.len() || offset > buf.len() - n {
        return Err(DecodeError::TruncatedField);
    }
    let v = read_le(buf, offset, n);
    proof {
        let s = buf@.subrange(offset as int, offset + n);
        assert(le_bytes_value(s) as u64 == v);
    }
    Ok((v, n))
}

/// What decoding a length-encoded integer at `offset` yields: the marker
/// byte selects a direct value (below 0xFB), the NULL sentinel (0xFB), or a
/// little-endian value of 2, 3 or 8 further bytes (0xFC, 0xFD, 0xFE). The
/// marker 0xFF begins no length-encoded integer.
pub open spec fn spec_int_len_enc(buf: Seq<u8>, offset: int) -> Result<
    (LenEncInt, int),
    DecodeError,
> {
    if !(0 <= offset < buf.len()) {
        Err(DecodeError::TruncatedField)
    } else {
        let b = buf[offset];
        if b < 0xFB {
            Ok((LenEncInt::Value(b as u64), 1))
        } else if b == 0xFB {
            Ok((LenEncInt::Null, 1))
        } else if b == 0xFC {
            if offset + 3 <= buf.len() {
                Ok(
                    (
                        LenEncInt::Value(le_bytes_value(buf.subrange(offset + 1, offset + 3)) as u64),
                        3,
                    ),
                )
            } else {
                Err(DecodeError::TruncatedField)
            }
        } else if b == 0xFD {
            if offset + 4 <= buf.len() {
                Ok(
                    (
                        LenEncInt::Value(le_bytes_value(buf.subrange(offset + 1, offset + 4)) as u64),
                        4,
                    ),
                )
            } else {
                Err(DecodeError::TruncatedField)
            }
        } else if b == 0xFE {
            if offset + 9 <= buf.len() {
                Ok(
                    (
                        LenEncInt::Value(le_bytes_value(buf.subrange(offset + 1, offset + 9)) as u64),
                        9,
                    ),
                )
            } else {
                Err(DecodeError::TruncatedField)
            }
        } else {
            Err(DecodeError::MalformedPacket)
        }
    }
}

/// Decodes a length-encoded integer at `offset`, returning the value and
/// the bytes consumed, exactly as `spec_int_len_enc` lays it out.
pub fn int_len_enc(buf: &[u8], offset: usize) -> (r: Result<(LenEncInt, usize), DecodeError>)
    ensures
        ({
            let s = spec_int_len_enc(buf@, offset as int);
            match r {
                Ok((v, c)) => s == Ok::<(LenEncInt, int), DecodeError>((v, c as int)),
                Err(e) => s == Err::<(LenEncInt, int), DecodeError>(e),
            }
        }),
{
    if offset >= buf.len() {
        return Err(DecodeError::TruncatedField);
    }
    let b = buf[offset];
    if b < 0xFB {
        Ok((LenEncInt::Value(b as u64), 1))
    } else if b == 0xFB {
        Ok((LenEncInt::Null, 1))
    } else if b == 0xFC {
        match int_fixed_len(buf, offset + 1, 2) {
            Ok((v, _)) => Ok((LenEncInt::Value(v), 3)),
            Err(e) => Err(e),
        }
    } else if b == 0xFD {
        match int_fixed_len(buf, offset + 1, 3) {
            Ok((v, _)) => Ok((LenEncInt::Value(v), 4)),
            Err(e) => Err(e),
        }
    } else if b == 0xFE {
        match int_fixed_len(buf, offset + 1, 8) {
            Ok((v, _)) => Ok((LenEncInt::Value(v), 9)),
            Err(e) => Err(e),
        }
    } else {
        Err(DecodeError::MalformedPacket)
    }
}

/// Relies on `String::from_utf8`: it succeeds exactly on valid UTF-8 input,
/// and the returned string holds the characters those bytes encode.
#[verifier::external_body]
fn utf8_to_string(bytes: Vec<u8>) -> (r: Option<String>)
    ensures
        r is Some <==> valid_utf8(bytes@),
        r matches Some(s) ==> s@ == decode_utf8(bytes@),
{
    match String::from_utf8(bytes) {
        Ok(s) => Some(s),
        Err(_) => None,
    }
}

/// Decodes `n` bytes at `offset` as text. Consumes exactly `n` bytes; fails
/// `TruncatedField` when fewer remain and `InvalidEncoding` when the bytes
/// are not valid UTF-8.
pub fn string_fixed_len(buf: &[u8], offset: usize, n: usize) -> (r: Result<
    (String, usize),
    DecodeError,
>)
    ensures
        offset + n > buf@.len() ==> r == Err::<(String, usize), DecodeError>(
            DecodeError::TruncatedField,
        ),
        offset + n <= buf@.len() && !valid_utf8(buf@.subrange(offset as int, offset + n)) ==> r
            == Err::<(String, usize), DecodeError>(DecodeError::InvalidEncoding),
        offset + n <= buf@.len() && valid_utf8(buf@.subrange(offset as int, offset + n)) ==> (
        r matches Ok(p) && p.0@ == decode_utf8(buf@.subrange(offset as int, offset + n)) && p.1
            == n),
{
    if n > buf.len() || offset > buf.len() - n {
        return Err(DecodeError::TruncatedField);
    }
    let mut bytes: Vec<u8> = Vec::new();
    bytes.extend_from_slice(&buf[offset..offset + n]);
    proof {
        assert(bytes@ =~= buf@.subrange(offset as int, offset + n));
    }
    match utf8_to_string(bytes) {
        Some(s) => Ok((s, n)),
        None => Err(DecodeError::InvalidEncoding),
    }
}

/// Decodes the entire remainder of the buffer from `offset` as text,
/// consuming it all. Fails `InvalidEncoding` when the bytes are not valid
/// UTF-8.
pub fn string_eof(buf: &[u8], offset: usize) -> (r: Result<(String, usize), DecodeError>)
    ensures
        offset > buf@.len() ==> r == Err::<(String, usize), DecodeError>(
            DecodeError::TruncatedField,
        ),
        offset <= buf@.len() && !valid_utf8(buf@.subrange(offset as int, buf@.len() as int)) ==> r
            == Err::<(String, usize), DecodeError>(DecodeError::InvalidEncoding),
        offset <= buf@.len() && valid_utf8(buf@.subrange(offset as int, buf@.len() as int)) ==> (
        r matches Ok(p) && p.0@ == decode_utf8(buf@.subrange(offset as int, buf@.len() as int))
            && p.1 == buf@.len() - offset),
{
    if offset > buf.len() {
        return Err(DecodeError::TruncatedField);
    }
    let mut bytes: Vec<u8> = Vec::new();
    bytes.extend_from_slice(&buf[offset..buf.len()]);
    proof {
        assert(bytes@ =~= buf@.subrange(offset as int, buf@.len() as int));
    }
    match utf8_to_string(bytes) {
        Some(s) => Ok((s, buf.len() - offset)),
        None => Err(DecodeError::InvalidEncoding),
    }
}

} // verus!

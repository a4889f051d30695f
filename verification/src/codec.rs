//! The positional little-endian encoding that every stored record uses.
//!
//! Each kind of value has an encoder to bytes and a decoder that reads one
//! value from the front of a byte sequence and hands back what follows it.
//! The lemmas state that a decoder undoes its encoder whatever follows.

use crate::address::{address_of, lemma_address_of, Address};
use vstd::bytes::*;
use vstd::prelude::*;
use vstd::slice::*;
use vstd::string::*;
use vstd::utf8::*;

verus! {

/// The exec position `next` in `data` stands for the spec remainder `rest`.
pub open spec fn at(data: Seq<u8>, next: usize, rest: Seq<u8>) -> bool {
    next <= data.len() && data.skip(next as int) == rest
}

/// The exec result `r` of reading at `pos` is the spec result `d` of
/// decoding what starts there.
pub open spec fn read_is<T>(
    data: Seq<u8>,
    pos: usize,
    r: Option<(T, usize)>,
    d: Option<(T, Seq<u8>)>,
) -> bool {
    match d {
        Some((v, rest)) => r matches Some((w, next)) && w == v && pos <= next && at(
            data,
            next,
            rest,
        ),
        None => r is None,
    }
}

// ---------------------------------------------------------------- u8

/// The bytes that the value is stored as.
pub open spec fn enc_u8(v: u8) -> Seq<u8> {
    seq![v]
}

/// The value that the front of `s` holds, and what follows it; nothing
/// where `s` does not begin with such a value.
pub open spec fn dec_u8(s: Seq<u8>) -> Option<(u8, Seq<u8>)> {
    if s.len() >= 1 {
        Some((s[0], s.skip(1)))
    } else {
        None
    }
}

/// What was encoded is decoded again, whatever follows it.
pub proof fn lemma_dec_enc_u8(v: u8, rest: Seq<u8>)
    ensures
        dec_u8(enc_u8(v) + rest) == Some((v, rest)),
{
    assert((enc_u8(v) + rest).skip(1) =~= rest);
}

/// Appends the encoding of the value to `out`.
pub fn write_u8(out: &mut Vec<u8>, v: u8)
    ensures
        final(out)@ == old(out)@ + enc_u8(v),
{
    out.push(v);
    assert(out@ =~= old(out)@ + enc_u8(v));
}

/// Reads a value at `pos` of `data`, and gives it with the position behind
/// it; nothing where no such value begins there.
pub fn read_u8(data: &[u8], pos: usize) -> (r: Option<(u8, usize)>)
    requires
        pos <= data@.len(),
    ensures
        read_is(data@, pos, r, dec_u8(data@.skip(pos as int))),
{
    if pos < data.len() {
        assert(data@.skip(pos as int).skip(1) =~= data@.skip(pos + 1));
        Some((data[pos], pos + 1))
    } else {
        None
    }
}

// ---------------------------------------------------------------- bool

/// The bytes that the value is stored as.
pub open spec fn enc_bool(v: bool) -> Seq<u8> {
    seq![if v { 1u8 } else { 0u8 }]
}

/// Only the bytes 0 and 1 stand for a boolean.
pub open spec fn dec_bool(s: Seq<u8>) -> Option<(bool, Seq<u8>)> {
    if s.len() >= 1 && s[0] <= 1 {
        Some((s[0] == 1, s.skip(1)))
    } else {
        None
    }
}

/// What was encoded is decoded again, whatever follows it.
pub proof fn lemma_dec_enc_bool(v: bool, rest: Seq<u8>)
    ensures
        dec_bool(enc_bool(v) + rest) == Some((v, rest)),
{
    assert((enc_bool(v) + rest).skip(1) =~= rest);
}

/// Appends the encoding of the value to `out`.
pub fn write_bool(out: &mut Vec<u8>, v: bool)
    ensures
        final(out)@ == old(out)@ + enc_bool(v),
{
    out.push(if v { 1u8 } else { 0u8 });
    assert(out@ =~= old(out)@ + enc_bool(v));
}

/// Reads a value at `pos` of `data`, and gives it with the position behind
/// it; nothing where no such value begins there.
pub fn read_bool(data: &[u8], pos: usize) -> (r: Option<(bool, usize)>)
    requires
        pos <= data@.len(),
    ensures
        read_is(data@, pos, r, dec_bool(data@.skip(pos as int))),
{
    if pos < data.len() && data[pos] <= 1 {
        assert(data@.skip(pos as int).skip(1) =~= data@.skip(pos + 1));
        Some((data[pos] == 1, pos + 1))
    } else {
        None
    }
}

// ---------------------------------------------------------------- raw bytes

/// The first `n` bytes, as they are.
pub open spec fn dec_bytes(s: Seq<u8>, n: nat) -> Option<(Seq<u8>, Seq<u8>)> {
    if s.len() >= n {
        Some((s.take(n as int), s.skip(n as int)))
    } else {
        None
    }
}

/// The first bytes of a concatenation are its first part.
pub proof fn lemma_dec_bytes(b: Seq<u8>, rest: Seq<u8>)
    ensures
        dec_bytes(b + rest, b.len()) == Some((b, rest)),
{
    assert((b + rest).take(b.len() as int) =~= b);
    assert((b + rest).skip(b.len() as int) =~= rest);
}

/// Appends the encoding of the value to `out`.
pub fn write_bytes(out: &mut Vec<u8>, bytes: &[u8])
    ensures
        final(out)@ == old(out)@ + bytes@,
{
    let mut i: usize = 0;
    while i < bytes.len()
        invariant
            i <= bytes@.len(),
            out@ == old(out)@ + bytes@.take(i as int),
        decreases bytes@.len() - i,
    {
        out.push(bytes[i]);
        assert(out@ =~= old(out)@ + bytes@.take(i + 1));
        i += 1;
    }
    assert(bytes@.take(i as int) =~= bytes@);
}

/// Reads a value at `pos` of `data`, and gives it with the position behind
/// it; nothing where no such value begins there.
pub fn read_bytes(data: &[u8], pos: usize, n: usize) -> (r: Option<(Vec<u8>, usize)>)
    requires
        pos <= data@.len(),
    ensures
        match dec_bytes(data@.skip(pos as int), n as nat) {
            Some((v, rest)) => r matches Some((w, next)) && w@ == v && pos <= next && at(
                data@,
                next,
                rest,
            ),
            None => r is None,
        },
{
    if n <= data.len() - pos {
        let v = slice_to_vec(slice_subrange(data, pos, pos + n));
        assert(data@.skip(pos as int).take(n as int) =~= data@.subrange(pos as int, pos + n));
        assert(data@.skip(pos as int).skip(n as int) =~= data@.skip(pos + n));
        Some((v, pos + n))
    } else {
        None
    }
}

/// Writes `bytes` over the front of `buf`; what follows stays.
pub fn overwrite(buf: &mut Vec<u8>, bytes: &[u8])
    requires
        bytes@.len() <= old(buf)@.len(),
    ensures
        final(buf)@ == bytes@ + old(buf)@.skip(bytes@.len() as int),
{
    let mut i: usize = 0;
    while i < bytes.len()
        invariant
            i <= bytes@.len(),
            bytes@.len() <= buf@.len(),
            buf@.len() == old(buf)@.len(),
            buf@ == bytes@.take(i as int) + old(buf)@.skip(i as int),
        decreases bytes@.len() - i,
    {
        buf[i] = bytes[i];
        assert(buf@ =~= bytes@.take(i + 1) + old(buf)@.skip(i + 1));
        i += 1;
    }
    assert(bytes@.take(i as int) =~= bytes@);
}

/// `n` bytes of zero.
pub open spec fn zeros(n: nat) -> Seq<u8> {
    Seq::new(n, |i: int| 0u8)
}

/// A buffer of `n` bytes of zero.
pub fn zeroed(n: usize) -> (r: Vec<u8>)
    ensures
        r@ == zeros(n as nat),
{
    let mut r: Vec<u8> = Vec::new();
    let mut i: usize = 0;
    while i < n
        invariant
            i <= n,
            r@ == zeros(i as nat),
        decreases n - i,
    {
        r.push(0);
        assert(r@ =~= zeros((i + 1) as nat));
        i += 1;
    }
    r
}

// ---------------------------------------------------------------- u16

/// The bytes that the value is stored as.
pub open spec fn enc_u16(v: u16) -> Seq<u8> {
    spec_u16_to_le_bytes(v)
}

/// The value that the front of `s` holds, and what follows it; nothing
/// where `s` does not begin with such a value.
pub open spec fn dec_u16(s: Seq<u8>) -> Option<(u16, Seq<u8>)> {
    if s.len() >= 2 {
        Some((spec_u16_from_le_bytes(s.take(2)), s.skip(2)))
    } else {
        None
    }
}

/// What was encoded is decoded again, whatever follows it.
pub proof fn lemma_dec_enc_u16(v: u16, rest: Seq<u8>)
    ensures
        enc_u16(v).len() == 2,
        dec_u16(enc_u16(v) + rest) == Some((v, rest)),
{
    lemma_auto_spec_u16_to_from_le_bytes();
    lemma_dec_bytes(enc_u16(v), rest);
}

/// Appends the encoding of the value to `out`.
pub fn write_u16(out: &mut Vec<u8>, v: u16)
    ensures
        final(out)@ == old(out)@ + enc_u16(v),
{
    let b = u16_to_le_bytes(v);
    write_bytes(out, b.as_slice());
}

/// Reads a value at `pos` of `data`, and gives it with the position behind
/// it; nothing where no such value begins there.
pub fn read_u16(data: &[u8], pos: usize) -> (r: Option<(u16, usize)>)
    requires
        pos <= data@.len(),
    ensures
        read_is(data@, pos, r, dec_u16(data@.skip(pos as int))),
{
    if 2 <= data.len() - pos {
        let v = u16_from_le_bytes(slice_subrange(data, pos, pos + 2));
        assert(data@.skip(pos as int).take(2) =~= data@.subrange(pos as int, pos + 2));
        assert(data@.skip(pos as int).skip(2) =~= data@.skip(pos + 2));
        Some((v, pos + 2))
    } else {
        None
    }
}

// ---------------------------------------------------------------- u32

/// The bytes that the value is stored as.
pub open spec fn enc_u32(v: u32) -> Seq<u8> {
    spec_u32_to_le_bytes(v)
}

/// The value that the front of `s` holds, and what follows it; nothing
/// where `s` does not begin with such a value.
pub open spec fn dec_u32(s: Seq<u8>) -> Option<(u32, Seq<u8>)> {
    if s.len() >= 4 {
        Some((spec_u32_from_le_bytes(s.take(4)), s.skip(4)))
    } else {
        None
    }
}

/// What was encoded is decoded again, whatever follows it.
pub proof fn lemma_dec_enc_u32(v: u32, rest: Seq<u8>)
    ensures
        enc_u32(v).len() == 4,
        dec_u32(enc_u32(v) + rest) == Some((v, rest)),
{
    lemma_auto_spec_u32_to_from_le_bytes();
    lemma_dec_bytes(enc_u32(v), rest);
}

/// Appends the encoding of the value to `out`.
pub fn write_u32(out: &mut Vec<u8>, v: u32)
    ensures
        final(out)@ == old(out)@ + enc_u32(v),
{
    let b = u32_to_le_bytes(v);
    write_bytes(out, b.as_slice());
}

/// Reads a value at `pos` of `data`, and gives it with the position behind
/// it; nothing where no such value begins there.
pub fn read_u32(data: &[u8], pos: usize) -> (r: Option<(u32, usize)>)
    requires
        pos <= data@.len(),
    ensures
        read_is(data@, pos, r, dec_u32(data@.skip(pos as int))),
{
    if 4 <= data.len() - pos {
        let v = u32_from_le_bytes(slice_subrange(data, pos, pos + 4));
        assert(data@.skip(pos as int).take(4) =~= data@.subrange(pos as int, pos + 4));
        assert(data@.skip(pos as int).skip(4) =~= data@.skip(pos + 4));
        Some((v, pos + 4))
    } else {
        None
    }
}

// ---------------------------------------------------------------- u64

/// The bytes that the value is stored as.
pub open spec fn enc_u64(v: u64) -> Seq<u8> {
    spec_u64_to_le_bytes(v)
}

/// The value that the front of `s` holds, and what follows it; nothing
/// where `s` does not begin with such a value.
pub open spec fn dec_u64(s: Seq<u8>) -> Option<(u64, Seq<u8>)> {
    if s.len() >= 8 {
        Some((spec_u64_from_le_bytes(s.take(8)), s.skip(8)))
    } else {
        None
    }
}

/// What was encoded is decoded again, whatever follows it.
pub proof fn lemma_dec_enc_u64(v: u64, rest: Seq<u8>)
    ensures
        enc_u64(v).len() == 8,
        dec_u64(enc_u64(v) + rest) == Some((v, rest)),
{
    lemma_auto_spec_u64_to_from_le_bytes();
    lemma_dec_bytes(enc_u64(v), rest);
}

/// Appends the encoding of the value to `out`.
pub fn write_u64(out: &mut Vec<u8>, v: u64)
    ensures
        final(out)@ == old(out)@ + enc_u64(v),
{
    let b = u64_to_le_bytes(v);
    write_bytes(out, b.as_slice());
}

/// Reads a value at `pos` of `data`, and gives it with the position behind
/// it; nothing where no such value begins there.
pub fn read_u64(data: &[u8], pos: usize) -> (r: Option<(u64, usize)>)
    requires
        pos <= data@.len(),
    ensures
        read_is(data@, pos, r, dec_u64(data@.skip(pos as int))),
{
    if 8 <= data.len() - pos {
        let v = u64_from_le_bytes(slice_subrange(data, pos, pos + 8));
        assert(data@.skip(pos as int).take(8) =~= data@.subrange(pos as int, pos + 8));
        assert(data@.skip(pos as int).skip(8) =~= data@.skip(pos + 8));
        Some((v, pos + 8))
    } else {
        None
    }
}

// ---------------------------------------------------------------- address

/// An address is stored as its 32 bytes.
pub open spec fn enc_address(a: Address) -> Seq<u8> {
    a@
}

/// The value that the front of `s` holds, and what follows it; nothing
/// where `s` does not begin with such a value.
pub open spec fn dec_address(s: Seq<u8>) -> Option<(Address, Seq<u8>)> {
    if s.len() >= 32 {
        Some((address_of(s.take(32)), s.skip(32)))
    } else {
        None
    }
}

/// What was encoded is decoded again, whatever follows it.
pub proof fn lemma_dec_enc_address(a: Address, rest: Seq<u8>)
    ensures
        enc_address(a).len() == 32,
        dec_address(enc_address(a) + rest) == Some((a, rest)),
{
    lemma_address_of(a);
    lemma_dec_bytes(a@, rest);
}

/// Appends the encoding of the value to `out`.
pub fn write_address(out: &mut Vec<u8>, a: &Address)
    ensures
        final(out)@ == old(out)@ + enc_address(*a),
{
    let mut i: usize = 0;
    while i < 32
        invariant
            i <= 32,
            out@ == old(out)@ + a@.take(i as int),
        decreases 32 - i,
    {
        out.push(a.bytes[i]);
        assert(out@ =~= old(out)@ + a@.take(i + 1));
        i += 1;
    }
    assert(a@.take(32) =~= a@);
}

/// Reads a value at `pos` of `data`, and gives it with the position behind
/// it; nothing where no such value begins there.
pub fn read_address(data: &[u8], pos: usize) -> (r: Option<(Address, usize)>)
    requires
        pos <= data@.len(),
    ensures
        read_is(data@, pos, r, dec_address(data@.skip(pos as int))),
{
    if 32 <= data.len() - pos {
        let mut bytes = [0u8; 32];
        let mut i: usize = 0;
        while i < 32
            invariant
                i <= 32,
                pos + 32 <= data.len(),
                forall|j: int| 0 <= j < i ==> bytes@[j] == data@[pos + j],
            decreases 32 - i,
        {
            bytes[i] = data[pos + i];
            i += 1;
        }
        let a = Address { bytes };
        assert(a@ =~= data@.skip(pos as int).take(32));
        assert(data@.skip(pos as int).skip(32) =~= data@.skip(pos + 32));
        proof {
            lemma_address_of(a);
        }
        Some((a, pos + 32))
    } else {
        None
    }
}

// ---------------------------------------------------------------- strings

/// A string is its length in bytes as a `u32`, then its UTF-8 bytes.
pub open spec fn enc_str(chars: Seq<char>) -> Seq<u8> {
    enc_u32(encode_utf8(chars).len() as u32) + encode_utf8(chars)
}

/// Fails where the length runs past the end or the bytes are not UTF-8.
pub open spec fn dec_str(s: Seq<u8>) -> Option<(Seq<char>, Seq<u8>)> {
    match dec_u32(s) {
        Some((n, r)) => if r.len() >= n && valid_utf8(r.take(n as int)) {
            Some((decode_utf8(r.take(n as int)), r.skip(n as int)))
        } else {
            None
        },
        None => None,
    }
}

/// What was encoded is decoded again, whatever follows it.
pub proof fn lemma_dec_enc_str(chars: Seq<char>, rest: Seq<u8>)
    requires
        encode_utf8(chars).len() <= u32::MAX,
    ensures
        dec_str(enc_str(chars) + rest) == Some((chars, rest)),
{
    let b = encode_utf8(chars);
    let n = b.len() as u32;
    assert(enc_str(chars) + rest =~= enc_u32(n) + (b + rest));
    lemma_dec_enc_u32(n, b + rest);
    lemma_dec_bytes(b, rest);
    encode_utf8_valid_utf8(chars);
    encode_utf8_decode_utf8(chars);
}

/// `String::from_utf8`. Taken on trust: it succeeds exactly on valid
/// UTF-8, and the string that it gives holds the characters that the
/// bytes encode.
#[verifier::external_body]
pub(crate) fn string_from_utf8(bytes: Vec<u8>) -> (r: Option<String>)
    ensures
        r is Some <==> valid_utf8(bytes@),
        r matches Some(s) ==> s@ == decode_utf8(bytes@),
{
    String::from_utf8(bytes).ok()
}

/// Appends the encoding of the value to `out`.
pub fn write_str(out: &mut Vec<u8>, s: &str)
    requires
        encode_utf8(s@).len() <= u32::MAX,
    ensures
        final(out)@ == old(out)@ + enc_str(s@),
{
    let b = s.as_bytes();
    write_u32(out, b.len() as u32);
    write_bytes(out, b);
    assert(out@ =~= old(out)@ + enc_str(s@));
}

/// Reads a value at `pos` of `data`, and gives it with the position behind
/// it; nothing where no such value begins there.
pub fn read_str(data: &[u8], pos: usize) -> (r: Option<(String, usize)>)
    requires
        pos <= data@.len(),
    ensures
        match dec_str(data@.skip(pos as int)) {
            Some((v, rest)) => r matches Some((w, next)) && w@ == v && pos <= next && at(
                data@,
                next,
                rest,
            ),
            None => r is None,
        },
{
    match read_u32(data, pos) {
        None => None,
        Some((n, p)) => match read_bytes(data, p, n as usize) {
            None => None,
            Some((bytes, next)) => match string_from_utf8(bytes) {
                None => None,
                Some(s) => Some((s, next)),
            },
        },
    }
}

} // verus!

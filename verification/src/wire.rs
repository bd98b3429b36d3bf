//! The MessagePack wire format: what each value looks like in bytes, and the
//! writers that append those bytes to a buffer.
//!
//! The byte layouts are stated as spec functions. The writers for
//! everything but floating-point bits hand the work to `rmp_serde`; what they
//! append is taken on trust from that crate's source and stated here byte for
//! byte. They write into a byte vector, which takes every write, so the
//! results that `rmp_serde` returns carry no error and are dropped.

use serde::ser::SerializeMap;
use serde::ser::SerializeSeq;
use serde::Serializer;
use vstd::prelude::*;
use vstd::utf8::encode_utf8;

verus! {

/// The largest count or byte length that a wire header can carry.
pub const MAX_WIRE_LEN: usize = 0xffff_ffff;

/// Two bytes, most significant first, of a number below 2^16.
pub open spec fn be16(v: int) -> Seq<u8> {
    seq![(v / 0x100) as u8, (v % 0x100) as u8]
}

/// Four bytes, most significant first, of a number below 2^32.
pub open spec fn be32(v: int) -> Seq<u8> {
    be16(v / 0x1_0000) + be16(v % 0x1_0000)
}

/// Eight bytes, most significant first, of a number below 2^64.
pub open spec fn be64(v: int) -> Seq<u8> {
    be32(v / 0x1_0000_0000) + be32(v % 0x1_0000_0000)
}

/// The nil marker.
pub open spec fn nil_encoding() -> Seq<u8> {
    seq![0xc0u8]
}

/// The marker of a boolean.
pub open spec fn bool_encoding(b: bool) -> Seq<u8> {
    if b {
        seq![0xc3u8]
    } else {
        seq![0xc2u8]
    }
}

/// The shortest encoding of an integer between -2^63 and 2^64 - 1.
///
/// Non-negative numbers use the unsigned forms, negative numbers the signed
/// forms in two's complement.
pub open spec fn int_encoding(n: int) -> Seq<u8> {
    if 0 <= n < 0x80 {
        seq![n as u8]
    } else if 0x80 <= n < 0x100 {
        seq![0xccu8, n as u8]
    } else if 0x100 <= n < 0x1_0000 {
        seq![0xcdu8] + be16(n)
    } else if 0x1_0000 <= n < 0x1_0000_0000 {
        seq![0xceu8] + be32(n)
    } else if 0x1_0000_0000 <= n {
        seq![0xcfu8] + be64(n)
    } else if -0x20 <= n {
        seq![(n + 0x100) as u8]
    } else if -0x80 <= n {
        seq![0xd0u8, (n + 0x100) as u8]
    } else if -0x8000 <= n {
        seq![0xd1u8] + be16(n + 0x1_0000)
    } else if -0x8000_0000 <= n {
        seq![0xd2u8] + be32(n + 0x1_0000_0000)
    } else {
        seq![0xd3u8] + be64(n + 0x1_0000_0000_0000_0000)
    }
}

/// A double-precision number, given by its IEEE 754 bit pattern.
pub open spec fn float_encoding(bits: u64) -> Seq<u8> {
    seq![0xcbu8] + be64(bits as int)
}

/// The header of a string of `len` bytes, `len` at most 2^32 - 1.
pub open spec fn str_header(len: nat) -> Seq<u8> {
    if len < 32 {
        seq![(0xa0 + len) as u8]
    } else if len < 0x100 {
        seq![0xd9u8, len as u8]
    } else if len < 0x1_0000 {
        seq![0xdau8] + be16(len as int)
    } else {
        seq![0xdbu8] + be32(len as int)
    }
}

/// A string, given by its UTF-8 bytes.
pub open spec fn str_encoding(utf8: Seq<u8>) -> Seq<u8> {
    str_header(utf8.len()) + utf8
}

/// The header of a byte string of `len` bytes, `len` at most 2^32 - 1.
pub open spec fn bin_header(len: nat) -> Seq<u8> {
    if len < 0x100 {
        seq![0xc4u8, len as u8]
    } else if len < 0x1_0000 {
        seq![0xc5u8] + be16(len as int)
    } else {
        seq![0xc6u8] + be32(len as int)
    }
}

/// A byte string.
pub open spec fn bin_encoding(data: Seq<u8>) -> Seq<u8> {
    bin_header(data.len()) + data
}

/// The header of a sequence of `len` elements, `len` at most 2^32 - 1.
pub open spec fn array_header(len: nat) -> Seq<u8> {
    if len < 16 {
        seq![(0x90 + len) as u8]
    } else if len < 0x1_0000 {
        seq![0xdcu8] + be16(len as int)
    } else {
        seq![0xddu8] + be32(len as int)
    }
}

/// The header of a mapping of `len` entries, `len` at most 2^32 - 1.
pub open spec fn map_header(len: nat) -> Seq<u8> {
    if len < 16 {
        seq![(0x80 + len) as u8]
    } else if len < 0x1_0000 {
        seq![0xdeu8] + be16(len as int)
    } else {
        seq![0xdfu8] + be32(len as int)
    }
}

/// The header of an extension value with a payload of `len` bytes, `len` at
/// most 2^32 - 1, and a code from 0 to 127. Its last byte is the code.
pub open spec fn ext_header(len: nat, code: i8) -> Seq<u8> {
    if len == 1 {
        seq![0xd4u8, code as u8]
    } else if len == 2 {
        seq![0xd5u8, code as u8]
    } else if len == 4 {
        seq![0xd6u8, code as u8]
    } else if len == 8 {
        seq![0xd7u8, code as u8]
    } else if len == 16 {
        seq![0xd8u8, code as u8]
    } else if len < 0x100 {
        seq![0xc7u8, len as u8, code as u8]
    } else if len < 0x1_0000 {
        seq![0xc8u8] + be16(len as int) + seq![code as u8]
    } else {
        seq![0xc9u8] + be32(len as int) + seq![code as u8]
    }
}

/// An extension value: header, then the payload as it is.
pub open spec fn ext_encoding(code: i8, payload: Seq<u8>) -> Seq<u8> {
    ext_header(payload.len(), code) + payload
}

/// Appends the nil marker.
///
/// Trusted: calls `serialize_unit` of `rmp_serde::Serializer`, which writes
/// the single marker byte `0xc0`.
#[verifier::external_body]
pub(crate) fn write_nil(buf: &mut Vec<u8>)
    ensures
        final(buf)@ == old(buf)@ + nil_encoding(),
{
    let mut ser = rmp_serde::Serializer::new(buf);
    let _ = ser.serialize_unit();
}

/// Appends a boolean.
///
/// Trusted: calls `serialize_bool` of `rmp_serde::Serializer`, which writes
/// the marker byte `0xc3` for true and `0xc2` for false.
#[verifier::external_body]
pub(crate) fn write_bool(buf: &mut Vec<u8>, b: bool)
    ensures
        final(buf)@ == old(buf)@ + bool_encoding(b),
{
    let mut ser = rmp_serde::Serializer::new(buf);
    let _ = ser.serialize_bool(b);
}

/// Appends an unsigned integer in its shortest form.
///
/// Trusted: calls `serialize_u64` of `rmp_serde::Serializer`, which picks by
/// magnitude a positive fixint or the marker `0xcc`, `0xcd`, `0xce` or `0xcf`
/// followed by 1, 2, 4 or 8 bytes, most significant first.
#[verifier::external_body]
pub(crate) fn write_uint(buf: &mut Vec<u8>, v: u64)
    ensures
        final(buf)@ == old(buf)@ + int_encoding(v as int),
{
    let mut ser = rmp_serde::Serializer::new(buf);
    let _ = ser.serialize_u64(v);
}

/// Appends a signed integer in its shortest form.
///
/// Trusted: calls `serialize_i64` of `rmp_serde::Serializer`. A non-negative
/// number is written as `serialize_u64` writes it; a negative one as a
/// negative fixint down to -32, else with the marker `0xd0`, `0xd1`, `0xd2` or
/// `0xd3` followed by 1, 2, 4 or 8 bytes of two's complement, most
/// significant first.
#[verifier::external_body]
pub(crate) fn write_sint(buf: &mut Vec<u8>, v: i64)
    ensures
        final(buf)@ == old(buf)@ + int_encoding(v as int),
{
    let mut ser = rmp_serde::Serializer::new(buf);
    let _ = ser.serialize_i64(v);
}

/// Appends a string.
///
/// Trusted: calls `serialize_str` of `rmp_serde::Serializer`, which writes a
/// header chosen by the byte length (fixstr below 32, else `0xd9`, `0xda` or
/// `0xdb` with the length in 1, 2 or 4 bytes) and then the UTF-8 bytes. The
/// crate casts the length to 32 bits, so longer strings are left out.
#[verifier::external_body]
pub(crate) fn write_str(buf: &mut Vec<u8>, s: &str)
    requires
        encode_utf8(s@).len() <= MAX_WIRE_LEN,
    ensures
        final(buf)@ == old(buf)@ + str_encoding(encode_utf8(s@)),
{
    let mut ser = rmp_serde::Serializer::new(buf);
    let _ = ser.serialize_str(s);
}

/// Appends a byte string.
///
/// Trusted: calls `serialize_bytes` of `rmp_serde::Serializer`, which writes
/// the marker `0xc4`, `0xc5` or `0xc6` with the length in 1, 2 or 4 bytes and
/// then the bytes. The crate casts the length to 32 bits, so longer byte
/// strings are left out.
#[verifier::external_body]
pub(crate) fn write_bin(buf: &mut Vec<u8>, data: &Vec<u8>)
    requires
        data.len() <= MAX_WIRE_LEN,
    ensures
        final(buf)@ == old(buf)@ + bin_encoding(data@),
{
    let mut ser = rmp_serde::Serializer::new(buf);
    let _ = ser.serialize_bytes(data.as_slice());
}

/// Appends the header of a sequence of `len` elements.
///
/// Trusted: calls `serialize_seq` of `rmp_serde::Serializer` with a known
/// length and ends the sequence at once. With the length known the crate
/// writes only the header: a fixarray marker below 16, else `0xdc` or `0xdd`
/// with the length in 2 or 4 bytes.
#[verifier::external_body]
pub(crate) fn write_array_len(buf: &mut Vec<u8>, len: u32)
    ensures
        final(buf)@ == old(buf)@ + array_header(len as nat),
{
    let mut ser = rmp_serde::Serializer::new(buf);
    match ser.serialize_seq(Some(len as usize)) {
        Ok(seq) => {
            let _ = SerializeSeq::end(seq);
        },
        Err(_) => {},
    }
}

/// Appends the header of a mapping of `len` entries.
///
/// Trusted: calls `serialize_map` of `rmp_serde::Serializer` with a known
/// length and ends the mapping at once. With the length known the crate
/// writes only the header: a fixmap marker below 16, else `0xde` or `0xdf`
/// with the length in 2 or 4 bytes.
#[verifier::external_body]
pub(crate) fn write_map_len(buf: &mut Vec<u8>, len: u32)
    ensures
        final(buf)@ == old(buf)@ + map_header(len as nat),
{
    let mut ser = rmp_serde::Serializer::new(buf);
    match ser.serialize_map(Some(len as usize)) {
        Ok(map) => {
            let _ = SerializeMap::end(map);
        },
        Err(_) => {},
    }
}

/// Appends an extension value.
///
/// Trusted: calls `serialize_newtype_struct` of `rmp_serde::Serializer` under
/// the name `rmp_serde::MSGPACK_EXT_STRUCT_NAME` on a pair of the code and a
/// `serde_bytes::ByteBuf`. The crate then writes the extension header for the
/// payload's length (`0xd4` to `0xd8` for 1, 2, 4, 8 and 16 bytes, else
/// `0xc7`, `0xc8` or `0xc9` with the length in 1, 2 or 4 bytes), the code, and
/// the payload. It casts the length to 32 bits, and its documentation
/// reserves negative codes, so both are left out.
#[verifier::external_body]
pub(crate) fn write_ext(buf: &mut Vec<u8>, code: i8, payload: &Vec<u8>)
    requires
        code >= 0,
        payload.len() <= MAX_WIRE_LEN,
    ensures
        final(buf)@ == old(buf)@ + ext_encoding(code, payload@),
{
    let mut ser = rmp_serde::Serializer::new(buf);
    let body = serde_bytes::ByteBuf::from(payload.as_slice());
    let _ = ser.serialize_newtype_struct(rmp_serde::MSGPACK_EXT_STRUCT_NAME, &(code, body));
}

/// Appends a double-precision number, given by its IEEE 754 bit pattern:
/// the marker `0xcb`, then the eight bytes of the pattern, most significant
/// first.
pub fn write_float_bits(buf: &mut Vec<u8>, bits: u64)
    ensures
        final(buf)@ == old(buf)@ + float_encoding(bits),
{
    let hi: u64 = bits / 0x1_0000_0000;
    let lo: u64 = bits % 0x1_0000_0000;
    let a: u64 = hi / 0x1_0000;
    let b: u64 = hi % 0x1_0000;
    let c: u64 = lo / 0x1_0000;
    let d: u64 = lo % 0x1_0000;
    buf.push(0xcb);
    buf.push((a / 0x100) as u8);
    buf.push((a % 0x100) as u8);
    buf.push((b / 0x100) as u8);
    buf.push((b % 0x100) as u8);
    buf.push((c / 0x100) as u8);
    buf.push((c % 0x100) as u8);
    buf.push((d / 0x100) as u8);
    buf.push((d % 0x100) as u8);
    assert(buf@ =~= old(buf)@ + float_encoding(bits));
}

/// The number that two bytes starting at `at` spell, most significant first.
pub open spec fn u16_at(b: Seq<u8>, at: int) -> int {
    b[at] * 0x100 + b[at + 1]
}

/// The number that four bytes starting at `at` spell, most significant first.
pub open spec fn u32_at(b: Seq<u8>, at: int) -> int {
    u16_at(b, at) * 0x1_0000 + u16_at(b, at + 2)
}

/// The number that eight bytes starting at `at` spell, most significant
/// first.
pub open spec fn u64_at(b: Seq<u8>, at: int) -> int {
    u32_at(b, at) * 0x1_0000_0000 + u32_at(b, at + 4)
}

/// Reads `v`, a number below `modulus`, as two's complement.
pub open spec fn twos_complement(v: int, modulus: int) -> int {
    if 2 * v >= modulus {
        v - modulus
    } else {
        v
    }
}

/// The integer that `b` encodes, if `b` is exactly one encoded integer in any
/// of the ten integer forms of the wire format.
pub open spec fn decode_int(b: Seq<u8>) -> Option<int> {
    if b.len() == 1 && b[0] < 0x80 {
        Some(b[0] as int)
    } else if b.len() == 1 && b[0] >= 0xe0 {
        Some(b[0] - 0x100)
    } else if b.len() == 2 && b[0] == 0xcc {
        Some(b[1] as int)
    } else if b.len() == 3 && b[0] == 0xcd {
        Some(u16_at(b, 1))
    } else if b.len() == 5 && b[0] == 0xce {
        Some(u32_at(b, 1))
    } else if b.len() == 9 && b[0] == 0xcf {
        Some(u64_at(b, 1))
    } else if b.len() == 2 && b[0] == 0xd0 {
        Some(twos_complement(b[1] as int, 0x100))
    } else if b.len() == 3 && b[0] == 0xd1 {
        Some(twos_complement(u16_at(b, 1), 0x1_0000))
    } else if b.len() == 5 && b[0] == 0xd2 {
        Some(twos_complement(u32_at(b, 1), 0x1_0000_0000))
    } else if b.len() == 9 && b[0] == 0xd3 {
        Some(twos_complement(u64_at(b, 1), 0x1_0000_0000_0000_0000))
    } else {
        None
    }
}

/// Decoding the encoding of an integer gives the integer back: for every `n`
/// from -2^63 to 2^64 - 1, and so for every signed 64-bit integer.
pub proof fn lemma_int_round_trip(n: int)
    requires
        -0x8000_0000_0000_0000 <= n < 0x1_0000_0000_0000_0000,
    ensures
        decode_int(int_encoding(n)) == Some(n),
{
    let b = int_encoding(n);
    if 0x100 <= n < 0x1_0000 {
        assert(b.len() == 3 && b[0] == 0xcd);
        assert(u16_at(b, 1) == n);
    } else if 0x1_0000 <= n < 0x1_0000_0000 {
        assert(b.len() == 5 && b[0] == 0xce);
        assert(u32_at(b, 1) == n);
    } else if 0x1_0000_0000 <= n {
        assert(b.len() == 9 && b[0] == 0xcf);
        assert(u64_at(b, 1) == n);
    } else if -0x8000 <= n < -0x80 {
        assert(b.len() == 3 && b[0] == 0xd1);
        assert(u16_at(b, 1) == n + 0x1_0000);
    } else if -0x8000_0000 <= n < -0x8000 {
        assert(b.len() == 5 && b[0] == 0xd2);
        assert(u32_at(b, 1) == n + 0x1_0000_0000);
    } else if n < -0x8000_0000 {
        assert(b.len() == 9 && b[0] == 0xd3);
        assert(u64_at(b, 1) == n + 0x1_0000_0000_0000_0000);
    }
}

/// Two different integers never share an encoding.
pub proof fn lemma_int_encoding_injective(m: int, n: int)
    requires
        -0x8000_0000_0000_0000 <= m < 0x1_0000_0000_0000_0000,
        -0x8000_0000_0000_0000 <= n < 0x1_0000_0000_0000_0000,
        int_encoding(m) == int_encoding(n),
    ensures
        m == n,
{
    lemma_int_round_trip(m);
    lemma_int_round_trip(n);
}

/// The number of bytes that the header of the extension value `b` takes, if
/// `b` starts with an extension marker.
pub open spec fn ext_header_len(b: Seq<u8>) -> Option<int> {
    if b.len() == 0 {
        None
    } else if 0xd4 <= b[0] <= 0xd8 {
        Some(2)
    } else if b[0] == 0xc7 {
        Some(3)
    } else if b[0] == 0xc8 {
        Some(4)
    } else if b[0] == 0xc9 {
        Some(6)
    } else {
        None
    }
}

/// The payload length that the header of the extension value `b` announces.
pub open spec fn ext_announced_len(b: Seq<u8>) -> int {
    if b[0] == 0xd4 {
        1
    } else if b[0] == 0xd5 {
        2
    } else if b[0] == 0xd6 {
        4
    } else if b[0] == 0xd7 {
        8
    } else if b[0] == 0xd8 {
        16
    } else if b[0] == 0xc7 {
        b[1] as int
    } else if b[0] == 0xc8 {
        u16_at(b, 1)
    } else {
        u32_at(b, 1)
    }
}

/// The code and the payload that `b` holds, if `b` is exactly one extension
/// value with a code from 0 to 127.
pub open spec fn decode_ext(b: Seq<u8>) -> Option<(i8, Seq<u8>)> {
    match ext_header_len(b) {
        None => None,
        Some(h) => if b.len() >= h && b[h - 1] < 0x80 && b.len() == h + ext_announced_len(b) {
            Some((b[h - 1] as i8, b.subrange(h, b.len() as int)))
        } else {
            None
        },
    }
}

/// Decoding an extension value gives its code and its payload back: for
/// every code from 0 to 127 and every payload of at most 2^32 - 1 bytes.
pub proof fn lemma_ext_round_trip(code: i8, payload: Seq<u8>)
    requires
        code >= 0,
        payload.len() <= MAX_WIRE_LEN,
    ensures
        decode_ext(ext_encoding(code, payload)) == Some((code, payload)),
{
    let b = ext_encoding(code, payload);
    let len = payload.len();
    let header = ext_header(len, code);
    assert(b == header + payload);
    let h = header.len() as int;
    assert(ext_header_len(b) == Some(h));
    assert(b[h - 1] == code as u8);
    if len == 1 || len == 2 || len == 4 || len == 8 || len == 16 {
    } else if len < 0x100 {
    } else if len < 0x1_0000 {
        assert(u16_at(b, 1) == len);
    } else {
        assert(u32_at(b, 1) == len);
    }
    assert(ext_announced_len(b) == len);
    assert(b.subrange(h, b.len() as int) == payload);
}

/// Two extension values are equal only if their codes and their payloads
/// are: a reader tells any two codes apart, whatever the payload.
pub proof fn lemma_ext_encoding_injective(a: i8, p: Seq<u8>, b: i8, q: Seq<u8>)
    requires
        a >= 0,
        b >= 0,
        p.len() <= MAX_WIRE_LEN,
        q.len() <= MAX_WIRE_LEN,
        ext_encoding(a, p) == ext_encoding(b, q),
    ensures
        a == b,
        p == q,
{
    lemma_ext_round_trip(a, p);
    lemma_ext_round_trip(b, q);
}

} // verus!

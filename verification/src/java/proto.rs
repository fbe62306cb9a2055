//! Primitive encodings of the Java Edition wire protocol: big-endian
//! integers, LEB128 VarInts/VarLongs, length-prefixed UTF-8 strings and
//! packed block positions.
use vstd::prelude::*;
use vstd::utf8::*;
use vstd::string::*;

use super::error::ProtoError;

verus! {

broadcast use vstd::seq::group_seq_axioms, vstd::seq_lib::group_seq_properties;

/// Longest string payload, in bytes, that `read_string` accepts.
pub const MAX_STRING_BYTES: i32 = 32767;

// ---------------------------------------------------------------------------
// VarInt / VarLong: the mathematical model
// ---------------------------------------------------------------------------

/// LEB128 decoding of a VarInt starting at byte `i` with the low bits already
/// gathered in `acc`. `Ok(None)` means the input ends before the last byte;
/// more than five bytes is an error.
pub open spec fn varint_decode_from(bytes: Seq<u8>, i: nat, acc: u32) -> Result<Option<(i32, usize)>, ProtoError>
    decreases 5 - i,
{
    if i >= 5 {
        Err(ProtoError::VarIntTooLong)
    } else if i >= bytes.len() {
        Ok(None)
    } else {
        let byte = bytes[i as int];
        let next = acc | (((byte & 0x7F) as u32) << ((7 * i) as u32));
        if byte & 0x80 == 0 {
            Ok(Some((next as i32, (i + 1) as usize)))
        } else {
            varint_decode_from(bytes, i + 1, next)
        }
    }
}

/// The VarInt at the front of `bytes`: its value and its length in bytes.
pub open spec fn spec_decode_varint(bytes: Seq<u8>) -> Result<Option<(i32, usize)>, ProtoError> {
    varint_decode_from(bytes, 0, 0)
}

/// LEB128 decoding of a VarLong (at most ten bytes).
pub open spec fn varlong_decode_from(bytes: Seq<u8>, i: nat, acc: u64) -> Result<Option<(i64, usize)>, ProtoError>
    decreases 10 - i,
{
    if i >= 10 {
        Err(ProtoError::VarLongTooLong)
    } else if i >= bytes.len() {
        Ok(None)
    } else {
        let byte = bytes[i as int];
        let next = acc | (((byte & 0x7F) as u64) << ((7 * i) as u64));
        if byte & 0x80 == 0 {
            Ok(Some((next as i64, (i + 1) as usize)))
        } else {
            varlong_decode_from(bytes, i + 1, next)
        }
    }
}

/// The VarLong at the front of `bytes`: its value and its length in bytes.
pub open spec fn spec_decode_varlong(bytes: Seq<u8>) -> Result<Option<(i64, usize)>, ProtoError> {
    varlong_decode_from(bytes, 0, 0)
}

/// LEB128 bytes of an unsigned 32-bit value: seven bits per byte, low
/// group first, the high bit set on every byte but the last.
pub open spec fn varint_bytes(v: u32) -> Seq<u8>
    decreases v via varint_bytes_decreases
{
    if v >> 7 == 0 {
        seq![(v & 0x7F) as u8]
    } else {
        seq![((v & 0x7F) | 0x80) as u8] + varint_bytes(v >> 7)
    }
}

#[via_fn]
proof fn varint_bytes_decreases(v: u32) {
    assert(v >> 7 != 0 ==> v >> 7 < v) by (bit_vector);
}

/// LEB128 bytes of an unsigned 64-bit value.
pub open spec fn varlong_bytes(v: u64) -> Seq<u8>
    decreases v via varlong_bytes_decreases
{
    if v >> 7 == 0 {
        seq![(v & 0x7F) as u8]
    } else {
        seq![((v & 0x7F) | 0x80) as u8] + varlong_bytes(v >> 7)
    }
}

#[via_fn]
proof fn varlong_bytes_decreases(v: u64) {
    assert(v >> 7 != 0 ==> v >> 7 < v) by (bit_vector);
}

/// Wire form of a VarInt: the two's-complement bits of `v`, LEB128 encoded.
pub open spec fn varint_encoding(v: i32) -> Seq<u8> {
    varint_bytes(v as u32)
}

/// Wire form of a VarLong.
pub open spec fn varlong_encoding(v: i64) -> Seq<u8> {
    varlong_bytes(v as u64)
}

// ---------------------------------------------------------------------------
// Fixed-width big-endian integers
// ---------------------------------------------------------------------------

pub open spec fn u16_be(v: u16) -> Seq<u8> {
    seq![(v >> 8) as u8, v as u8]
}

pub open spec fn u16_from_be(b: Seq<u8>) -> u16 {
    ((b[0] as u16) << 8) | (b[1] as u16)
}

pub open spec fn u32_be(v: u32) -> Seq<u8> {
    seq![(v >> 24) as u8, (v >> 16) as u8, (v >> 8) as u8, v as u8]
}

pub open spec fn u32_from_be(b: Seq<u8>) -> u32 {
    ((b[0] as u32) << 24) | ((b[1] as u32) << 16) | ((b[2] as u32) << 8) | (b[3] as u32)
}

pub open spec fn u64_be(v: u64) -> Seq<u8> {
    seq![
        (v >> 56) as u8, (v >> 48) as u8, (v >> 40) as u8, (v >> 32) as u8,
        (v >> 24) as u8, (v >> 16) as u8, (v >> 8) as u8, v as u8,
    ]
}

pub open spec fn u64_from_be(b: Seq<u8>) -> u64 {
    ((b[0] as u64) << 56) | ((b[1] as u64) << 48) | ((b[2] as u64) << 40) | ((b[3] as u64) << 32)
        | ((b[4] as u64) << 24) | ((b[5] as u64) << 16) | ((b[6] as u64) << 8) | (b[7] as u64)
}

pub open spec fn u128_be(v: u128) -> Seq<u8> {
    u64_be((v >> 64) as u64) + u64_be(v as u64)
}

pub open spec fn u128_from_be(b: Seq<u8>) -> u128 {
    ((u64_from_be(b.subrange(0, 8)) as u128) << 64) | (u64_from_be(b.subrange(8, 16)) as u128)
}

// ---------------------------------------------------------------------------
// Strings and block positions
// ---------------------------------------------------------------------------

/// A VarInt length prefix (the UTF-8 byte count) followed by the UTF-8 bytes.
pub open spec fn string_encoding(s: Seq<char>) -> Seq<u8> {
    varint_encoding(encode_utf8(s).len() as i32) + encode_utf8(s)
}

/// A big-endian u16 length prefix followed by the UTF-8 bytes.
pub open spec fn u16_string_encoding(s: Seq<char>) -> Seq<u8> {
    u16_be(encode_utf8(s).len() as u16) + encode_utf8(s)
}

/// Block position packed into 64 bits: x in the top 26 bits, z in the
/// middle 26, y in the low 12.
pub open spec fn pack_position(x: i32, y: i32, z: i32) -> u64 {
    (((x as u64) & 0x3FF_FFFF) << 38u64) | (((z as u64) & 0x3FF_FFFF) << 12u64) | ((y as u64) & 0xFFF)
}

/// Two's-complement value of the low `bits` bits of `value`.
pub open spec fn sign_extend_spec(value: u64, bits: u64) -> i32 {
    ((((value << (64 - bits)) as i64) >> (64 - bits)) as i32)
}

pub open spec fn unpack_position(packed: u64) -> (i32, i32, i32) {
    (
        sign_extend_spec(packed >> 38u64, 26),
        sign_extend_spec(packed, 12),
        sign_extend_spec(packed >> 12u64, 26),
    )
}

/// Whether a block position survives packing: x and z fit in 26 bits,
/// y in 12 (two's complement).
pub open spec fn position_in_range(x: i32, y: i32, z: i32) -> bool {
    &&& -0x200_0000 <= x < 0x200_0000
    &&& -0x800 <= y < 0x800
    &&& -0x200_0000 <= z < 0x200_0000
}

// ---------------------------------------------------------------------------
// Outside call: UTF-8 validation
// ---------------------------------------------------------------------------

/// Calls `std::str::from_utf8`. Claims what its documentation states: the
/// bytes are accepted exactly when they are valid UTF-8 (vstd's `valid_utf8`),
/// and the accepted string holds the characters they encode.
#[verifier::external_body]
fn str_from_utf8(bytes: &[u8]) -> (r: Option<&str>)
    ensures
        r is Some <==> valid_utf8(bytes@),
        r matches Some(s) ==> s@ == decode_utf8(bytes@),
{
    std::str::from_utf8(bytes).ok()
}

// ---------------------------------------------------------------------------
// Decoding
// ---------------------------------------------------------------------------

/// Decodes the VarInt at the front of `bytes`. `Ok(None)` means more bytes
/// are needed; a sixth byte is `VarIntTooLong`.
pub fn decode_varint_prefix(bytes: &[u8]) -> (r: Result<Option<(i32, usize)>, ProtoError>)
    ensures
        r == spec_decode_varint(bytes@),
{
    let mut value: u32 = 0;
    let mut i: usize = 0;
    while i < 5
        invariant
            i <= 5,
            varint_decode_from(bytes@, i as nat, value) == spec_decode_varint(bytes@),
        decreases 5 - i,
    {
        if i >= bytes.len() {
            return Ok(None);
        }
        let byte = bytes[i];
        value = value | (((byte & 0x7F) as u32) << ((7 * i) as u32));
        if byte & 0x80 == 0 {
            return Ok(Some((value as i32, i + 1)));
        }
        i = i + 1;
    }
    Err(ProtoError::VarIntTooLong)
}

/// Decodes the VarLong at the front of `bytes`.
pub fn decode_varlong_prefix(bytes: &[u8]) -> (r: Result<Option<(i64, usize)>, ProtoError>)
    ensures
        r == spec_decode_varlong(bytes@),
{
    let mut value: u64 = 0;
    let mut i: usize = 0;
    while i < 10
        invariant
            i <= 10,
            varlong_decode_from(bytes@, i as nat, value) == spec_decode_varlong(bytes@),
        decreases 10 - i,
    {
        if i >= bytes.len() {
            return Ok(None);
        }
        let byte = bytes[i];
        value = value | (((byte & 0x7F) as u64) << ((7 * i) as u64));
        if byte & 0x80 == 0 {
            return Ok(Some((value as i64, i + 1)));
        }
        i = i + 1;
    }
    Err(ProtoError::VarLongTooLong)
}

fn sign_extend(value: u64, bits: u64) -> (r: i32)
    requires
        1 <= bits <= 63,
    ensures
        r == sign_extend_spec(value, bits),
{
    (((value << (64 - bits)) as i64) >> (64 - bits)) as i32
}

/// A cursor over a byte slice. Every read either consumes exactly the bytes
/// it decodes, or fails and leaves the cursor where it was.
pub struct Reader<'a> {
    data: &'a [u8],
    pos: usize,
}

impl<'a> Reader<'a> {
    #[verifier::type_invariant]
    spec fn inv(self) -> bool {
        self.pos <= self.data@.len()
    }

    /// All bytes the reader was made from.
    pub closed spec fn data(&self) -> Seq<u8> {
        self.data@
    }

    /// How many bytes have been consumed.
    pub closed spec fn pos(&self) -> nat {
        if self.pos <= self.data@.len() { self.pos as nat } else { self.data@.len() }
    }

    /// The bytes not yet consumed.
    pub open spec fn rest(&self) -> Seq<u8> {
        self.data().skip(self.pos() as int)
    }

    pub broadcast proof fn lemma_pos_bound(r: &Reader<'a>)
        ensures
            #[trigger] r.pos() <= r.data().len(),
    {
    }

    #[must_use]
    pub fn new(data: &'a [u8]) -> (r: Self)
        ensures
            r.data() == data@,
            r.pos() == 0,
    {
        Self { data, pos: 0 }
    }

    #[must_use]
    pub fn remaining(&self) -> (r: usize)
        ensures
            r == self.data().len() - self.pos(),
    {
        proof { use_type_invariant(self); }
        self.data.len() - self.pos
    }

    #[must_use]
    pub fn position(&self) -> (r: usize)
        ensures
            r == self.pos(),
    {
        proof { use_type_invariant(self); }
        self.pos
    }

    fn take(&mut self, n: usize) -> (r: Result<&'a [u8], ProtoError>)
        ensures
            final(self).data() == old(self).data(),
            n <= old(self).rest().len() ==> (r matches Ok(bytes) && bytes@ == old(self).rest().take(n as int)
                && final(self).pos() == old(self).pos() + n),
            n > old(self).rest().len() ==> r == Err::<&'a [u8], ProtoError>(ProtoError::Truncated)
                && final(self).pos() == old(self).pos(),
    {
        proof { use_type_invariant(&*self); }
        if self.data.len() - self.pos < n {
            return Err(ProtoError::Truncated);
        }
        let bytes = vstd::slice::slice_subrange(self.data, self.pos, self.pos + n);
        assert(bytes@ =~= old(self).rest().take(n as int));
        self.pos = self.pos + n;
        Ok(bytes)
    }

    /// The next `n` bytes, or `Truncated` when fewer remain.
    pub fn read_bytes(&mut self, n: usize) -> (r: Result<&'a [u8], ProtoError>)
        ensures
            final(self).data() == old(self).data(),
            n <= old(self).rest().len() ==> (r matches Ok(bytes) && bytes@ == old(self).rest().take(n as int)
                && final(self).pos() == old(self).pos() + n),
            n > old(self).rest().len() ==> r == Err::<&'a [u8], ProtoError>(ProtoError::Truncated)
                && final(self).pos() == old(self).pos(),
    {
        self.take(n)
    }
}


/// The outcome of a fixed-size read of `n` bytes: the value when enough
/// bytes remain (and the cursor moves by `n`), `Truncated` otherwise (and
/// the cursor stays).
pub open spec fn fixed_read<T>(rest: Seq<u8>, pos_before: nat, pos_after: nat, n: nat, r: Result<T, ProtoError>, value: T) -> bool {
    if n <= rest.len() {
        r == Ok::<T, ProtoError>(value) && pos_after == pos_before + n
    } else {
        r == Err::<T, ProtoError>(ProtoError::Truncated) && pos_after == pos_before
    }
}

/// The string at the front of `bytes` (VarInt length, then UTF-8), and how
/// many bytes reading it consumes, also when it fails.
pub open spec fn spec_read_string(bytes: Seq<u8>) -> (Result<Seq<char>, ProtoError>, nat) {
    match spec_decode_varint(bytes) {
        Err(e) => (Err(e), 0),
        Ok(None) => (Err(ProtoError::Truncated), 0),
        Ok(Some((len, n))) => {
            if !(0 <= len <= MAX_STRING_BYTES) {
                (Err(ProtoError::StringTooLong(len)), n as nat)
            } else if n + len > bytes.len() {
                (Err(ProtoError::Truncated), n as nat)
            } else {
                let body = bytes.subrange(n as int, n + len);
                if valid_utf8(body) {
                    (Ok(decode_utf8(body)), (n + len) as nat)
                } else {
                    (Err(ProtoError::InvalidUtf8), (n + len) as nat)
                }
            }
        }
    }
}

/// The string at the front of `bytes` with a big-endian u16 length prefix.
pub open spec fn spec_read_u16_string(bytes: Seq<u8>) -> (Result<Seq<char>, ProtoError>, nat) {
    if bytes.len() < 2 {
        (Err(ProtoError::Truncated), 0)
    } else {
        let len = u16_from_be(bytes.take(2)) as nat;
        if 2 + len > bytes.len() {
            (Err(ProtoError::Truncated), 2)
        } else {
            let body = bytes.subrange(2, 2 + len as int);
            if valid_utf8(body) {
                (Ok(decode_utf8(body)), 2 + len)
            } else {
                (Err(ProtoError::InvalidUtf8), 2 + len)
            }
        }
    }
}

proof fn lemma_varint_decode_len(bytes: Seq<u8>, i: nat, acc: u32)
    ensures
        varint_decode_from(bytes, i, acc) matches Ok(Some((_, n))) ==> i < n <= bytes.len() && n <= 5,
    decreases 5 - i,
{
    if i < 5 && i < bytes.len() {
        lemma_varint_decode_len(bytes, i + 1, acc | (((bytes[i as int] & 0x7F) as u32) << ((7 * i) as u32)));
    }
}

proof fn lemma_varlong_decode_len(bytes: Seq<u8>, i: nat, acc: u64)
    ensures
        varlong_decode_from(bytes, i, acc) matches Ok(Some((_, n))) ==> i < n <= bytes.len() && n <= 10,
    decreases 10 - i,
{
    if i < 10 && i < bytes.len() {
        lemma_varlong_decode_len(bytes, i + 1, acc | (((bytes[i as int] & 0x7F) as u64) << ((7 * i) as u64)));
    }
}

/// A decoded VarInt never claims more bytes than it was given.
pub proof fn lemma_varint_prefix_len(bytes: Seq<u8>)
    ensures
        spec_decode_varint(bytes) matches Ok(Some((_, n))) ==> 1 <= n <= bytes.len() && n <= 5,
{
    lemma_varint_decode_len(bytes, 0, 0);
}

/// A decoded VarLong never claims more bytes than it was given.
pub proof fn lemma_varlong_prefix_len(bytes: Seq<u8>)
    ensures
        spec_decode_varlong(bytes) matches Ok(Some((_, n))) ==> 1 <= n <= bytes.len() && n <= 10,
{
    lemma_varlong_decode_len(bytes, 0, 0);
}

fn get_u64(b: &[u8], at: usize) -> (r: u64)
    requires
        at + 8 <= b@.len(),
    ensures
        r == u64_from_be(b@.subrange(at as int, at + 8)),
{
    ((b[at] as u64) << 56) | ((b[at + 1] as u64) << 48) | ((b[at + 2] as u64) << 40) | ((b[at + 3] as u64) << 32)
        | ((b[at + 4] as u64) << 24) | ((b[at + 5] as u64) << 16) | ((b[at + 6] as u64) << 8) | (b[at + 7] as u64)
}

impl<'a> Reader<'a> {
    pub fn read_u8(&mut self) -> (r: Result<u8, ProtoError>)
        ensures
            final(self).data() == old(self).data(),
            fixed_read(old(self).rest(), old(self).pos(), final(self).pos(), 1, r, old(self).rest()[0]),
    {
        let b = self.take(1)?;
        Ok(b[0])
    }

    pub fn read_i8(&mut self) -> (r: Result<i8, ProtoError>)
        ensures
            final(self).data() == old(self).data(),
            fixed_read(old(self).rest(), old(self).pos(), final(self).pos(), 1, r, old(self).rest()[0] as i8),
    {
        let b = self.take(1)?;
        Ok(b[0] as i8)
    }

    /// Any nonzero byte reads as `true`.
    pub fn read_bool(&mut self) -> (r: Result<bool, ProtoError>)
        ensures
            final(self).data() == old(self).data(),
            fixed_read(old(self).rest(), old(self).pos(), final(self).pos(), 1, r, old(self).rest()[0] != 0),
    {
        Ok(self.read_u8()? != 0)
    }

    pub fn read_u16(&mut self) -> (r: Result<u16, ProtoError>)
        ensures
            final(self).data() == old(self).data(),
            fixed_read(old(self).rest(), old(self).pos(), final(self).pos(), 2, r, u16_from_be(old(self).rest().take(2))),
    {
        let b = self.take(2)?;
        Ok(((b[0] as u16) << 8) | (b[1] as u16))
    }

    pub fn read_i16(&mut self) -> (r: Result<i16, ProtoError>)
        ensures
            final(self).data() == old(self).data(),
            fixed_read(old(self).rest(), old(self).pos(), final(self).pos(), 2, r, u16_from_be(old(self).rest().take(2)) as i16),
    {
        Ok(self.read_u16()? as i16)
    }

    pub fn read_u32(&mut self) -> (r: Result<u32, ProtoError>)
        ensures
            final(self).data() == old(self).data(),
            fixed_read(old(self).rest(), old(self).pos(), final(self).pos(), 4, r, u32_from_be(old(self).rest().take(4))),
    {
        let b = self.take(4)?;
        Ok(((b[0] as u32) << 24) | ((b[1] as u32) << 16) | ((b[2] as u32) << 8) | (b[3] as u32))
    }

    pub fn read_i32(&mut self) -> (r: Result<i32, ProtoError>)
        ensures
            final(self).data() == old(self).data(),
            fixed_read(old(self).rest(), old(self).pos(), final(self).pos(), 4, r, u32_from_be(old(self).rest().take(4)) as i32),
    {
        Ok(self.read_u32()? as i32)
    }

    pub fn read_u64(&mut self) -> (r: Result<u64, ProtoError>)
        ensures
            final(self).data() == old(self).data(),
            fixed_read(old(self).rest(), old(self).pos(), final(self).pos(), 8, r, u64_from_be(old(self).rest().take(8))),
    {
        let b = self.take(8)?;
        let v = get_u64(b, 0);
        assert(b@.subrange(0, 8) =~= b@);
        Ok(v)
    }

    pub fn read_i64(&mut self) -> (r: Result<i64, ProtoError>)
        ensures
            final(self).data() == old(self).data(),
            fixed_read(old(self).rest(), old(self).pos(), final(self).pos(), 8, r, u64_from_be(old(self).rest().take(8)) as i64),
    {
        Ok(self.read_u64()? as i64)
    }

    pub fn read_uuid(&mut self) -> (r: Result<u128, ProtoError>)
        ensures
            final(self).data() == old(self).data(),
            fixed_read(old(self).rest(), old(self).pos(), final(self).pos(), 16, r, u128_from_be(old(self).rest().take(16))),
    {
        let b = self.take(16)?;
        let hi = get_u64(b, 0);
        let lo = get_u64(b, 8);
        assert(b@.subrange(0, 8) =~= old(self).rest().take(16).subrange(0, 8));
        assert(b@.subrange(8, 16) =~= old(self).rest().take(16).subrange(8, 16));
        Ok(((hi as u128) << 64) | (lo as u128))
    }

    /// Reads a VarInt, consuming exactly its bytes; a truncated VarInt is
    /// `Truncated`, an overlong one `VarIntTooLong`, and both leave the
    /// cursor in place.
    pub fn read_varint(&mut self) -> (r: Result<i32, ProtoError>)
        ensures
            final(self).data() == old(self).data(),
            match spec_decode_varint(old(self).rest()) {
                Ok(Some((v, n))) => r == Ok::<i32, ProtoError>(v) && final(self).pos() == old(self).pos() + n,
                Ok(None) => r == Err::<i32, ProtoError>(ProtoError::Truncated) && final(self).pos() == old(self).pos(),
                Err(e) => r == Err::<i32, ProtoError>(e) && final(self).pos() == old(self).pos(),
            },
    {
        proof { use_type_invariant(&*self); }
        let rest = vstd::slice::slice_subrange(self.data, self.pos, self.data.len());
        assert(rest@ =~= old(self).rest());
        proof { lemma_varint_prefix_len(rest@); }
        match decode_varint_prefix(rest)? {
            Some((value, len)) => {
                self.pos = self.pos + len;
                Ok(value)
            }
            None => Err(ProtoError::Truncated),
        }
    }

    /// Reads a VarLong, consuming exactly its bytes.
    pub fn read_varlong(&mut self) -> (r: Result<i64, ProtoError>)
        ensures
            final(self).data() == old(self).data(),
            match spec_decode_varlong(old(self).rest()) {
                Ok(Some((v, n))) => r == Ok::<i64, ProtoError>(v) && final(self).pos() == old(self).pos() + n,
                Ok(None) => r == Err::<i64, ProtoError>(ProtoError::Truncated) && final(self).pos() == old(self).pos(),
                Err(e) => r == Err::<i64, ProtoError>(e) && final(self).pos() == old(self).pos(),
            },
    {
        proof { use_type_invariant(&*self); }
        let rest = vstd::slice::slice_subrange(self.data, self.pos, self.data.len());
        assert(rest@ =~= old(self).rest());
        proof { lemma_varlong_prefix_len(rest@); }
        match decode_varlong_prefix(rest)? {
            Some((value, len)) => {
                self.pos = self.pos + len;
                Ok(value)
            }
            None => Err(ProtoError::Truncated),
        }
    }

    /// Reads a VarInt-prefixed UTF-8 string of at most `MAX_STRING_BYTES`.
    pub fn read_string(&mut self) -> (r: Result<String, ProtoError>)
        ensures
            final(self).data() == old(self).data(),
            final(self).pos() == old(self).pos() + spec_read_string(old(self).rest()).1,
            match spec_read_string(old(self).rest()).0 {
                Ok(chars) => r matches Ok(s) && s@ == chars,
                Err(e) => r == Err::<String, ProtoError>(e),
            },
    {
        let ghost rest = old(self).rest();
        proof { lemma_varint_prefix_len(rest); }
        let len = self.read_varint()?;
        if !(0 <= len && len <= MAX_STRING_BYTES) {
            return Err(ProtoError::StringTooLong(len));
        }
        let ghost mid = self.rest();
        let bytes = self.take(len as usize)?;
        proof {
            let n = spec_decode_varint(rest).unwrap().unwrap().1;
            assert(mid =~= rest.skip(n as int));
            assert(bytes@ =~= rest.subrange(n as int, n + len));
        }
        match str_from_utf8(bytes) {
            Some(text) => Ok(text.to_owned()),
            None => Err(ProtoError::InvalidUtf8),
        }
    }

    /// Reads a string with a big-endian u16 byte-length prefix.
    pub fn read_u16_string(&mut self) -> (r: Result<String, ProtoError>)
        ensures
            final(self).data() == old(self).data(),
            final(self).pos() == old(self).pos() + spec_read_u16_string(old(self).rest()).1,
            match spec_read_u16_string(old(self).rest()).0 {
                Ok(chars) => r matches Ok(s) && s@ == chars,
                Err(e) => r == Err::<String, ProtoError>(e),
            },
    {
        let ghost rest = old(self).rest();
        let len = self.read_u16()? as usize;
        let ghost mid = self.rest();
        let bytes = self.take(len)?;
        proof {
            assert(mid =~= rest.skip(2));
            assert(bytes@ =~= rest.subrange(2, 2 + len));
        }
        match str_from_utf8(bytes) {
            Some(text) => Ok(text.to_owned()),
            None => Err(ProtoError::InvalidUtf8),
        }
    }

    /// Reads a packed block position as (x, y, z).
    pub fn read_position(&mut self) -> (r: Result<(i32, i32, i32), ProtoError>)
        ensures
            final(self).data() == old(self).data(),
            fixed_read(old(self).rest(), old(self).pos(), final(self).pos(), 8, r,
                unpack_position(u64_from_be(old(self).rest().take(8)))),
    {
        let packed = self.read_u64()?;
        Ok((sign_extend(packed >> 38, 26), sign_extend(packed, 12), sign_extend(packed >> 12, 26)))
    }
}


/// An append-only byte buffer that packets are built in.
#[derive(Debug)]
pub struct Writer {
    data: Vec<u8>,
}

impl View for Writer {
    type V = Seq<u8>;

    closed spec fn view(&self) -> Seq<u8> {
        self.data@
    }
}

impl Default for Writer {
    fn default() -> (r: Self)
        ensures
            r@ == Seq::<u8>::empty(),
    {
        Writer { data: Vec::new() }
    }
}

impl Writer {
    #[must_use]
    pub fn new() -> (r: Self)
        ensures
            r@ == Seq::<u8>::empty(),
    {
        Writer { data: Vec::new() }
    }

    pub fn write_u8(&mut self, value: u8)
        ensures
            final(self)@ == old(self)@.push(value),
    {
        self.data.push(value);
    }

    pub fn write_i8(&mut self, value: i8)
        ensures
            final(self)@ == old(self)@.push(value as u8),
    {
        self.data.push(value as u8);
    }

    /// `true` is written as 1, `false` as 0.
    pub fn write_bool(&mut self, value: bool)
        ensures
            final(self)@ == old(self)@.push(if value { 1u8 } else { 0u8 }),
    {
        self.data.push(if value { 1u8 } else { 0u8 });
    }

    pub fn write_u16(&mut self, value: u16)
        ensures
            final(self)@ == old(self)@ + u16_be(value),
    {
        self.data.push((value >> 8) as u8);
        self.data.push(value as u8);
        assert(self.data@ =~= old(self)@ + u16_be(value));
    }

    pub fn write_i16(&mut self, value: i16)
        ensures
            final(self)@ == old(self)@ + u16_be(value as u16),
    {
        self.write_u16(value as u16);
    }

    pub fn write_u32(&mut self, value: u32)
        ensures
            final(self)@ == old(self)@ + u32_be(value),
    {
        self.data.push((value >> 24) as u8);
        self.data.push((value >> 16) as u8);
        self.data.push((value >> 8) as u8);
        self.data.push(value as u8);
        assert(self.data@ =~= old(self)@ + u32_be(value));
    }

    pub fn write_i32(&mut self, value: i32)
        ensures
            final(self)@ == old(self)@ + u32_be(value as u32),
    {
        self.write_u32(value as u32);
    }

    pub fn write_u64(&mut self, value: u64)
        ensures
            final(self)@ == old(self)@ + u64_be(value),
    {
        self.data.push((value >> 56) as u8);
        self.data.push((value >> 48) as u8);
        self.data.push((value >> 40) as u8);
        self.data.push((value >> 32) as u8);
        self.data.push((value >> 24) as u8);
        self.data.push((value >> 16) as u8);
        self.data.push((value >> 8) as u8);
        self.data.push(value as u8);
        assert(self.data@ =~= old(self)@ + u64_be(value));
    }

    pub fn write_i64(&mut self, value: i64)
        ensures
            final(self)@ == old(self)@ + u64_be(value as u64),
    {
        self.write_u64(value as u64);
    }

    /// Appends the LEB128 form of the value's 32 bits.
    pub fn write_varint(&mut self, value: i32)
        ensures
            final(self)@ == old(self)@ + varint_encoding(value),
    {
        let ghost start = self.data@;
        let mut v: u32 = value as u32;
        loop
            invariant
                start == old(self)@,
                self.data@ + varint_bytes(v) == start + varint_bytes(value as u32),
            decreases v,
        {
            let byte = (v & 0x7F) as u8;
            let next = v >> 7;
            if next == 0 {
                let ghost before = self.data@;
                self.data.push(byte);
                assert(self.data@ =~= before + varint_bytes(v));
                assert(self.data@ == start + varint_bytes(value as u32));
                return;
            }
            let ghost before = self.data@;
            assert((((v & 0x7F) as u8) | 0x80) == (((v & 0x7F) | 0x80) as u8)) by (bit_vector);
            assert(v >> 7 != 0 ==> v >> 7 < v) by (bit_vector);
            self.data.push(byte | 0x80);
            assert(before + varint_bytes(v) =~= self.data@ + varint_bytes(next));
            v = next;
        }
    }

    /// Appends the LEB128 form of the value's 64 bits.
    pub fn write_varlong(&mut self, value: i64)
        ensures
            final(self)@ == old(self)@ + varlong_encoding(value),
    {
        let ghost start = self.data@;
        let mut v: u64 = value as u64;
        loop
            invariant
                start == old(self)@,
                self.data@ + varlong_bytes(v) == start + varlong_bytes(value as u64),
            decreases v,
        {
            let byte = (v & 0x7F) as u8;
            let next = v >> 7;
            if next == 0 {
                let ghost before = self.data@;
                self.data.push(byte);
                assert(self.data@ =~= before + varlong_bytes(v));
                assert(self.data@ == start + varlong_bytes(value as u64));
                return;
            }
            let ghost before = self.data@;
            assert((((v & 0x7F) as u8) | 0x80) == (((v & 0x7F) | 0x80) as u8)) by (bit_vector);
            assert(v >> 7 != 0 ==> v >> 7 < v) by (bit_vector);
            self.data.push(byte | 0x80);
            assert(before + varlong_bytes(v) =~= self.data@ + varlong_bytes(next));
            v = next;
        }
    }

    /// Appends the bytes unchanged.
    pub fn write_bytes(&mut self, bytes: &[u8])
        ensures
            final(self)@ == old(self)@ + bytes@,
    {
        let mut i: usize = 0;
        while i < bytes.len()
            invariant
                i <= bytes@.len(),
                self.data@ == old(self)@ + bytes@.take(i as int),
            decreases bytes.len() - i,
        {
            self.data.push(bytes[i]);
            i = i + 1;
            assert(self.data@ =~= old(self)@ + bytes@.take(i as int));
        }
        assert(bytes@.take(i as int) =~= bytes@);
    }

    /// Appends the UTF-8 byte count as a VarInt, then the UTF-8 bytes.
    pub fn write_string(&mut self, value: &str)
        ensures
            final(self)@ == old(self)@ + string_encoding(value@),
    {
        let bytes = value.as_bytes();
        self.write_varint(bytes.len() as i32);
        self.write_bytes(bytes);
        assert(self.data@ =~= old(self)@ + string_encoding(value@));
    }

    /// Appends the UTF-8 byte count as a big-endian u16, then the bytes.
    pub fn write_u16_string(&mut self, value: &str)
        requires
            encode_utf8(value@).len() <= u16::MAX,
        ensures
            final(self)@ == old(self)@ + u16_string_encoding(value@),
    {
        let bytes = value.as_bytes();
        self.write_u16(bytes.len() as u16);
        self.write_bytes(bytes);
        assert(self.data@ =~= old(self)@ + u16_string_encoding(value@));
    }

    pub fn write_uuid(&mut self, value: u128)
        ensures
            final(self)@ == old(self)@ + u128_be(value),
    {
        self.write_u64((value >> 64) as u64);
        self.write_u64(value as u64);
        assert(self.data@ =~= old(self)@ + u128_be(value));
    }

    /// Appends the packed 64-bit form of a block position.
    pub fn write_position(&mut self, x: i32, y: i32, z: i32)
        ensures
            final(self)@ == old(self)@ + u64_be(pack_position(x, y, z)),
    {
        let packed = (((x as u64) & 0x3FF_FFFF) << 38) | (((z as u64) & 0x3FF_FFFF) << 12) | ((y as u64) & 0xFFF);
        self.write_u64(packed);
    }

    #[must_use]
    pub fn into_bytes(self) -> (r: Vec<u8>)
        ensures
            r@ == self@,
    {
        self.data
    }
}


// ---------------------------------------------------------------------------
// Laws: what a write produces, a read gives back
// ---------------------------------------------------------------------------

proof fn lemma_varint_bits_last(w: u32)
    by (bit_vector)
    requires
        w >> 7 == 0,
    ensures
        ((((w & 0x7F) as u8) & 0x7F) as u32) == w,
        ((w & 0x7F) as u8) & 0x80 == 0,
{
}

proof fn lemma_varint_bits_more(w: u32)
    by (bit_vector)
    requires
        w >> 7 != 0,
    ensures
        (((((w & 0x7F) | 0x80) as u8) & 0x7F) as u32) == w & 0x7F,
        (((w & 0x7F) | 0x80) as u8) & 0x80 != 0,
        w >> 7 < w,
{
}

proof fn lemma_varint_bits_step(acc: u32, w: u32, k: u32, k7: u32)
    by (bit_vector)
    requires
        k <= 28,
        k7 == k + 7,
        acc >> k == 0,
        (w << k) >> k == w,
        w >> 7 != 0,
    ensures
        k < 25,
        (acc | ((w & 0x7F) << k)) >> k7 == 0,
        ((w >> 7) << k7) >> k7 == w >> 7,
        (acc | ((w & 0x7F) << k)) | ((w >> 7) << k7) == acc | (w << k),
{
}

proof fn lemma_varint_decode_encoded(bytes: Seq<u8>, i: nat, acc: u32, w: u32)
    requires
        i <= 4,
        acc >> ((7 * i) as u32) == 0,
        (w << ((7 * i) as u32)) >> ((7 * i) as u32) == w,
        i + varint_bytes(w).len() <= bytes.len(),
        bytes.subrange(i as int, (i + varint_bytes(w).len()) as int) == varint_bytes(w),
    ensures
        i + varint_bytes(w).len() <= 5,
        varint_decode_from(bytes, i, acc) == Ok::<Option<(i32, usize)>, ProtoError>(
            Some(((acc | (w << ((7 * i) as u32))) as i32, (i + varint_bytes(w).len()) as usize)),
        ),
    decreases w,
{
    let k = (7 * i) as u32;
    let enc = varint_bytes(w);
    assert(bytes[i as int] == bytes.subrange(i as int, (i + enc.len()) as int)[0]);
    if w >> 7 == 0 {
        lemma_varint_bits_last(w);
    } else {
        lemma_varint_bits_more(w);
        lemma_varint_bits_step(acc, w, k, (k + 7) as u32);
        let tail = varint_bytes(w >> 7);
        assert(enc == seq![((w & 0x7F) | 0x80) as u8] + tail);
        assert(bytes.subrange((i + 1) as int, (i + 1 + tail.len()) as int) =~= tail) by {
            assert(bytes.subrange((i + 1) as int, (i + 1 + tail.len()) as int) =~= bytes.subrange(i as int, (i + enc.len()) as int).subrange(1, enc.len() as int));
        }
        lemma_varint_decode_encoded(bytes, i + 1, acc | ((w & 0x7F) << k), w >> 7);
    }
}

/// Decoding stops for more bytes on any proper prefix of a VarInt's
/// encoding.
pub(crate) proof fn lemma_varint_decode_prefix(bytes: Seq<u8>, i: nat, acc: u32, w: u32)
    requires
        i + varint_bytes(w).len() <= 5,
        i <= bytes.len() < i + varint_bytes(w).len(),
        bytes.subrange(i as int, bytes.len() as int) == varint_bytes(w).take(bytes.len() - i),
    ensures
        varint_decode_from(bytes, i, acc) == Ok::<Option<(i32, usize)>, ProtoError>(None),
    decreases w,
{
    if i < bytes.len() {
        let enc = varint_bytes(w);
        assert(bytes[i as int] == bytes.subrange(i as int, bytes.len() as int)[0]);
        if w >> 7 == 0 {
            assert(enc.len() == 1);
        } else {
            lemma_varint_bits_more(w);
            let tail = varint_bytes(w >> 7);
            assert(enc == seq![((w & 0x7F) | 0x80) as u8] + tail);
            assert(bytes.subrange((i + 1) as int, bytes.len() as int) =~= tail.take(bytes.len() - (i + 1)));
            lemma_varint_decode_prefix(bytes, i + 1, acc | (((bytes[i as int] & 0x7F) as u32) << ((7 * i) as u32)), w >> 7);
        }
    }
}

proof fn lemma_varlong_bits_last(w: u64)
    by (bit_vector)
    requires
        w >> 7 == 0,
    ensures
        ((((w & 0x7F) as u8) & 0x7F) as u64) == w,
        ((w & 0x7F) as u8) & 0x80 == 0,
{
}

proof fn lemma_varlong_bits_more(w: u64)
    by (bit_vector)
    requires
        w >> 7 != 0,
    ensures
        (((((w & 0x7F) | 0x80) as u8) & 0x7F) as u64) == w & 0x7F,
        (((w & 0x7F) | 0x80) as u8) & 0x80 != 0,
        w >> 7 < w,
{
}

proof fn lemma_varlong_bits_step(acc: u64, w: u64, k: u64, k7: u64)
    by (bit_vector)
    requires
        k <= 63,
        k7 == k + 7,
        acc >> k == 0,
        (w << k) >> k == w,
        w >> 7 != 0,
    ensures
        k < 57,
        (acc | ((w & 0x7F) << k)) >> k7 == 0,
        ((w >> 7) << k7) >> k7 == w >> 7,
        (acc | ((w & 0x7F) << k)) | ((w >> 7) << k7) == acc | (w << k),
{
}

proof fn lemma_varlong_decode_encoded(bytes: Seq<u8>, i: nat, acc: u64, w: u64)
    requires
        i <= 9,
        acc >> ((7 * i) as u64) == 0,
        (w << ((7 * i) as u64)) >> ((7 * i) as u64) == w,
        i + varlong_bytes(w).len() <= bytes.len(),
        bytes.subrange(i as int, (i + varlong_bytes(w).len()) as int) == varlong_bytes(w),
    ensures
        i + varlong_bytes(w).len() <= 10,
        varlong_decode_from(bytes, i, acc) == Ok::<Option<(i64, usize)>, ProtoError>(
            Some(((acc | (w << ((7 * i) as u64))) as i64, (i + varlong_bytes(w).len()) as usize)),
        ),
    decreases w,
{
    let k = (7 * i) as u64;
    let enc = varlong_bytes(w);
    assert(bytes[i as int] == bytes.subrange(i as int, (i + enc.len()) as int)[0]);
    if w >> 7 == 0 {
        lemma_varlong_bits_last(w);
    } else {
        lemma_varlong_bits_more(w);
        lemma_varlong_bits_step(acc, w, k, (k + 7) as u64);
        let tail = varlong_bytes(w >> 7);
        assert(enc == seq![((w & 0x7F) | 0x80) as u8] + tail);
        assert(bytes.subrange((i + 1) as int, (i + 1 + tail.len()) as int) =~= tail) by {
            assert(bytes.subrange((i + 1) as int, (i + 1 + tail.len()) as int) =~= bytes.subrange(i as int, (i + enc.len()) as int).subrange(1, enc.len() as int));
        }
        lemma_varlong_decode_encoded(bytes, i + 1, acc | ((w & 0x7F) << k), w >> 7);
    }
}

/// VarInt round trip: decoding the bytes `write_varint(v)` appends, whatever
/// follows them, gives back `v` and consumes exactly those 1 to 5 bytes.
pub proof fn law_varint_roundtrip(v: i32, rest: Seq<u8>)
    ensures
        1 <= varint_encoding(v).len() <= 5,
        spec_decode_varint(varint_encoding(v) + rest) == Ok::<Option<(i32, usize)>, ProtoError>(
            Some((v, varint_encoding(v).len() as usize)),
        ),
{
    let w = v as u32;
    let enc = varint_bytes(w);
    let bytes = enc + rest;
    assert(0u32 >> 0u32 == 0u32) by (bit_vector);
    assert((w << 0u32) >> 0u32 == w) by (bit_vector);
    assert(bytes.subrange(0, enc.len() as int) =~= enc);
    lemma_varint_decode_encoded(bytes, 0, 0, w);
    assert(((0u32 | ((v as u32) << 0u32)) as i32) == v) by (bit_vector);
}

/// VarLong round trip: decoding the bytes `write_varlong(v)` appends gives
/// back `v` and consumes exactly those 1 to 10 bytes.
pub proof fn law_varlong_roundtrip(v: i64, rest: Seq<u8>)
    ensures
        1 <= varlong_encoding(v).len() <= 10,
        spec_decode_varlong(varlong_encoding(v) + rest) == Ok::<Option<(i64, usize)>, ProtoError>(
            Some((v, varlong_encoding(v).len() as usize)),
        ),
{
    let w = v as u64;
    let enc = varlong_bytes(w);
    let bytes = enc + rest;
    assert(0u64 >> 0u64 == 0u64) by (bit_vector);
    assert((w << 0u64) >> 0u64 == w) by (bit_vector);
    assert(bytes.subrange(0, enc.len() as int) =~= enc);
    lemma_varlong_decode_encoded(bytes, 0, 0, w);
    assert(((0u64 | ((v as u64) << 0u64)) as i64) == v) by (bit_vector);
}

/// Fixed-width round trips: every big-endian encoding the writer produces
/// reads back as the same value, signed types included.
pub proof fn law_fixed_width_roundtrip(a: u16, b: i16, c: u32, d: i32, e: u64, f: i64, g: u128, h: i8)
    ensures
        u16_from_be(u16_be(a)) == a,
        u16_from_be(u16_be(b as u16)) as i16 == b,
        u32_from_be(u32_be(c)) == c,
        u32_from_be(u32_be(d as u32)) as i32 == d,
        u64_from_be(u64_be(e)) == e,
        u64_from_be(u64_be(f as u64)) as i64 == f,
        u128_from_be(u128_be(g)) == g,
        ((h as u8) as i8) == h,
{
    assert((((((a >> 8) as u8) as u16) << 8) | (((a as u8) as u16))) == a) by (bit_vector);
    let bu = b as u16;
    assert((((((bu >> 8) as u8) as u16) << 8) | (((bu as u8) as u16))) == bu) by (bit_vector);
    assert((bu as i16) == b) by (bit_vector) requires bu == b as u16;
    assert((((((c >> 24) as u8) as u32) << 24) | ((((c >> 16) as u8) as u32) << 16) | ((((c >> 8) as u8) as u32) << 8) | ((c as u8) as u32)) == c) by (bit_vector);
    let du = d as u32;
    assert((((((du >> 24) as u8) as u32) << 24) | ((((du >> 16) as u8) as u32) << 16) | ((((du >> 8) as u8) as u32) << 8) | ((du as u8) as u32)) == du) by (bit_vector);
    assert((du as i32) == d) by (bit_vector) requires du == d as u32;
    lemma_u64_roundtrip(e);
    lemma_u64_roundtrip(f as u64);
    let fu = f as u64;
    assert((fu as i64) == f) by (bit_vector) requires fu == f as u64;
    let hi = (g >> 64) as u64;
    let lo = g as u64;
    lemma_u64_roundtrip(hi);
    lemma_u64_roundtrip(lo);
    assert(u128_be(g).subrange(0, 8) =~= u64_be(hi));
    assert(u128_be(g).subrange(8, 16) =~= u64_be(lo));
    assert((((hi as u128) << 64) | (lo as u128)) == g) by (bit_vector) requires hi == (g >> 64) as u64, lo == g as u64;
    assert(((h as u8) as i8) == h) by (bit_vector);
}

proof fn lemma_u64_roundtrip(e: u64)
    ensures
        u64_from_be(u64_be(e)) == e,
{
    assert((((((e >> 56) as u8) as u64) << 56) | ((((e >> 48) as u8) as u64) << 48) | ((((e >> 40) as u8) as u64) << 40)
        | ((((e >> 32) as u8) as u64) << 32) | ((((e >> 24) as u8) as u64) << 24) | ((((e >> 16) as u8) as u64) << 16)
        | ((((e >> 8) as u8) as u64) << 8) | ((e as u8) as u64)) == e) by (bit_vector);
}

/// String round trip: a string of at most `MAX_STRING_BYTES` UTF-8 bytes
/// written with `write_string` reads back as the same characters and
/// consumes exactly the written bytes.
pub proof fn law_string_roundtrip(s: Seq<char>, rest: Seq<u8>)
    requires
        encode_utf8(s).len() <= MAX_STRING_BYTES,
    ensures
        spec_read_string(string_encoding(s) + rest) == (Ok::<Seq<char>, ProtoError>(s), string_encoding(s).len()),
{
    let body = encode_utf8(s);
    let len = body.len() as i32;
    let prefix = varint_encoding(len);
    law_varint_roundtrip(len, body + rest);
    assert(string_encoding(s) + rest =~= prefix + (body + rest));
    let bytes = string_encoding(s) + rest;
    assert(bytes.subrange(prefix.len() as int, prefix.len() + len) =~= body);
    encode_utf8_valid_utf8(s);
    encode_utf8_decode_utf8(s);
}

/// Position round trip: a block position with x and z in 26-bit and y in
/// 12-bit two's-complement range packs and unpacks to itself.
pub proof fn law_position_roundtrip(x: i32, y: i32, z: i32)
    requires
        position_in_range(x, y, z),
    ensures
        unpack_position(pack_position(x, y, z)) == (x, y, z),
{
    let p = pack_position(x, y, z);
    assert(sign_extend_spec(p >> 38u64, 26) == x) by (bit_vector)
        requires p == (((x as u64) & 0x3FF_FFFF) << 38u64) | (((z as u64) & 0x3FF_FFFF) << 12u64) | ((y as u64) & 0xFFF),
            -0x200_0000 <= x < 0x200_0000;
    assert(sign_extend_spec(p, 12) == y) by (bit_vector)
        requires p == (((x as u64) & 0x3FF_FFFF) << 38u64) | (((z as u64) & 0x3FF_FFFF) << 12u64) | ((y as u64) & 0xFFF),
            -0x800 <= y < 0x800;
    assert(sign_extend_spec(p >> 12u64, 26) == z) by (bit_vector)
        requires p == (((x as u64) & 0x3FF_FFFF) << 38u64) | (((z as u64) & 0x3FF_FFFF) << 12u64) | ((y as u64) & 0xFFF),
            -0x200_0000 <= z < 0x200_0000;
}


/// A VarInt takes one to five bytes.
pub broadcast proof fn lemma_varint_encoding_len(v: i32)
    ensures
        1 <= #[trigger] varint_encoding(v).len() <= 5,
{
    law_varint_roundtrip(v, Seq::empty());
}

/// A character takes one to four UTF-8 bytes.
pub proof fn lemma_encode_utf8_len(chars: Seq<char>)
    ensures
        chars.len() <= encode_utf8(chars).len() <= 4 * chars.len(),
    decreases chars.len(),
{
    if chars.len() > 0 {
        lemma_encode_utf8_len(chars.drop_first());
    }
}

/// A VarLong takes one to ten bytes.
pub broadcast proof fn lemma_varlong_encoding_len(v: i64)
    ensures
        1 <= #[trigger] varlong_encoding(v).len() <= 10,
{
    law_varlong_roundtrip(v, Seq::empty());
}

} // verus!

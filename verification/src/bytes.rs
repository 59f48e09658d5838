//! Byte-level utilities: searching 32-byte words in buffers, integer
//! conversions, and unpacking of wire data into plain values.

use vstd::prelude::*;
use crate::U256;
use crate::error::ElusivError;

verus! {

/// Four 64-bit limbs of a 256-bit scalar, little-endian.
pub type ScalarLimbs = [u64; 4];

/// The wire size of a raw proof: two affine G1 points (65 bytes each) and
/// one affine G2 point (129 bytes).
pub const PROOF_BYTES_SIZE: usize = 259;

/// A raw, not yet deserialized proof.
pub type RawProof = [u8; 259];

/// The `i`-th 32-byte word of a buffer.
pub open spec fn word_at(buffer: Seq<u8>, i: int) -> Seq<u8> {
    buffer.subrange(32 * i, 32 * i + 32)
}

/// Whether the `i`-th 32-byte word of the buffer equals `bytes`.
pub open spec fn word_matches(buffer: Seq<u8>, i: int, bytes: Seq<u8>) -> bool {
    word_at(buffer, i) == bytes
}

fn word_eq_at(bytes: &U256, buffer: &[u8], i: usize) -> (r: bool)
    requires
        32 * i + 32 <= buffer@.len(),
    ensures
        r <==> word_matches(buffer@, i as int, bytes@),
{
    let blen = buffer.len();
    let mut j: usize = 0;
    while j < 32
        invariant
            j <= 32,
            32 * i + 32 <= buffer@.len(),
            buffer@.len() == blen,
            forall|k: int| 0 <= k < j ==> buffer@[32 * i + k] == bytes@[k],
        decreases 32 - j,
    {
        if buffer[32 * i + j] != bytes[j] {
            assert(word_at(buffer@, i as int)[j as int] != bytes@[j as int]);
            return false;
        }
        j += 1;
    }
    assert(word_at(buffer@, i as int) =~= bytes@);
    true
}

/// Finds the first 32-byte word of `buffer` equal to `bytes`; only the
/// leading `buffer.len() / 32` full words are searched.
pub fn find(bytes: U256, buffer: &[u8]) -> (r: Option<usize>)
    ensures
        match r {
            Some(i) => {
                &&& i < buffer@.len() / 32
                &&& word_matches(buffer@, i as int, bytes@)
                &&& forall|j: int| 0 <= j < i ==> !word_matches(buffer@, j, bytes@)
            },
            None => forall|j: int| 0 <= j < buffer@.len() / 32 ==> !word_matches(buffer@, j, bytes@),
        },
{
    let length = buffer.len() / 32;
    let mut i: usize = 0;
    while i < length
        invariant
            i <= length,
            length == buffer@.len() / 32,
            forall|j: int| 0 <= j < i ==> !word_matches(buffer@, j, bytes@),
        decreases length - i,
    {
        assert(32 * i + 32 <= buffer@.len()) by (nonlinear_arith)
            requires i < length, length == buffer@.len() / 32;
        if word_eq_at(&bytes, buffer, i) {
            return Some(i);
        }
        i += 1;
    }
    None
}

/// Whether some full 32-byte word of `buffer` equals `bytes`.
pub fn contains(bytes: U256, buffer: &[u8]) -> (r: bool)
    ensures
        r <==> exists|j: int| 0 <= j < buffer@.len() / 32 && word_matches(buffer@, j, bytes@),
{
    match find(bytes, buffer) {
        Some(i) => {
            assert(word_matches(buffer@, i as int, bytes@));
            true
        },
        None => false,
    }
}

/// Whether no full 32-byte word of `buffer` equals `bytes`.
pub fn not_contains(bytes: U256, buffer: &[u8]) -> (r: bool)
    ensures
        r <==> !exists|j: int| 0 <= j < buffer@.len() / 32 && word_matches(buffer@, j, bytes@),
{
    !contains(bytes, buffer)
}

/// Reads the first 8 bytes as a little-endian `u64`.
pub fn bytes_to_u64(bytes: &[u8]) -> (r: u64)
    requires
        bytes@.len() >= 8,
    ensures
        r == vstd::bytes::spec_u64_from_le_bytes(bytes@.subrange(0, 8)),
{
    let prefix = vstd::slice::slice_subrange(bytes, 0, 8);
    vstd::bytes::u64_from_le_bytes(prefix)
}

/// Reads the first 4 bytes as a little-endian `u32`.
pub fn bytes_to_u32(bytes: &[u8]) -> (r: u32)
    requires
        bytes@.len() >= 4,
    ensures
        r == vstd::bytes::spec_u32_from_le_bytes(bytes@.subrange(0, 4)),
{
    let prefix = vstd::slice::slice_subrange(bytes, 0, 4);
    vstd::bytes::u32_from_le_bytes(prefix)
}

/// Splits a little-endian `u64` off the front of `data`.
pub fn unpack_u64(data: &[u8]) -> (r: Result<(u64, &[u8]), ElusivError>)
    ensures
        match r {
            Ok((v, rest)) => {
                &&& data@.len() >= 8
                &&& v == vstd::bytes::spec_u64_from_le_bytes(data@.subrange(0, 8))
                &&& rest@ == data@.skip(8)
            },
            Err(e) => data@.len() < 8 && e == ElusivError::InvalidArgument,
        },
{
    if data.len() < 8 {
        return Err(ElusivError::InvalidArgument);
    }
    let value = bytes_to_u64(data);
    let rest = vstd::slice::slice_subrange(data, 8, data.len());
    assert(rest@ =~= data@.skip(8));
    Ok((value, rest))
}

/// Splits 32 bytes off the front of `data`.
pub fn unpack_32_bytes(data: &[u8]) -> (r: Result<(&[u8], &[u8]), ElusivError>)
    ensures
        match r {
            Ok((bytes, rest)) => {
                &&& data@.len() >= 32
                &&& bytes@ == data@.subrange(0, 32)
                &&& rest@ == data@.skip(32)
            },
            Err(e) => data@.len() < 32 && e == ElusivError::InvalidInstructionData,
        },
{
    if data.len() < 32 {
        return Err(ElusivError::InvalidInstructionData);
    }
    let bytes = vstd::slice::slice_subrange(data, 0, 32);
    let rest = vstd::slice::slice_subrange(data, 32, data.len());
    assert(rest@ =~= data@.skip(32));
    Ok((bytes, rest))
}

/// Splits a 256-bit word off the front of `data`.
pub fn unpack_u256(data: &[u8]) -> (r: Result<(U256, &[u8]), ElusivError>)
    ensures
        match r {
            Ok((word, rest)) => {
                &&& data@.len() >= 32
                &&& word@ == data@.subrange(0, 32)
                &&& rest@ == data@.skip(32)
            },
            Err(e) => data@.len() < 32 && e == ElusivError::InvalidInstructionData,
        },
{
    let (bytes, rest) = unpack_32_bytes(data)?;
    let word = deserialize_u256(bytes);
    Ok((word, rest))
}

/// Splits a 256-bit word off the front of `data`, as four 64-bit limbs.
pub fn unpack_limbs(data: &[u8]) -> (r: Result<(ScalarLimbs, &[u8]), ElusivError>)
    ensures
        match r {
            Ok((limbs, rest)) => {
                &&& data@.len() >= 32
                &&& forall|k: int|
                    0 <= k < 4 ==> limbs@[k] == vstd::bytes::spec_u64_from_le_bytes(
                        data@.subrange(8 * k, 8 * k + 8),
                    )
                &&& rest@ == data@.skip(32)
            },
            Err(e) => data@.len() < 32 && e == ElusivError::InvalidInstructionData,
        },
{
    let (bytes, rest) = unpack_32_bytes(data)?;
    let limbs = bytes_to_limbs(bytes);
    assert forall|k: int| 0 <= k < 4 implies limbs@[k] == vstd::bytes::spec_u64_from_le_bytes(
        data@.subrange(8 * k, 8 * k + 8),
    ) by {
        assert(bytes@.subrange(8 * k, 8 * k + 8) =~= data@.subrange(8 * k, 8 * k + 8));
    }
    Ok((limbs, rest))
}

/// Reads 32 bytes as four little-endian 64-bit limbs.
pub fn bytes_to_limbs(bytes: &[u8]) -> (r: ScalarLimbs)
    requires
        bytes@.len() >= 32,
    ensures
        forall|k: int|
            0 <= k < 4 ==> r@[k] == vstd::bytes::spec_u64_from_le_bytes(
                bytes@.subrange(8 * k, 8 * k + 8),
            ),
{
    let mut limbs: ScalarLimbs = [0; 4];
    let mut k: usize = 0;
    while k < 4
        invariant
            k <= 4,
            bytes@.len() >= 32,
            forall|j: int|
                0 <= j < k ==> limbs@[j] == vstd::bytes::spec_u64_from_le_bytes(
                    bytes@.subrange(8 * j, 8 * j + 8),
                ),
        decreases 4 - k,
    {
        let w = vstd::slice::slice_subrange(bytes, 8 * k, 8 * k + 8);
        limbs[k] = vstd::bytes::u64_from_le_bytes(w);
        k += 1;
    }
    limbs
}

/// Splits one byte off the front of `data`; the value is true exactly for
/// the byte 1.
pub fn unpack_bool(data: &[u8]) -> (r: Result<(bool, &[u8]), ElusivError>)
    ensures
        match r {
            Ok((b, rest)) => {
                &&& data@.len() >= 1
                &&& b == (data@[0] == 1)
                &&& rest@ == data@.skip(1)
            },
            Err(e) => data@.len() < 1 && e == ElusivError::InvalidInstructionData,
        },
{
    if data.len() < 1 {
        return Err(ElusivError::InvalidInstructionData);
    }
    let byte = data[0];
    let rest = vstd::slice::slice_subrange(data, 1, data.len());
    assert(rest@ =~= data@.skip(1));
    Ok((byte == 1, rest))
}

/// Splits a raw proof off the front of `data`.
pub fn unpack_raw_proof(data: &[u8]) -> (r: Result<(RawProof, &[u8]), ElusivError>)
    ensures
        match r {
            Ok((proof, rest)) => {
                &&& data@.len() >= PROOF_BYTES_SIZE
                &&& proof@ == data@.subrange(0, PROOF_BYTES_SIZE as int)
                &&& rest@ == data@.skip(PROOF_BYTES_SIZE as int)
            },
            Err(e) => data@.len() < PROOF_BYTES_SIZE && e == ElusivError::InvalidInstructionData,
        },
{
    if data.len() < PROOF_BYTES_SIZE {
        return Err(ElusivError::InvalidInstructionData);
    }
    let mut proof: RawProof = [0; 259];
    let mut i: usize = 0;
    while i < PROOF_BYTES_SIZE
        invariant
            i <= PROOF_BYTES_SIZE,
            data@.len() >= PROOF_BYTES_SIZE,
            forall|j: int| 0 <= j < i ==> proof@[j] == data@[j],
        decreases PROOF_BYTES_SIZE - i,
    {
        proof[i] = data[i];
        i += 1;
    }
    let rest = vstd::slice::slice_subrange(data, PROOF_BYTES_SIZE, data.len());
    assert(proof@ =~= data@.subrange(0, PROOF_BYTES_SIZE as int));
    assert(rest@ =~= data@.skip(PROOF_BYTES_SIZE as int));
    Ok((proof, rest))
}

/// Copies the first 32 bytes of `data` into a 256-bit word.
pub fn deserialize_u256(data: &[u8]) -> (r: U256)
    requires
        data@.len() >= 32,
    ensures
        r@ == data@.subrange(0, 32),
{
    let mut a: U256 = [0; 32];
    let mut i: usize = 0;
    while i < 32
        invariant
            i <= 32,
            data@.len() >= 32,
            forall|j: int| 0 <= j < i ==> a@[j] == data@[j],
        decreases 32 - i,
    {
        a[i] = data[i];
        i += 1;
    }
    assert(a@ =~= data@.subrange(0, 32));
    a
}

/// The 32 bytes of a 256-bit word, as a vector.
pub fn serialize_u256(value: U256) -> (r: Vec<u8>)
    ensures
        r@ == value@,
{
    let mut out: Vec<u8> = Vec::new();
    let mut i: usize = 0;
    while i < 32
        invariant
            i <= 32,
            out@ =~= value@.subrange(0, i as int),
        decreases 32 - i,
    {
        out.push(value[i]);
        i += 1;
    }
    assert(out@ =~= value@);
    out
}

/// Embeds a `u64` into the low 8 bytes of a 256-bit word.
pub fn u64_to_u256(value: u64) -> (r: U256)
    ensures
        r@.subrange(0, 8) == vstd::bytes::spec_u64_to_le_bytes(value),
        forall|j: int| 8 <= j < 32 ==> r@[j] == 0,
{
    let bytes = vstd::bytes::u64_to_le_bytes(value);
    let mut buffer: U256 = [0; 32];
    let mut i: usize = 0;
    while i < 8
        invariant
            i <= 8,
            bytes@.len() == 8,
            forall|j: int| 0 <= j < i ==> buffer@[j] == bytes@[j],
            forall|j: int| i <= j < 32 ==> buffer@[j] == 0,
        decreases 8 - i,
    {
        buffer[i] = bytes[i];
        i += 1;
    }
    assert(buffer@.subrange(0, 8) =~= bytes@);
    buffer
}

/// Rounds an integer division up; the divisor must be nonzero.
pub fn div_ceiling(divident: u64, divisor: u64) -> (r: u64)
    requires
        divisor != 0,
        divident + divisor <= u64::MAX,
    ensures
        r == (divident + divisor - 1) / divisor as int,
{
    (divident + divisor - 1) / divisor
}

/// Narrows a `u64` that is known to fit into a `u32`-sized `usize`.
pub fn u64_as_usize_safe(u: u64) -> (r: usize)
    requires
        u <= u32::MAX,
    ensures
        r == u,
{
    u as usize
}

/// Narrows a `u64` that is known to fit into a `u32`.
pub fn u64_as_u32_safe(u: u64) -> (r: u32)
    requires
        u <= u32::MAX,
    ensures
        r == u,
{
    u as u32
}

/// Narrows a `usize` that is known to fit into a `u32`.
pub fn usize_as_u32_safe(u: usize) -> (r: u32)
    requires
        u <= u32::MAX,
    ensures
        r == u,
{
    u as u32
}

/// The leading `SIZE` bytes of a slice as an array; the slice must cover
/// them.
pub fn slice_to_array<const SIZE: usize>(s: &[u8]) -> (r: [u8; SIZE])
    requires
        s@.len() >= SIZE,
    ensures
        r@ == s@.subrange(0, SIZE as int),
{
    let mut a = [0u8; SIZE];
    let mut i: usize = 0;
    while i < SIZE
        invariant
            i <= SIZE,
            s@.len() >= SIZE,
            a@.len() == SIZE,
            forall|j: int| 0 <= j < i ==> a@[j] == s@[j],
        decreases SIZE - i,
    {
        a[i] = s[i];
        i += 1;
    }
    assert(a@ =~= s@.subrange(0, SIZE as int));
    a
}

/// Whether every byte of `s` is zero.
pub fn is_zero(s: &[u8]) -> (r: bool)
    ensures
        r <==> forall|j: int| 0 <= j < s@.len() ==> s@[j] == 0,
{
    let mut i: usize = 0;
    while i < s.len()
        invariant
            i <= s@.len(),
            forall|j: int| 0 <= j < i ==> s@[j] == 0,
        decreases s@.len() - i,
    {
        if s[i] != 0 {
            return false;
        }
        i += 1;
    }
    true
}

} // verus!

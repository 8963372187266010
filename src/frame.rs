//! The frame layout of a container file.
//!
//! A frame is an eight-byte little-endian payload length, a four-byte masked
//! CRC-32C of those eight bytes, the payload, and a four-byte masked CRC-32C
//! of the payload. The checksums are compared only when integrity checking is
//! asked for.
use crate::error::Error;
use vstd::prelude::*;

verus! {

/// Bytes in the length field.
pub const LENGTH_FIELD_LEN: usize = 8;

/// Bytes before the payload: the length field and its checksum.
pub const HEADER_LEN: usize = 12;

/// Bytes after the payload: the payload's checksum.
pub const FOOTER_LEN: usize = 4;

/// The constant added to a rotated checksum to mask it.
pub const MASK_DELTA: u32 = 0xa282ead8;

/// The CRC-32C (Castagnoli) checksum of a byte sequence.
pub uninterp spec fn crc32c_of(bytes: Seq<u8>) -> u32;

/// The little-endian value of a byte sequence.
pub open spec fn le_value(s: Seq<u8>) -> nat
    decreases s.len(),
{
    if s.len() == 0 {
        0
    } else {
        s[0] as nat + 256 * le_value(s.drop_first())
    }
}

/// `256` to the power `n`.
pub open spec fn pow256(n: nat) -> nat
    decreases n,
{
    if n == 0 {
        1
    } else {
        256 * pow256((n - 1) as nat)
    }
}

/// A checksum rotated right by fifteen bits, plus the mask delta, modulo `2^32`.
pub open spec fn masked(c: u32) -> u32 {
    ((((c >> 15u32) | (c << 17u32)) as int + MASK_DELTA as int) % 0x1_0000_0000) as u32
}

/// The masked checksum that a frame stores for `bytes`.
pub open spec fn masked_crc_of(bytes: Seq<u8>) -> u32 {
    masked(crc32c_of(bytes))
}

/// Whether a frame header is complete and, when `checked`, carries the
/// checksum of its length field.
pub open spec fn header_accepted(h: Seq<u8>, checked: bool) -> bool {
    &&& h.len() == HEADER_LEN
    &&& checked ==> masked_crc_of(h.subrange(0, 8)) as nat == le_value(h.subrange(8, 12))
}

/// Whether the bytes that follow a header announcing `len` payload bytes hold
/// the payload and its checksum, the latter matching when `checked`.
pub open spec fn body_accepted(b: Seq<u8>, len: nat, checked: bool) -> bool {
    &&& b.len() == len + FOOTER_LEN
    &&& checked ==> masked_crc_of(b.subrange(0, len as int)) as nat == le_value(
        b.subrange(len as int, len + FOOTER_LEN),
    )
}

/// Relies on crc's CRC-32/ISCSI algorithm, which is CRC-32C: the checksum
/// depends on the bytes alone.
#[verifier::external_body]
fn crc32c(bytes: &[u8]) -> (r: u32)
    ensures
        r == crc32c_of(bytes@),
{
    crc::Crc::<u32>::new(&crc::CRC_32_ISCSI).checksum(bytes)
}

proof fn lemma_le_value_bound(s: Seq<u8>)
    ensures
        le_value(s) < pow256(s.len()),
    decreases s.len(),
{
    if s.len() > 0 {
        lemma_le_value_bound(s.drop_first());
        let r = le_value(s.drop_first());
        let p = pow256((s.len() - 1) as nat);
        assert(s[0] as nat + 256 * r < 256 * p) by (nonlinear_arith)
            requires
                s[0] < 256,
                r < p,
        ;
    }
}

/// Reads `width` bytes from `start` as a little-endian integer.
pub fn read_le(bytes: &[u8], start: usize, width: usize) -> (r: u64)
    requires
        width <= 8,
        start + width <= bytes@.len(),
    ensures
        r as nat == le_value(bytes@.subrange(start as int, start + width)),
{
    let ghost whole = bytes@.subrange(start as int, start + width);
    let total = bytes.len();
    let mut v: u64 = 0;
    let mut i: usize = width;
    assert(bytes@.subrange(start + i, start + width).len() == 0);
    while i > 0
        invariant
            i <= width <= 8,
            start + width <= bytes@.len(),
            total == bytes@.len(),
            v as nat == le_value(bytes@.subrange(start + i, start + width)),
        decreases i,
    {
        let ghost tail = bytes@.subrange(start + i, start + width);
        let ghost next = bytes@.subrange(start + i - 1, start + width);
        assert(next.drop_first() =~= tail);
        proof {
            lemma_le_value_bound(next);
            lemma_pow256_eight();
            lemma_pow256_monotone(next.len(), 8);
        }
        let k: usize = start + i - 1;
        assert(next[0] == bytes@[k as int]);
        v = v * 256 + bytes[k] as u64;
        i = i - 1;
    }
    v
}

proof fn lemma_pow256_eight()
    ensures
        pow256(8) == 0x1_0000_0000_0000_0000,
{
    reveal_with_fuel(pow256, 9);
}

proof fn lemma_pow256_monotone(a: nat, b: nat)
    requires
        a <= b,
    ensures
        pow256(a) <= pow256(b),
    decreases b,
{
    if a < b {
        lemma_pow256_monotone(a, (b - 1) as nat);
    }
}

/// Masks a checksum as frames store it.
pub fn mask(c: u32) -> (r: u32)
    ensures
        r == masked(c),
{
    let rot: u32 = (c >> 15u32) | (c << 17u32);
    (((rot as u64) + (MASK_DELTA as u64)) % 0x1_0000_0000) as u32
}

/// The masked CRC-32C of `bytes`.
pub fn masked_crc(bytes: &[u8]) -> (r: u32)
    ensures
        r == masked_crc_of(bytes@),
{
    mask(crc32c(bytes))
}

/// Whether four stored bytes hold the masked form of checksum `crc`.
pub fn checksum_matches(stored: &[u8], crc: u32) -> (r: bool)
    requires
        stored@.len() == FOOTER_LEN,
    ensures
        r == (masked(crc) as nat == le_value(stored@)),
{
    let expected = read_le(stored, 0, FOOTER_LEN);
    assert(stored@.subrange(0, 4) =~= stored@);
    mask(crc) as u64 == expected
}

/// Reads a frame's length from the bytes at a frame boundary: `header` holds
/// all the bytes that were there, up to `HEADER_LEN`.
///
/// No bytes is the clean end of the container, `None`. A header cut short,
/// or one whose checksum does not match when `check_integrity` is set, is a
/// corruption error.
pub fn read_frame_length(header: &[u8], check_integrity: bool) -> (r: Result<Option<u64>, Error>)
    requires
        header@.len() <= HEADER_LEN,
    ensures
        r matches Ok(None) <==> header@.len() == 0,
        r matches Ok(Some(_)) <==> header_accepted(header@, check_integrity),
        r matches Ok(Some(n)) ==> n as nat == le_value(header@.subrange(0, 8)),
        r is Err ==> r->Err_0 is Corruption,
{
    if header.len() == 0 {
        return Ok(None);
    }
    if header.len() < HEADER_LEN {
        return Err(Error::corruption("truncated frame length"));
    }
    let len = read_le(header, 0, LENGTH_FIELD_LEN);
    if check_integrity && !checksum_matches(
        &header[LENGTH_FIELD_LEN..HEADER_LEN],
        crc32c(&header[0..LENGTH_FIELD_LEN]),
    ) {
        return Err(Error::corruption("frame length checksum mismatch"));
    }
    Ok(Some(len))
}

/// Checks the bytes that follow a header announcing `len` payload bytes:
/// `body` holds all the bytes that were there, up to `len + FOOTER_LEN`.
///
/// A body cut short, or one whose payload checksum does not match when
/// `check_integrity` is set, is a corruption error.
pub fn check_frame_body(body: &[u8], len: u64, check_integrity: bool) -> (r: Result<(), Error>)
    ensures
        r is Ok <==> body_accepted(body@, len as nat, check_integrity),
        r is Err ==> r->Err_0 is Corruption,
{
    if (body.len() as u64) < len || body.len() - (len as usize) != FOOTER_LEN {
        return Err(Error::corruption("truncated frame payload"));
    }
    let n = len as usize;
    if check_integrity && !checksum_matches(&body[n..body.len()], crc32c(&body[0..n])) {
        return Err(Error::corruption("frame payload checksum mismatch"));
    }
    Ok(())
}

} // verus!

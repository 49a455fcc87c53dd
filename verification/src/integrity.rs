//! Checksum verification for copied files.
//!
//! A copy is trusted only if the bytes read back from the destination carry
//! the same 32-bit cyclic-redundancy checksum as the bytes read from the
//! origin. The checksum detects copy corruption, nothing more.
use vstd::prelude::*;

verus! {

/// The CRC-32 checksum of a byte sequence.
pub uninterp spec fn crc32_of(bytes: Seq<u8>) -> u32;

/// Relies on `crc32fast::hash`: the CRC-32 (IEEE) checksum of the byte
/// slice, a function of the bytes alone.
#[verifier::external_body]
pub(crate) fn crc32(bytes: &[u8]) -> (r: u32)
    ensures
        r == crc32_of(bytes@),
{
    crc32fast::hash(bytes)
}

/// Why one file's copy failed.
#[derive(Clone, Copy, Debug, PartialEq, Eq, Structural)]
pub enum CopyFailure {
    /// The origin could not be read.
    ReadOrigin,
    /// The destination could not be written.
    Write,
    /// The destination could not be read back for verification.
    ReadBack,
    /// The destination's checksum differs from the origin's.
    Mismatch { origin_crc: u32, dest_crc: u32 },
}

/// Verifies one finished copy: the checksum of the bytes read from the
/// origin against the checksum of the bytes read back from the destination.
/// Equal checksums return the common value; different ones are an integrity
/// failure carrying both.
pub fn verify_copy(origin: &Vec<u8>, dest: &Vec<u8>) -> (r: Result<u32, CopyFailure>)
    ensures
        crc32_of(origin@) == crc32_of(dest@) ==> r == Ok::<u32, CopyFailure>(crc32_of(origin@)),
        crc32_of(origin@) != crc32_of(dest@) ==> r == Err::<u32, CopyFailure>(
            CopyFailure::Mismatch { origin_crc: crc32_of(origin@), dest_crc: crc32_of(dest@) },
        ),
{
    let origin_crc = crc32(origin.as_slice());
    let dest_crc = crc32(dest.as_slice());
    if origin_crc == dest_crc {
        Ok(origin_crc)
    } else {
        Err(CopyFailure::Mismatch { origin_crc, dest_crc })
    }
}

} // verus!

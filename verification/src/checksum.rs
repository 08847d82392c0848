//! Checking a downloaded archive of the native library against its SHA-256
//! checksum.

use vstd::prelude::*;

use crate::bytes::bytes_equal;

verus! {

/// The SHA-256 digest of `data`.
pub uninterp spec fn sha256(data: Seq<u8>) -> Seq<u8>;

/// The longest input, in bytes, of which a digest can be computed: its
/// length in bits has to fit in 64 bits.
pub const MAX_DIGEST_INPUT: u64 = 0x1fff_ffff_ffff_ffff;

/// The lowercase hexadecimal digit of a value below 16, as an ASCII byte.
pub open spec fn hex_digit(value: int) -> u8 {
    if value < 10 {
        (48 + value) as u8
    } else {
        (87 + value) as u8
    }
}

/// `data` written in lowercase hexadecimal digits, two for each byte, the
/// high half of the byte first.
pub open spec fn hex_of(data: Seq<u8>) -> Seq<u8> {
    Seq::new(
        2 * data.len(),
        |i: int|
            if i % 2 == 0 {
                hex_digit(data[i / 2] as int / 16)
            } else {
                hex_digit(data[i / 2] as int % 16)
            },
    )
}

/// Computes the SHA-256 digest of `data` with `ring::digest::digest`.
///
/// The contract names the result: the digest is a function of the data
/// alone. The call fails on data whose length in bits does not fit in 64
/// bits, so such data is excluded.
#[verifier::external_body]
fn sha256_digest(data: &[u8]) -> (digest: Vec<u8>)
    requires
        data@.len() <= MAX_DIGEST_INPUT,
    ensures
        digest@ == sha256(data@),
{
    ring::digest::digest(&ring::digest::SHA256, data).as_ref().to_vec()
}

/// Writes `data` in hexadecimal with `hex::encode`.
///
/// The contract claims what the documentation of the function says: the
/// digits are lowercase, and each byte is written with exactly two of them,
/// the high half first.
#[verifier::external_body]
fn hex_encode(data: &[u8]) -> (text: Vec<u8>)
    ensures
        text@ == hex_of(data@),
{
    hex::encode(data).into_bytes()
}

/// Why a file does not pass the check of its checksum.
#[derive(Clone, Debug, PartialEq, Eq)]
pub enum ChecksumError {
    /// The digest of the file, given here in hexadecimal, is not the
    /// expected one.
    Mismatch { actual: Vec<u8> },
    /// The file is too long for a digest.
    InputTooLong,
}

/// Whether `digest`, written in lowercase hexadecimal, is `expected_hex`.
pub fn digest_matches(digest: &[u8], expected_hex: &[u8]) -> (matches: bool)
    ensures
        matches == (hex_of(digest@) == expected_hex@),
{
    let actual = hex_encode(digest);
    bytes_equal(actual.as_slice(), expected_hex)
}

/// Checks the content of a file against its SHA-256 checksum, given in
/// lowercase hexadecimal. The error holds the checksum that the content
/// has.
pub fn verify_sha256(contents: &[u8], expected_hex: &[u8]) -> (r: Result<(), ChecksumError>)
    ensures
        contents@.len() > MAX_DIGEST_INPUT ==> r == Err::<(), ChecksumError>(
            ChecksumError::InputTooLong,
        ),
        contents@.len() <= MAX_DIGEST_INPUT ==> {
            &&& r is Ok <==> hex_of(sha256(contents@)) == expected_hex@
            &&& r is Err ==> (r->Err_0 matches ChecksumError::Mismatch { actual } && actual@
                == hex_of(sha256(contents@)))
        },
{
    if contents.len() as u64 > MAX_DIGEST_INPUT {
        return Err(ChecksumError::InputTooLong);
    }
    let digest = sha256_digest(contents);
    let actual = hex_encode(digest.as_slice());
    if bytes_equal(actual.as_slice(), expected_hex) {
        Ok(())
    } else {
        Err(ChecksumError::Mismatch { actual })
    }
}

} // verus!

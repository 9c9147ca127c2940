//! Unpacking the encrypted metadata file: an opaque header, then the
//! ciphertext of a payload that must begin with the metadata signature.

use vstd::prelude::*;
use crate::cipher::{decrypt, decrypted, encrypted, lemma_decrypt_inverts_encrypt};
use crate::error::UnpackError;

verus! {

/// Number of bytes at the start of the encrypted file that are passed over.
pub const HEADER_LEN: usize = 21;

/// The signature that metadata begins with, its four bytes read as a
/// little-endian number.
pub const METADATA_SIGNATURE: u32 = 0xFAB11BAF;

/// What follows the header of an encrypted file; nothing where the file is
/// no longer than the header.
pub open spec fn ciphertext(file: Seq<u8>) -> Seq<u8> {
    if file.len() >= HEADER_LEN {
        file.skip(HEADER_LEN as int)
    } else {
        Seq::empty()
    }
}

/// The first four bytes of `payload` read as a little-endian number, where
/// it has that many.
pub open spec fn signature(payload: Seq<u8>) -> Option<u32> {
    if payload.len() < 4 {
        None
    } else {
        Some(
            (payload[0] + 0x100 * payload[1] + 0x1_0000 * payload[2] + 0x100_0000
                * payload[3]) as u32,
        )
    }
}

/// What a payload is taken for: itself where it begins with the metadata
/// signature, a mismatch that reports what was read where it does not.
pub open spec fn checked(payload: Seq<u8>) -> Result<Seq<u8>, UnpackError> {
    if signature(payload) == Some(METADATA_SIGNATURE) {
        Ok(payload)
    } else {
        Err(
            UnpackError::SignatureMismatch {
                found: signature(payload),
                expected: METADATA_SIGNATURE,
            },
        )
    }
}

/// What an encrypted file unpacks to under `key`.
pub open spec fn unpacked(file: Seq<u8>, key: Seq<u8>) -> Result<Seq<u8>, UnpackError> {
    checked(decrypted(ciphertext(file), key))
}

/// Reads the signature that `payload` begins with.
pub fn read_signature(payload: &[u8]) -> (sig: Option<u32>)
    ensures
        sig == signature(payload@),
{
    if payload.len() < 4 {
        None
    } else {
        let b0: u32 = payload[0] as u32;
        let b1: u32 = payload[1] as u32;
        let b2: u32 = payload[2] as u32;
        let b3: u32 = payload[3] as u32;
        Some(b0 + 0x100 * b1 + 0x1_0000 * b2 + 0x100_0000 * b3)
    }
}

/// Passes over the header of `file`, decrypts the rest with `key`, and hands
/// out the payload where it begins with the metadata signature.
pub fn decrypt_metadata(file: &[u8], key: &[u8; 42]) -> (r: Result<Vec<u8>, UnpackError>)
    ensures
        match r {
            Ok(payload) => unpacked(file@, key@) == Ok::<Seq<u8>, UnpackError>(payload@),
            Err(e) => unpacked(file@, key@) == Err::<Seq<u8>, UnpackError>(e),
        },
{
    let body: &[u8] = if file.len() >= HEADER_LEN {
        vstd::slice::slice_subrange(file, HEADER_LEN, file.len())
    } else {
        vstd::slice::slice_subrange(file, 0, 0)
    };
    assert(body@ =~= ciphertext(file@));
    let payload = decrypt(body, key);
    let found = read_signature(payload.as_slice());
    match found {
        Some(sig) if sig == METADATA_SIGNATURE => Ok(payload),
        _ => Err(UnpackError::SignatureMismatch { found, expected: METADATA_SIGNATURE }),
    }
}

/// A file made of any header of the fixed length and the ciphertext of a
/// payload that begins with the metadata signature unpacks to that payload
/// under the key it was encrypted with.
pub proof fn lemma_unpack_inverts_pack(header: Seq<u8>, payload: Seq<u8>, key: Seq<u8>)
    requires
        header.len() == HEADER_LEN,
        signature(payload) == Some(METADATA_SIGNATURE),
    ensures
        unpacked(header + encrypted(payload, key), key) == Ok::<Seq<u8>, UnpackError>(payload),
{
    let file = header + encrypted(payload, key);
    assert(ciphertext(file) =~= encrypted(payload, key));
    lemma_decrypt_inverts_encrypt(payload, key);
}

/// No payload passes that does not begin with the metadata signature: the
/// file is refused with the signature that was read.
pub proof fn lemma_signature_gate(file: Seq<u8>, key: Seq<u8>)
    requires
        signature(decrypted(ciphertext(file), key)) != Some(METADATA_SIGNATURE),
    ensures
        unpacked(file, key) == Err::<Seq<u8>, UnpackError>(
            UnpackError::SignatureMismatch {
                found: signature(decrypted(ciphertext(file), key)),
                expected: METADATA_SIGNATURE,
            },
        ),
{
}

} // verus!

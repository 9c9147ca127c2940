use metadata_unpacker::error::UnpackError;
use metadata_unpacker::metadata::{
    decrypt_metadata, read_signature, HEADER_LEN, METADATA_SIGNATURE,
};

fn counting_key() -> [u8; 42] {
    let mut key = [0u8; 42];
    for (i, k) in key.iter_mut().enumerate() {
        *k = (i + 1) as u8;
    }
    key
}

fn pack(header: &[u8], payload: &[u8], key: &[u8; 42]) -> Vec<u8> {
    let mut file = header.to_vec();
    for (i, p) in payload.iter().enumerate() {
        file.push(p.wrapping_add(key[i % 42]));
    }
    file
}

fn mismatch(found: Option<u32>) -> UnpackError {
    UnpackError::SignatureMismatch { found, expected: 0xFAB11BAF }
}

#[test]
fn constants_of_the_format() {
    assert_eq!(HEADER_LEN, 21);
    assert_eq!(METADATA_SIGNATURE, 0xFAB11BAF);
}

#[test]
fn signature_is_read_little_endian() {
    assert_eq!(read_signature(&[0xAF, 0x1B, 0xB1, 0xFA]), Some(0xFAB11BAF));
    assert_eq!(read_signature(&[0x01, 0x02, 0x03, 0x04, 0x05]), Some(0x04030201));
    assert_eq!(read_signature(&[0xff, 0xff, 0xff, 0xff]), Some(u32::MAX));
    assert_eq!(read_signature(&[0, 0, 0, 0, 9, 9]), Some(0));
}

#[test]
fn signature_needs_four_bytes() {
    assert_eq!(read_signature(&[]), None);
    assert_eq!(read_signature(&[0xAF, 0x1B, 0xB1]), None);
}

#[test]
fn signature_added_to_the_key_decrypts_to_the_signature() {
    let key = counting_key();
    let mut file = vec![0u8; 21];
    file.extend_from_slice(&[0xB0, 0x1D, 0xB4, 0xFE]);
    assert_eq!(decrypt_metadata(&file, &key), Ok(vec![0xAF, 0x1B, 0xB1, 0xFA]));
}

#[test]
fn other_bytes_under_that_key_fail_the_signature() {
    let key = counting_key();
    let mut file = vec![0u8; 21];
    file.extend_from_slice(&[0xFB, 0x21, 0x1C, 0xC0]);
    assert_eq!(decrypt_metadata(&file, &key), Err(mismatch(Some(0xBC191FFA))));
}

#[test]
fn packed_payload_comes_back() {
    let key = counting_key();
    let mut payload = vec![0xAF, 0x1B, 0xB1, 0xFA];
    payload.extend((0..300u32).map(|i| (i * 31 + 5) as u8));
    let header: Vec<u8> = (100..121u8).collect();
    assert_eq!(decrypt_metadata(&pack(&header, &payload, &key), &key), Ok(payload));
}

#[test]
fn header_is_neither_decrypted_nor_checked() {
    let key = counting_key();
    let payload = [0xAF, 0x1B, 0xB1, 0xFA, 1, 2, 3];
    let zeros = pack(&[0u8; 21], &payload, &key);
    let ones = pack(&[0xffu8; 21], &payload, &key);
    assert_eq!(decrypt_metadata(&zeros, &key), Ok(payload.to_vec()));
    assert_eq!(decrypt_metadata(&ones, &key), Ok(payload.to_vec()));
}

#[test]
fn wrong_key_fails_the_signature() {
    let key = counting_key();
    let file = pack(&[0u8; 21], &[0xAF, 0x1B, 0xB1, 0xFA, 42], &key);
    let mut wrong = key;
    wrong[3] = 5;
    assert_eq!(decrypt_metadata(&file, &wrong), Err(mismatch(Some(0xF9B11BAF))));
}

#[test]
fn payload_that_is_not_metadata_is_refused() {
    let key = counting_key();
    let file = pack(&[0u8; 21], b"plain text, no metadata", &key);
    assert_eq!(
        decrypt_metadata(&file, &key),
        Err(mismatch(Some(u32::from_le_bytes([b'p', b'l', b'a', b'i']))))
    );
}

#[test]
fn file_too_short_for_a_signature_is_refused() {
    let key = counting_key();
    assert_eq!(decrypt_metadata(&[], &key), Err(mismatch(None)));
    assert_eq!(decrypt_metadata(&[0u8; 20], &key), Err(mismatch(None)));
    assert_eq!(decrypt_metadata(&[0u8; 21], &key), Err(mismatch(None)));
    let mut file = vec![0u8; 21];
    file.extend_from_slice(&[0xB0, 0x1D, 0xB4]);
    assert_eq!(decrypt_metadata(&file, &key), Err(mismatch(None)));
}

#[test]
fn signature_alone_is_a_payload() {
    let key = counting_key();
    let file = pack(&[7u8; 21], &[0xAF, 0x1B, 0xB1, 0xFA], &key);
    assert_eq!(file.len(), 25);
    assert_eq!(decrypt_metadata(&file, &key), Ok(vec![0xAF, 0x1B, 0xB1, 0xFA]));
}

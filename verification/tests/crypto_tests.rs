use filecrypt::codec::{decode_container, encode_container};
use filecrypt::{decrypt, encrypt, CryptoError, EncFile, EncFileBody, PlainData};

fn round_trip_one(payload: Vec<u8>, name: &[u8], password: &[u8]) {
    let plain = PlainData {
        data: payload.clone(),
        file_name: name.to_vec(),
    };
    let ef = encrypt(&plain, password).unwrap();
    let bytes = encode_container(&ef);
    let back = decrypt(&bytes, password).unwrap();
    assert_eq!(back.data, payload);
    assert_eq!(back.file_name, name.to_vec());
}

/// Deterministic pseudo-random filler, so the large-file test needs no
/// randomness source of its own.
fn lcg_bytes(n: usize, mut state: u64) -> Vec<u8> {
    let mut out = Vec::with_capacity(n);
    for _ in 0..n {
        state = state
            .wrapping_mul(6364136223846793005)
            .wrapping_add(1442695040888963407);
        out.push((state >> 56) as u8);
    }
    out
}

fn encrypt_to_bytes(payload: &[u8], name: &[u8], password: &[u8]) -> (EncFile, Vec<u8>) {
    let plain = PlainData {
        data: payload.to_vec(),
        file_name: name.to_vec(),
    };
    let ef = encrypt(&plain, password).unwrap();
    let bytes = encode_container(&ef);
    (ef, bytes)
}

#[test]
fn test_encryption_decryption_file_match() {
    let password = b"abc123@";
    let cases: Vec<Vec<u8>> = vec![
        Vec::new(),
        b"hello world".to_vec(),
        vec![0u8; 4096],
        lcg_bytes(100_000, 7),
    ];
    for (i, payload) in cases.into_iter().enumerate() {
        let name = format!("file_{}.bin", i);
        round_trip_one(payload, name.as_bytes(), password);
    }
}

#[test]
#[should_panic(expected = "wrong password, or the container is corrupted")]
fn test_panic_on_password_mismatch() {
    let payload = lcg_bytes(1024, 42);
    let (_, bytes) = encrypt_to_bytes(&payload, b"random_binary", b"abc123@");
    if let Err(e) = decrypt(&bytes, b"ssss") {
        panic!("{}", e.message());
    }
}

#[test]
fn empty_file_round_trip() {
    let (_, bytes) = encrypt_to_bytes(b"", b"empty.bin", b"abc123@");
    let back = decrypt(&bytes, b"abc123@").unwrap();
    assert_eq!(back.data.len(), 0);
    assert_eq!(back.file_name, b"empty.bin".to_vec());
}

#[test]
fn wrong_password_fails_authentication() {
    let (_, bytes) = encrypt_to_bytes(b"hello world", b"greeting.txt", b"abc123@");
    let err = decrypt(&bytes, b"ssss").unwrap_err();
    assert_eq!(err, CryptoError::Authentication);
}

#[test]
fn tampered_ciphertext_fails_authentication() {
    let (ef, mut bytes) = encrypt_to_bytes(b"hello world", b"greeting.txt", b"abc123@");
    // The ciphertext is the length-prefixed first field: its last byte sits at
    // offset 8 + len - 1 of the container.
    let last_ct = 8 + ef.body.data.len() - 1;
    bytes[last_ct] ^= 0x01;
    let err = decrypt(&bytes, b"abc123@").unwrap_err();
    assert_eq!(err, CryptoError::Authentication);
}

#[test]
fn tampered_salt_iv_and_tag_fail_authentication() {
    let (ef, bytes) = encrypt_to_bytes(b"some payload", b"a.txt", b"abc123@");
    let ct_len = ef.body.data.len();
    let salt_off = 8 + ct_len + 8; // first salt byte
    let iv_off = salt_off + 16; // first IV byte
    let tag_off = bytes.len() - 64; // first tag byte
    for off in [salt_off, iv_off, tag_off] {
        let mut tampered = bytes.clone();
        tampered[off] ^= 0x80;
        let err = decrypt(&tampered, b"abc123@").unwrap_err();
        assert_eq!(err, CryptoError::Authentication);
    }
}

#[test]
fn large_binary_round_trip() {
    let payload = lcg_bytes(1_200_000, 99);
    round_trip_one(payload, b"big.bin", b"abc123@");
}

#[test]
fn truncated_container_is_corrupt() {
    let (_, bytes) = encrypt_to_bytes(b"hello world", b"greeting.txt", b"abc123@");
    let short = &bytes[..3];
    let err = decrypt(short, b"abc123@").unwrap_err();
    assert_eq!(err, CryptoError::CorruptContainer);
    // Dropping the final byte breaks the structural shape as well.
    let err = decrypt(&bytes[..bytes.len() - 1], b"abc123@").unwrap_err();
    assert_eq!(err, CryptoError::CorruptContainer);
    // So does an empty input.
    let err = decrypt(b"", b"abc123@").unwrap_err();
    assert_eq!(err, CryptoError::CorruptContainer);
}

#[test]
fn encryption_is_randomized() {
    let plain = PlainData {
        data: b"same input".to_vec(),
        file_name: b"same.txt".to_vec(),
    };
    let a = encrypt(&plain, b"abc123@").unwrap();
    let b = encrypt(&plain, b"abc123@").unwrap();
    assert_ne!(a.body.salt, b.body.salt);
    assert_ne!(a.body.iv, b.body.iv);
    assert_ne!(a.body.data, b.body.data);
    assert_ne!(a.hmac, b.hmac);
}

#[test]
fn container_encoding_exact_bytes() {
    let ef = EncFile {
        body: EncFileBody {
            data: vec![1, 2, 3],
            salt: vec![4; 16],
            iv: vec![5; 16],
        },
        hmac: vec![6; 64],
    };
    let bytes = encode_container(&ef);
    let mut expected: Vec<u8> = Vec::new();
    expected.extend_from_slice(&3u64.to_le_bytes());
    expected.extend_from_slice(&[1, 2, 3]);
    expected.extend_from_slice(&16u64.to_le_bytes());
    expected.extend_from_slice(&[4; 16]);
    expected.extend_from_slice(&[5; 16]);
    expected.extend_from_slice(&[6; 64]);
    assert_eq!(bytes, expected);
    let back = decode_container(&bytes).unwrap();
    assert_eq!(back, ef);
}

#[test]
fn garbage_of_container_length_is_rejected() {
    // 96 arbitrary bytes parse structurally only if the two length prefixes
    // fit; these do not, so the structural check rejects them.
    let bytes = lcg_bytes(96, 3);
    let err = decrypt(&bytes, b"abc123@").unwrap_err();
    assert_eq!(err, CryptoError::CorruptContainer);
}

#[test]
fn key_derivation_rejects_bad_stored_salt() {
    // A structurally valid container whose stored salt is shorter than the
    // key-derivation function accepts: rejected as a key-derivation failure,
    // before the tag is ever checked.
    let ef = EncFile {
        body: EncFileBody {
            data: vec![0; 16],
            salt: vec![1; 4],
            iv: vec![2; 16],
        },
        hmac: vec![3; 64],
    };
    let bytes = encode_container(&ef);
    let err = decrypt(&bytes, b"abc123@").unwrap_err();
    assert_eq!(err, CryptoError::KeyDerivation);
}

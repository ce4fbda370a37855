use envcrypt::{decrypt, encrypt_with, hex_lower_bytes, Cipher, Decrypt, Encrypt, Error, Header, Kind};

fn zero_key() -> Vec<u8> {
    vec![0u8; 32]
}

fn demo_key() -> Vec<u8> {
    (0u8..32).collect()
}

#[test]
fn round_trip_fixed_material() {
    let key = demo_key();
    let iv = vec![7u8; 16];
    let mac_key = vec![9u8; 16];
    for plaintext in [
        Vec::new(),
        b"test".to_vec(),
        b"exactly sixteen!".to_vec(),
        vec![0xabu8; 10000],
    ] {
        let cipher = encrypt_with(&plaintext, &key, &iv, &mac_key).unwrap();
        let hex = cipher.to_hex();
        assert_eq!(decrypt(&hex, &key).unwrap(), plaintext);
    }
}

#[test]
fn round_trip_os_random() {
    let key = demo_key();
    let plaintext = b"fresh random material".to_vec();
    let cipher = rand::rngs::OsRng.encrypt(&plaintext, &key).unwrap();
    let hex = cipher.to_hex();
    assert_eq!(decrypt(&hex, &key).unwrap(), plaintext);
}

#[test]
fn round_trip_string_decrypt() {
    let key = demo_key();
    let cipher = encrypt_with(b"via the trait", &key, &[1u8; 16], &[2u8; 16]).unwrap();
    let hex: String = cipher.to_hex();
    assert_eq!(hex.decrypt(&key).unwrap(), b"via the trait".to_vec());
}

#[test]
fn hex_case_independent() {
    let key = demo_key();
    let cipher = encrypt_with(b"either case", &key, &[3u8; 16], &[4u8; 16]).unwrap();
    let lower = cipher.to_hex();
    let upper = cipher.to_hex_upper();
    assert_eq!(upper, lower.to_uppercase());
    assert_eq!(decrypt(&lower, &key).unwrap(), b"either case".to_vec());
    assert_eq!(decrypt(&upper, &key).unwrap(), b"either case".to_vec());
}

#[test]
fn tamper_detection_every_bit_of_one_char() {
    let key = demo_key();
    let cipher = encrypt_with(b"do not touch", &key, &[5u8; 16], &[6u8; 16]).unwrap();
    let hex = cipher.to_hex();
    // Replace each hex character in turn with a different digit: header
    // bytes, tag bytes and ciphertext bytes are all covered.
    for i in 0..hex.len() {
        let mut tampered: Vec<char> = hex.chars().collect();
        tampered[i] = if tampered[i] == '0' { '1' } else { '0' };
        let tampered: String = tampered.into_iter().collect();
        if tampered == hex {
            continue;
        }
        assert_eq!(decrypt(&tampered, &key), Err(Error::AuthenticationFailed));
    }
}

#[test]
fn wrong_key_fails_authentication() {
    let key = demo_key();
    let cipher = encrypt_with(b"secret", &key, &[8u8; 16], &[1u8; 16]).unwrap();
    let hex = cipher.to_hex();
    assert_eq!(decrypt(&hex, &zero_key()), Err(Error::AuthenticationFailed));
}

#[test]
fn truncation_identifies_field() {
    for (len, kind) in [
        (0, Kind::Iv),
        (15, Kind::Iv),
        (16, Kind::Key),
        (31, Kind::Key),
        (32, Kind::Hmac),
        (63, Kind::Hmac),
    ] {
        let bytes = vec![0u8; len];
        assert_eq!(
            Header::parse(&bytes).unwrap_err(),
            Error::TruncatedInput(kind)
        );
        assert_eq!(
            Cipher::parse(&bytes).unwrap_err(),
            Error::TruncatedInput(kind)
        );
    }
    assert!(Cipher::parse(&vec![0u8; 64]).is_ok());
}

#[test]
fn malformed_hex_rejected() {
    let key = demo_key();
    assert_eq!(decrypt("zz", &key), Err(Error::MalformedHex));
    assert_eq!(decrypt("abc", &key), Err(Error::MalformedHex));
    assert_eq!(Cipher::from_hex("0g").unwrap_err(), Error::MalformedHex);
}

#[test]
fn authentic_but_unpaddable_ciphertext() {
    // A 15-byte ciphertext can never be a whole number of blocks, so an
    // envelope whose tag is genuine still fails at the unpad step.
    let key = demo_key();
    let iv = vec![0u8; 16];
    let mac_key = vec![0u8; 16];
    let ciphertext = vec![0x55u8; 15];
    let tag = envcrypt::hmac(&iv, &ciphertext, &key, &mac_key).unwrap();
    let cipher = Cipher::new(Header::new(iv, mac_key, tag), ciphertext);
    let hex = cipher.to_hex();
    assert_eq!(decrypt(&hex, &key), Err(Error::InvalidPadding));
}

#[test]
fn mac_is_deterministic() {
    let one = envcrypt::hmac(&[1u8; 16], b"payload", &demo_key(), &[2u8; 16]).unwrap();
    let two = envcrypt::hmac(&[1u8; 16], b"payload", &demo_key(), &[2u8; 16]).unwrap();
    assert_eq!(one, two);
    assert_eq!(one.len(), 32);
}

#[test]
fn hex_encoding_matches_expected_text() {
    assert_eq!(hex_lower_bytes(&[0x0f, 0xa0, 0x00, 0xff]), b"0fa000ff".to_vec());
    let header = Header::new(vec![0u8; 16], vec![0xffu8; 16], vec![0x1au8; 32]);
    let expected = format!(
        "{}{}{}",
        "0".repeat(32),
        "f".repeat(32),
        "1a".repeat(32)
    );
    assert_eq!(header.to_hex(), expected);
    assert_eq!(header.to_hex_upper(), expected.to_uppercase());
}

#[test]
fn indistinguishable_failure_messages() {
    assert_eq!(
        Error::AuthenticationFailed.message(),
        Error::InvalidPadding.message()
    );
    assert_ne!(Error::MalformedHex.message(), Error::InvalidPadding.message());
    assert_eq!(Kind::Hmac.label(), "hmac");
}

#[test]
fn golden_vector_zero_material() {
    // Zero key, zero IV, zero MAC key, plaintext "test": one padded block
    // of ciphertext and a fixed tag pin the wire format.
    let cipher = encrypt_with(b"test", &zero_key(), &[0u8; 16], &[0u8; 16]).unwrap();
    let hex = cipher.to_hex();
    assert_eq!(hex.len(), 2 * (64 + 16));
    assert_eq!(&hex[..64], "0".repeat(64));
    assert_eq!(
        &hex[64..128],
        "088f4ddd899f6cff65eb541353acdf4b879984ecf03e17871153402fccdf20a9"
    );
    assert_eq!(&hex[128..], "d870798858223f4564d340b103f6527b");
    assert_eq!(decrypt(&hex, &zero_key()).unwrap(), b"test".to_vec());
}

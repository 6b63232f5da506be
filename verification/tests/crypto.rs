use securefox::crypto::{
    decrypt, decrypt_with_password, derive_key, encrypt, encrypt_with_nonce,
    encrypt_with_password, encrypt_with_password_and_kdf, encrypt_with_password_and_nonce,
    generate_key, verify_password, EncryptedData, EncryptionKey, KdfAlgorithm, KdfParams,
};
use securefox::errors::Error;
use aes_gcm_siv::aead::{Aead, KeyInit};
use base64::Engine;

#[test]
fn test_key_derivation() {
    let params = KdfParams::default();
    let key1 = derive_key("test_password", &params).unwrap();
    let key2 = derive_key("test_password", &params).unwrap();
    assert_eq!(key1.as_bytes(), key2.as_bytes());

    let key3 = derive_key("different_password", &params).unwrap();
    assert_ne!(key1.as_bytes(), key3.as_bytes());
}

#[test]
fn test_encryption_decryption() {
    let plaintext = b"Hello, SecureFox!";
    let password = "test_password";

    let encrypted = encrypt_with_password(plaintext, password).unwrap();
    let decrypted = decrypt_with_password(&encrypted, password).unwrap();

    assert_eq!(plaintext.to_vec(), decrypted);
}

#[test]
fn crypto_test_wrong_password_fails() {
    let plaintext = b"Secret data";
    let password = "correct_password";
    let wrong_password = "wrong_password";

    let encrypted = encrypt_with_password(plaintext, password).unwrap();
    let result = decrypt_with_password(&encrypted, wrong_password);

    assert!(result.is_err());
    assert!(matches!(result, Err(Error::InvalidPassword)));
}

#[test]
fn test_key_zeroization() {
    let mut key = generate_key();
    let key_bytes = key.as_bytes().to_vec();
    assert!(!key_bytes.iter().all(|&b| b == 0));

    key.zeroize();
    assert!(key.as_bytes().iter().all(|&b| b == 0));
}

#[test]
fn key_from_bytes_wants_32_bytes() {
    let bytes = [7u8; 32];
    let key = EncryptionKey::from_bytes(&bytes).unwrap();
    assert_eq!(key.as_bytes(), &bytes[..]);
    assert!(matches!(EncryptionKey::from_bytes(&bytes[..31]), Err(Error::Encryption(_))));
    assert!(matches!(EncryptionKey::from_bytes(&[0u8; 33]), Err(Error::Encryption(_))));
    assert!(matches!(EncryptionKey::from_bytes(&[]), Err(Error::Encryption(_))));
    let message = |bytes: &[u8]| match EncryptionKey::from_bytes(bytes) {
        Err(Error::Encryption(message)) => message,
        _ => panic!("a key of {} bytes", bytes.len()),
    };
    assert_eq!(message(&bytes[..31]), "Invalid key size: expected 32, got 31");
    assert_eq!(message(&[0u8; 33]), "Invalid key size: expected 32, got 33");
    assert_eq!(message(&[]), "Invalid key size: expected 32, got 0");
    assert_eq!(message(&[0u8; 100]), "Invalid key size: expected 32, got 100");
}

#[test]
fn default_params_are_pbkdf2_with_a_16_byte_salt() {
    let params = KdfParams::default();
    assert_eq!(params.algorithm, KdfAlgorithm::Pbkdf2);
    assert_eq!(params.iterations, 100_000);
    assert_eq!(params.memory_kb, None);
    assert_eq!(params.parallelism, None);
    // 16 bytes in padded Base64 are 24 characters.
    assert_eq!(params.salt.len(), 24);
    let again = KdfParams::pbkdf2();
    assert_eq!(again.algorithm, KdfAlgorithm::Pbkdf2);
    assert_ne!(params.salt, again.salt);
}

#[test]
fn argon2_params_are_19_mib_2_passes_1_lane() {
    let params = KdfParams::argon2();
    assert_eq!(params.algorithm, KdfAlgorithm::Argon2id);
    assert_eq!(params.memory_kb, Some(19456));
    assert_eq!(params.iterations, 2);
    assert_eq!(params.parallelism, Some(1));
    assert_eq!(params.salt.len(), 22);
}

#[test]
fn pbkdf2_known_answer() {
    // PBKDF2-HMAC-SHA256, password "password", salt "salt", 1 iteration, 32 bytes.
    let params = KdfParams {
        algorithm: KdfAlgorithm::Pbkdf2,
        salt: "c2FsdA==".to_string(),
        memory_kb: None,
        iterations: 1,
        parallelism: None,
    };
    let key = derive_key("password", &params).unwrap();
    let expected: [u8; 32] = [
        0x12, 0x0f, 0xb6, 0xcf, 0xfc, 0xf8, 0xb3, 0x2c, 0x43, 0xe7, 0x22, 0x52, 0x56, 0xc4, 0xf8,
        0x37, 0xa8, 0x65, 0x48, 0xc9, 0x2c, 0xcc, 0x35, 0x48, 0x08, 0x05, 0x98, 0x7c, 0xb7, 0x0b,
        0xe1, 0x7b,
    ];
    assert_eq!(key.as_bytes(), &expected[..]);
}

#[test]
fn argon2_derivation_is_pure_and_uses_the_recorded_salt() {
    let params = KdfParams {
        algorithm: KdfAlgorithm::Argon2id,
        salt: "c29tZXNhbHRzb21lc2FsdA".to_string(),
        memory_kb: Some(64),
        iterations: 1,
        parallelism: Some(1),
    };
    let a = derive_key("correct horse battery staple", &params).unwrap();
    let b = derive_key("correct horse battery staple", &params.duplicate()).unwrap();
    assert_eq!(a.as_bytes(), b.as_bytes());
    assert_eq!(a.as_bytes().len(), 32);
    let other_salt = KdfParams { salt: "b3RoZXJzYWx0b3RoZXJzYQ".to_string(), ..params.duplicate() };
    let c = derive_key("correct horse battery staple", &other_salt).unwrap();
    assert_ne!(a.as_bytes(), c.as_bytes());
}

#[test]
fn derive_key_refuses_bad_parameters() {
    let bad_salt = KdfParams {
        algorithm: KdfAlgorithm::Pbkdf2,
        salt: "not base64!".to_string(),
        memory_kb: None,
        iterations: 10,
        parallelism: None,
    };
    assert!(matches!(derive_key("pw", &bad_salt), Err(Error::Encryption(_))));
    assert!(matches!(verify_password("pw", &bad_salt), Err(Error::Encryption(_))));

    let too_many_lanes = KdfParams {
        algorithm: KdfAlgorithm::Argon2id,
        salt: "c29tZXNhbHRzb21lc2FsdA".to_string(),
        memory_kb: Some(64),
        iterations: 1,
        parallelism: Some(0x0100_0000),
    };
    assert!(matches!(derive_key("pw", &too_many_lanes), Err(Error::Encryption(_))));

    let huge_lanes = KdfParams { parallelism: Some(u32::MAX), ..too_many_lanes.duplicate() };
    assert!(matches!(derive_key("pw", &huge_lanes), Err(Error::Encryption(_))));

    let no_passes = KdfParams { iterations: 0, parallelism: Some(1), ..too_many_lanes.duplicate() };
    assert!(matches!(derive_key("pw", &no_passes), Err(Error::Encryption(_))));

    let short_salt = KdfParams { salt: "abc".to_string(), parallelism: Some(1), ..too_many_lanes };
    assert!(matches!(derive_key("pw", &short_salt), Err(Error::Encryption(_))));
}

#[test]
fn verify_password_says_true_when_a_key_derives() {
    let params = KdfParams::default();
    assert_eq!(verify_password("anything", &params).unwrap(), true);
}

#[test]
fn encrypt_then_decrypt_with_a_key() {
    let key = generate_key();
    let encrypted = encrypt(b"payload", &key).unwrap();
    assert_eq!(decrypt(&encrypted, &key).unwrap(), b"payload".to_vec());
    // The ciphertext is not the plaintext handed back.
    assert_ne!(encrypted.ciphertext.as_bytes(), b"payload");
    let other = generate_key();
    // A key that does not open the data is answered like a wrong password.
    assert!(matches!(decrypt(&encrypted, &other), Err(Error::InvalidPassword)));
}

#[test]
fn empty_plaintext_round_trips() {
    let encrypted = encrypt_with_password(b"", "pw").unwrap();
    assert_eq!(decrypt_with_password(&encrypted, "pw").unwrap(), Vec::<u8>::new());
}

#[test]
fn every_encryption_draws_a_new_nonce_and_salt() {
    let a = encrypt_with_password(b"same", "pw").unwrap();
    let b = encrypt_with_password(b"same", "pw").unwrap();
    assert_ne!(a.nonce, b.nonce);
    assert_ne!(a.kdf_params.salt, b.kdf_params.salt);
    // 12 bytes in padded Base64 are 16 characters.
    assert_eq!(a.nonce.len(), 16);
}

#[test]
fn encrypt_with_kdf_keeps_the_parameters() {
    let params = KdfParams {
        algorithm: KdfAlgorithm::Argon2id,
        salt: "c29tZXNhbHRzb21lc2FsdA".to_string(),
        memory_kb: Some(64),
        iterations: 1,
        parallelism: Some(1),
    };
    let encrypted = encrypt_with_password_and_kdf(b"vault", "pw", params).unwrap();
    assert_eq!(encrypted.kdf_params.algorithm, KdfAlgorithm::Argon2id);
    assert_eq!(encrypted.kdf_params.salt, "c29tZXNhbHRzb21lc2FsdA");
    assert_eq!(encrypted.kdf_params.memory_kb, Some(64));
    assert_eq!(decrypt_with_password(&encrypted, "pw").unwrap(), b"vault".to_vec());
    assert!(matches!(decrypt_with_password(&encrypted, "pw2"), Err(Error::InvalidPassword)));
}

#[test]
fn decrypt_refuses_malformed_envelopes() {
    let key = generate_key();
    let good = encrypt(b"x", &key).unwrap();
    let bad_nonce = EncryptedData {
        kdf_params: good.kdf_params.duplicate(),
        nonce: "@@@".to_string(),
        ciphertext: good.ciphertext.clone(),
    };
    assert!(matches!(decrypt(&bad_nonce, &key), Err(Error::Decryption(_))));
    let short_nonce = EncryptedData {
        kdf_params: good.kdf_params.duplicate(),
        nonce: "AAAA".to_string(),
        ciphertext: good.ciphertext.clone(),
    };
    match decrypt(&short_nonce, &key) {
        Err(Error::Decryption(message)) => {
            assert_eq!(message, "Invalid nonce size: expected 12, got 3")
        }
        other => panic!("{:?}", other),
    }
    let bad_ciphertext = EncryptedData {
        kdf_params: good.kdf_params.duplicate(),
        nonce: good.nonce.clone(),
        ciphertext: "***".to_string(),
    };
    assert!(matches!(decrypt(&bad_ciphertext, &key), Err(Error::Decryption(_))));
    let truncated = EncryptedData {
        kdf_params: good.kdf_params.duplicate(),
        nonce: good.nonce.clone(),
        ciphertext: "AAAA".to_string(),
    };
    // Well formed, but too short to carry a tag: it does not authenticate.
    assert!(matches!(decrypt(&truncated, &key), Err(Error::InvalidPassword)));
    let bad_salt = EncryptedData {
        kdf_params: KdfParams { salt: "!".to_string(), ..good.kdf_params.duplicate() },
        nonce: good.nonce.clone(),
        ciphertext: good.ciphertext.clone(),
    };
    assert!(matches!(decrypt_with_password(&bad_salt, "pw"), Err(Error::Encryption(_))));
}

#[test]
fn argon2_key_is_the_argon2id_tag() {
    let params = KdfParams {
        algorithm: KdfAlgorithm::Argon2id,
        salt: "c29tZXNhbHRzb21lc2FsdA".to_string(),
        memory_kb: Some(64),
        iterations: 3,
        parallelism: Some(2),
    };
    let key = derive_key("password", &params).unwrap();
    let outside = argon2::Argon2::new(
        argon2::Algorithm::Argon2id,
        argon2::Version::V0x13,
        argon2::Params::new(64, 3, 2, Some(32)).unwrap(),
    );
    let mut expected = [0u8; 32];
    outside.hash_password_into(b"password", b"somesaltsomesalt", &mut expected).unwrap();
    assert_eq!(key.as_bytes(), &expected[..]);
    // Without costs of its own the vault takes 19 MiB and one lane.
    let defaults = KdfParams { memory_kb: None, parallelism: None, iterations: 2, ..params.duplicate() };
    let explicit =
        KdfParams { memory_kb: Some(19456), parallelism: Some(1), iterations: 2, ..params.duplicate() };
    assert_eq!(
        derive_key("pw", &defaults).unwrap().as_bytes(),
        derive_key("pw", &explicit).unwrap().as_bytes()
    );
}

#[test]
fn ciphertext_is_aes_256_gcm_siv_with_the_tag_appended() {
    let key = EncryptionKey::from_bytes(&[9u8; 32]).unwrap();
    let encrypted = encrypt(b"seventeen bytes!!", &key).unwrap();
    let standard = base64::engine::general_purpose::STANDARD;
    let nonce = standard.decode(&encrypted.nonce).unwrap();
    let ciphertext = standard.decode(&encrypted.ciphertext).unwrap();
    assert_eq!(nonce.len(), 12);
    assert_eq!(ciphertext.len(), 17 + 16);
    let cipher = aes_gcm_siv::Aes256GcmSiv::new_from_slice(&[9u8; 32]).unwrap();
    let opened = cipher.decrypt(aes_gcm_siv::Nonce::from_slice(&nonce), ciphertext.as_ref()).unwrap();
    assert_eq!(opened, b"seventeen bytes!!".to_vec());
    let sealed = cipher.encrypt(aes_gcm_siv::Nonce::from_slice(&nonce), b"other".as_ref()).unwrap();
    let handmade = EncryptedData {
        kdf_params: KdfParams::default(),
        nonce: standard.encode(&nonce),
        ciphertext: standard.encode(&sealed),
    };
    assert_eq!(decrypt(&handmade, &key).unwrap(), b"other".to_vec());
}

#[test]
fn the_nonce_of_the_result_is_the_nonce_that_was_given() {
    let key = EncryptionKey::from_bytes(&[1u8; 32]).unwrap();
    let zero = encrypt_with_nonce(b"data", &key, KdfParams::default(), &[0u8; 12]).unwrap();
    assert_eq!(zero.nonce, "AAAAAAAAAAAAAAAA");
    let nonce: Vec<u8> = (1u8..=12).collect();
    let counted = encrypt_with_nonce(b"data", &key, KdfParams::default(), &nonce).unwrap();
    assert_eq!(counted.nonce, "AQIDBAUGBwgJCgsM");
    assert_ne!(zero.ciphertext, counted.ciphertext);
    assert_eq!(decrypt(&counted, &key).unwrap(), b"data".to_vec());
    // The same key, nonce and plaintext give the same ciphertext.
    let again = encrypt_with_nonce(b"data", &key, KdfParams::default(), &nonce).unwrap();
    assert_eq!(again.ciphertext, counted.ciphertext);

    let params = KdfParams {
        algorithm: KdfAlgorithm::Pbkdf2,
        salt: "c2FsdA==".to_string(),
        memory_kb: None,
        iterations: 1,
        parallelism: None,
    };
    let sealed = encrypt_with_password_and_nonce(b"data", "pw", params, &nonce).unwrap();
    assert_eq!(sealed.nonce, "AQIDBAUGBwgJCgsM");
    assert_eq!(sealed.kdf_params.salt, "c2FsdA==");
    assert_eq!(decrypt_with_password(&sealed, "pw").unwrap(), b"data".to_vec());
}

#[test]
fn a_nonce_must_be_12_bytes() {
    let key = EncryptionKey::from_bytes(&[1u8; 32]).unwrap();
    for len in [0usize, 5, 11, 13, 24] {
        match encrypt_with_nonce(b"data", &key, KdfParams::default(), &vec![0u8; len]) {
            Err(Error::Encryption(message)) => {
                assert_eq!(message, format!("Invalid nonce size: expected 12, got {}", len))
            }
            other => panic!("{:?}", other),
        }
    }
    assert!(matches!(
        encrypt_with_password_and_nonce(b"data", "pw", KdfParams::default(), &[0u8; 11]),
        Err(Error::Encryption(_))
    ));
}

#[test]
fn the_ciphertext_is_16_bytes_longer_than_the_plaintext() {
    let standard = base64::engine::general_purpose::STANDARD;
    for len in [0usize, 1, 15, 16, 17, 1000] {
        let plaintext = vec![7u8; len];
        let encrypted = encrypt_with_password(&plaintext, "pw").unwrap();
        assert_eq!(standard.decode(&encrypted.ciphertext).unwrap().len(), len + 16);
        assert_eq!(standard.decode(&encrypted.nonce).unwrap().len(), 12);
        assert_eq!(standard.decode(&encrypted.kdf_params.salt).unwrap().len(), 16);
    }
}

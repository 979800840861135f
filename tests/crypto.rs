use scan_core::crypto::{decrypt_password, encrypt_password, CryptoError, PasswordCipher};

#[test]
fn password_round_trips() {
    let cipher = PasswordCipher::new(&[7u8; 32]).unwrap();
    let (nonce, ct) = encrypt_password(&cipher, "s3cr3t-pässword").unwrap();
    assert_eq!(nonce.len(), 12);
    assert_eq!(ct.len(), "s3cr3t-pässword".len() + 16);
    assert_ne!(&ct[..ct.len() - 16], "s3cr3t-pässword".as_bytes());
    assert_eq!(decrypt_password(&cipher, nonce, ct).unwrap(), "s3cr3t-pässword");
}

#[test]
fn wrong_key_or_nonce_fails() {
    let cipher = PasswordCipher::new(&[1u8; 32]).unwrap();
    let other = PasswordCipher::new(&[2u8; 32]).unwrap();
    let (nonce, ct) = encrypt_password(&cipher, "pw").unwrap();
    assert_eq!(decrypt_password(&other, nonce.clone(), ct.clone()), Err(CryptoError::Decrypt));
    assert_eq!(decrypt_password(&cipher, vec![0u8; 5], ct), Err(CryptoError::BadNonce));
    assert!(matches!(PasswordCipher::new(&[0u8; 16]), Err(CryptoError::BadKey)));
}

#[test]
fn fresh_nonce_per_record() {
    let cipher = PasswordCipher::new(&[9u8; 32]).unwrap();
    let (n1, c1) = encrypt_password(&cipher, "same").unwrap();
    let (n2, c2) = encrypt_password(&cipher, "same").unwrap();
    assert_ne!(n1, n2);
    assert_ne!(c1, c2);
}

use disn::envelope::{generate_rsa_keypair, seal, unseal};
use disn::error::Error;
use openssl::rsa::{Padding, Rsa};
use openssl::symm::{encrypt, Cipher};
use rand::RngCore;

#[test]
fn test_seal_and_unseal() {
    let (holder_pri, holder_pub) = generate_rsa_keypair();
    let (issuer_pri, issuer_pub) = generate_rsa_keypair();

    let data = "123abcABC!@#中国";
    let (cipherdata, eipherkey_issuer, eipherkey_holder) =
        seal(&issuer_pub, &holder_pub, data).unwrap();
    let expected_data1 = unseal(&cipherdata, &eipherkey_issuer, &issuer_pri).unwrap();
    let expected_data2 = unseal(&cipherdata, &eipherkey_holder, &holder_pri).unwrap();
    assert_eq!(data, &expected_data1);
    assert_eq!(data, &expected_data2);
}

#[test]
fn seal_twice_differs() {
    let (_, holder_pub) = generate_rsa_keypair();
    let (_, issuer_pub) = generate_rsa_keypair();

    let data = "the same plaintext";
    let first = seal(&issuer_pub, &holder_pub, data).unwrap();
    let second = seal(&issuer_pub, &holder_pub, data).unwrap();
    assert_ne!(first.0, second.0);
    assert_ne!(first.1, second.1);
    assert_ne!(first.2, second.2);
}

#[test]
fn seal_round_trip_binary_safe_text() {
    let (holder_pri, holder_pub) = generate_rsa_keypair();
    let (issuer_pri, issuer_pub) = generate_rsa_keypair();

    let data = "\u{0}\u{1}\u{7f}\u{80}\u{7fff}\n\r\t\"\\ json {\"k\":[1,2
]}";
    let (cipherdata, ck_issuer, ck_holder) = seal(&issuer_pub, &holder_pub, data).unwrap();
    assert_eq!(unseal(&cipherdata, &ck_issuer, &issuer_pri).unwrap(), data);
    assert_eq!(unseal(&cipherdata, &ck_holder, &holder_pri).unwrap(), data);
}

#[test]
fn unseal_rejects_malformed_base64() {
    let (issuer_pri, issuer_pub) = generate_rsa_keypair();
    let (_, holder_pub) = generate_rsa_keypair();
    let (cipherdata, ck_issuer, _) = seal(&issuer_pub, &holder_pub, "x").unwrap();

    assert_eq!(
        unseal("@@not base64@@", &ck_issuer, &issuer_pri).unwrap_err(),
        Error::Base64DecodeError
    );
    assert_eq!(
        unseal(&cipherdata, "@@not base64@@", &issuer_pri).unwrap_err(),
        Error::Base64DecodeError
    );
    assert_eq!(
        unseal(&cipherdata, &ck_issuer, "@@not base64@@").unwrap_err(),
        Error::Base64DecodeError
    );
}

#[test]
fn unseal_rejects_wrong_private_key() {
    let (_, issuer_pub) = generate_rsa_keypair();
    let (_, holder_pub) = generate_rsa_keypair();
    let (other_pri, _) = generate_rsa_keypair();
    let (cipherdata, ck_issuer, _) = seal(&issuer_pub, &holder_pub, "secret").unwrap();

    assert_eq!(
        unseal(&cipherdata, &ck_issuer, &other_pri).unwrap_err(),
        Error::RsaDecryptError
    );
}

#[test]
fn unseal_rejects_corrupt_ciphertext() {
    let (issuer_pri, issuer_pub) = generate_rsa_keypair();
    let (_, holder_pub) = generate_rsa_keypair();
    let (_, ck_issuer, _) = seal(&issuer_pub, &holder_pub, "secret").unwrap();

    // Valid base64, but not a ciphertext produced under the recovered
    // key/IV. Almost always the padding is unsound; in the rare case a
    // random last block ends in sound padding, the leftover bytes are not
    // text.
    let garbage = base64::encode([0u8; 32]);
    let err = unseal(&garbage, &ck_issuer, &issuer_pri).unwrap_err();
    assert!(matches!(err, Error::AesDecryptError | Error::Utf8DecodeError));
}

#[test]
fn unseal_rejects_non_utf8_plaintext() {
    // A hand-built envelope around bytes that are not UTF-8: every layer
    // opens, and the final text decoding is the step that refuses.
    let (issuer_pri, issuer_pub) = generate_rsa_keypair();

    let mut key_iv = [0u8; 48];
    rand::rngs::OsRng.fill_bytes(&mut key_iv);
    let ciphertext = encrypt(
        Cipher::aes_256_cbc(),
        &key_iv[..32],
        Some(&key_iv[32..]),
        &[0xff, 0xfe, 0x80],
    )
    .unwrap();

    let pub_pem = base64::decode(&issuer_pub).unwrap();
    let rsa = Rsa::public_key_from_pem_pkcs1(&pub_pem).unwrap();
    let mut cipherkey = vec![0u8; rsa.size() as usize];
    rsa.public_encrypt(&key_iv, &mut cipherkey, Padding::PKCS1).unwrap();

    let err = unseal(
        &base64::encode(&ciphertext),
        &base64::encode(&cipherkey),
        &issuer_pri,
    )
    .unwrap_err();
    assert_eq!(err, Error::Utf8DecodeError);
}

#[test]
fn seal_rejects_malformed_recipient_keys() {
    let (_, issuer_pub) = generate_rsa_keypair();

    assert_eq!(
        seal("@@not base64@@", &issuer_pub, "x").unwrap_err(),
        Error::Base64DecodeError
    );
    // Valid base64 that does not hold a PEM PKCS#1 public key.
    let not_a_key = base64::encode(b"no key in here");
    assert_eq!(seal(&not_a_key, &issuer_pub, "x").unwrap_err(), Error::RsaKeyError);
    assert_eq!(seal(&issuer_pub, &not_a_key, "x").unwrap_err(), Error::RsaKeyError);
}

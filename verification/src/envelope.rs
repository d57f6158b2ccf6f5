//! The credential envelope protocol.
//!
//! A payload is sealed once with a fresh AES-256-CBC key and IV, and the raw
//! 48-byte `key || iv` block is RSA-PKCS#1-encrypted separately under each of
//! the two recipients' RSA-2048 public keys. The one ciphertext is therefore
//! decryptable by either recipient independently, each with its own private
//! key and its own cipher-key blob. All three outputs travel base64-encoded.

use vstd::prelude::*;
use rand::RngCore;

use crate::error::Error;

verus! {

use vstd::string::*;
use vstd::utf8::{valid_utf8, decode_utf8, encode_utf8};

/// Inputs longer than this (in characters) could push the byte length of a
/// block past what the OpenSSL bindings accept in one call.
pub const MAX_ENVELOPE_INPUT: usize = 0x1FFF_FFF0;

// ---- What the outside crates compute, by name ----

/// What `base64::encode` returns for a byte sequence.
pub uninterp spec fn b64_of(bytes: Seq<u8>) -> Seq<char>;

/// What `base64::decode` recovers from a string; `None` where the string is
/// not valid base64.
pub uninterp spec fn b64_decoded(s: Seq<char>) -> Option<Seq<u8>>;

/// What OpenSSL AES-256-CBC encryption returns for a key, an IV and a plaintext.
pub uninterp spec fn aes_encrypted(key: Seq<u8>, iv: Seq<u8>, data: Seq<u8>) -> Seq<u8>;

/// What OpenSSL AES-256-CBC decryption recovers for a key, an IV and a
/// ciphertext; `None` where the ciphertext or its padding is corrupt.
pub uninterp spec fn aes_decrypted(key: Seq<u8>, iv: Seq<u8>, data: Seq<u8>) -> Option<Seq<u8>>;

/// What OpenSSL RSA-PKCS#1 private-key decryption recovers under a private
/// key given as a PEM RSAPrivateKey block; `None` where the block does not
/// parse as a private key, the input is corrupt, or the key is not the one
/// the input was encrypted under.
pub uninterp spec fn rsa_decrypted(priv_pem: Seq<u8>, data: Seq<u8>) -> Option<Seq<u8>>;

/// That the two PEM blocks are the private and the public half of one
/// RSA-2048 keypair, as `openssl::rsa::Rsa::generate(2048)` produces them.
pub uninterp spec fn rsa_keypair(priv_pem: Seq<u8>, pub_pem: Seq<u8>) -> bool;

/// That a private and a public key, both base64-wrapped PEM, decode to the
/// two halves of one RSA-2048 keypair.
pub open spec fn keypair_b64(private_key: Seq<char>, public_key: Seq<char>) -> bool {
    &&& b64_decoded(private_key) is Some
    &&& b64_decoded(public_key) is Some
    &&& rsa_keypair(b64_decoded(private_key).unwrap(), b64_decoded(public_key).unwrap())
}

// ---- Trusted wrappers around the outside crates ----

/// Relies on rand's `OsRng`: fills a buffer from the operating system's
/// cryptographically secure random source. Nothing is promised of the
/// bytes themselves.
#[verifier::external_body]
fn random_bytes_48() -> (r: Vec<u8>)
    ensures
        r@.len() == 48,
{
    let mut buf = [0u8; 48];
    rand::rngs::OsRng.fill_bytes(&mut buf);
    buf.to_vec()
}

/// Relies on `base64::encode`, and on `base64::decode` inverting it. The
/// decoded form of a base64 string is never longer than the string.
#[verifier::external_body]
fn b64_encode(data: &[u8]) -> (r: String)
    ensures
        r@ == b64_of(data@),
        b64_decoded(r@) == Some(data@),
        data@.len() <= r@.len(),
        r@.len() <= 2 * data@.len() + 8,
{
    base64::encode(data)
}

/// Relies on `base64::decode`: succeeds exactly on valid base64, and the
/// decoded bytes are fewer than the input characters.
#[verifier::external_body]
fn b64_decode(s: &str) -> (r: Result<Vec<u8>, Error>)
    ensures
        match r {
            Ok(v) => b64_decoded(s@) == Some(v@) && v@.len() <= s@.len(),
            Err(e) => b64_decoded(s@) is None && e == Error::Base64DecodeError,
        },
{
    match base64::decode(s) {
        Ok(v) => Ok(v),
        Err(_) => Err(Error::Base64DecodeError),
    }
}

/// Relies on `openssl::symm::encrypt` with `Cipher::aes_256_cbc`, which does
/// not fail for a 32-byte key and a 16-byte IV, and on `openssl::symm::decrypt`
/// inverting it under the same key and IV.
#[verifier::external_body]
fn aes256_cbc_encrypt(key: &[u8], iv: &[u8], data: &[u8]) -> (r: Vec<u8>)
    requires
        key@.len() == 32,
        iv@.len() == 16,
        data@.len() <= 0x7FFF_FFC0,
    ensures
        r@ == aes_encrypted(key@, iv@, data@),
        aes_decrypted(key@, iv@, r@) == Some(data@),
        r@.len() <= data@.len() + 16,
{
    openssl::symm::encrypt(openssl::symm::Cipher::aes_256_cbc(), key, Some(iv), data)
        .expect("AES-256-CBC encryption accepts a 32-byte key and a 16-byte IV")
}

/// Relies on `openssl::symm::decrypt` with `Cipher::aes_256_cbc`: succeeds
/// exactly where the ciphertext decrypts under the key and IV to a block
/// with sound padding.
#[verifier::external_body]
fn aes256_cbc_decrypt(key: &[u8], iv: &[u8], data: &[u8]) -> (r: Result<Vec<u8>, Error>)
    requires
        key@.len() == 32,
        iv@.len() == 16,
        data@.len() <= 0x7FFF_FFC0,
    ensures
        match r {
            Ok(v) => aes_decrypted(key@, iv@, data@) == Some(v@),
            Err(e) => aes_decrypted(key@, iv@, data@) is None && e == Error::AesDecryptError,
        },
{
    match openssl::symm::decrypt(openssl::symm::Cipher::aes_256_cbc(), key, Some(iv), data) {
        Ok(v) => Ok(v),
        Err(_) => Err(Error::AesDecryptError),
    }
}

/// Relies on `openssl::rsa::Rsa::generate(2048)` and the PKCS#1 PEM
/// serializers `private_key_to_pem` and `public_key_to_pem_pkcs1`.
#[verifier::external_body]
fn rsa_generate_pem_pair() -> (r: (Vec<u8>, Vec<u8>))
    ensures
        rsa_keypair(r.0@, r.1@),
        r.0@.len() <= 0x4000,
        r.1@.len() <= 0x4000,
{
    let keypair = openssl::rsa::Rsa::generate(2048).expect("RSA-2048 key generation");
    let private_pem = keypair.private_key_to_pem().expect("PEM-encode the private key");
    let public_pem = keypair.public_key_to_pem_pkcs1().expect("PEM-encode the public key");
    (private_pem, public_pem)
}

/// Relies on `openssl::rsa::Rsa::public_key_from_pem_pkcs1` and
/// `Rsa::public_encrypt` with PKCS#1 v1.5 padding, and on RSA private-key
/// decryption under the matching private key inverting the encryption.
#[verifier::external_body]
fn rsa_public_encrypt(pub_pem: &[u8], data: &[u8]) -> (r: Result<Vec<u8>, Error>)
    requires
        pub_pem@.len() <= 0x7FFF_FF00,
        data@.len() <= 245,
    ensures
        match r {
            Ok(ct) => {
                &&& forall|sk_pem: Seq<u8>|
                    #[trigger] rsa_keypair(sk_pem, pub_pem@) ==> rsa_decrypted(sk_pem, ct@)
                        == Some(data@)
                // The ciphertext is one RSA block: OpenSSL caps the modulus
                // at 16384 bits.
                &&& ct@.len() <= 0x800
            },
            Err(e) => e == Error::RsaKeyError,
        },
        (exists|sk_pem: Seq<u8>| rsa_keypair(sk_pem, pub_pem@)) ==> r is Ok,
{
    let key = match openssl::rsa::Rsa::public_key_from_pem_pkcs1(pub_pem) {
        Ok(k) => k,
        Err(_) => return Err(Error::RsaKeyError),
    };
    let mut out = vec![0u8; key.size() as usize];
    match key.public_encrypt(data, &mut out, openssl::rsa::Padding::PKCS1) {
        Ok(_) => Ok(out),
        Err(_) => Err(Error::RsaKeyError),
    }
}

/// Relies on `openssl::rsa::Rsa::private_key_from_pem` and
/// `Rsa::private_decrypt` with PKCS#1 v1.5 padding.
#[verifier::external_body]
fn rsa_private_decrypt(priv_pem: &[u8], data: &[u8]) -> (r: Result<Vec<u8>, Error>)
    requires
        priv_pem@.len() <= 0x7FFF_FF00,
        data@.len() <= 0x7FFF_FFC0,
    ensures
        match r {
            Ok(v) => rsa_decrypted(priv_pem@, data@) == Some(v@),
            Err(e) => rsa_decrypted(priv_pem@, data@) is None && e == Error::RsaDecryptError,
        },
{
    let key = match openssl::rsa::Rsa::private_key_from_pem(priv_pem) {
        Ok(k) => k,
        Err(_) => return Err(Error::RsaDecryptError),
    };
    let mut out = vec![0u8; key.size() as usize];
    match key.private_decrypt(data, &mut out, openssl::rsa::Padding::PKCS1) {
        Ok(n) => {
            out.truncate(n);
            Ok(out)
        },
        Err(_) => Err(Error::RsaDecryptError),
    }
}

/// Relies on `String::from_utf8`: succeeds exactly on valid UTF-8 and
/// returns its decoding.
#[verifier::external_body]
fn utf8_to_string(bytes: Vec<u8>) -> (r: Result<String, Error>)
    ensures
        match r {
            Ok(s) => valid_utf8(bytes@) && s@ == decode_utf8(bytes@),
            Err(e) => !valid_utf8(bytes@) && e == Error::Utf8DecodeError,
        },
{
    match String::from_utf8(bytes) {
        Ok(s) => Ok(s),
        Err(_) => Err(Error::Utf8DecodeError),
    }
}

// ---- Verified helpers ----

proof fn lemma_encode_utf8_len(s: Seq<char>)
    ensures
        encode_utf8(s).len() <= 4 * s.len(),
    decreases s.len(),
{
    if s.len() != 0 {
        lemma_encode_utf8_len(s.drop_first());
    }
}

fn subvec(v: &Vec<u8>, from: usize, to: usize) -> (r: Vec<u8>)
    requires
        from <= to <= v@.len(),
    ensures
        r@ == v@.subrange(from as int, to as int),
{
    let mut r: Vec<u8> = Vec::new();
    let mut i: usize = from;
    while i < to
        invariant
            from <= i <= to <= v@.len(),
            r@ == v@.subrange(from as int, i as int),
        decreases to - i,
    {
        r.push(v[i]);
        assert(v@.subrange(from as int, i + 1 as int) =~= v@.subrange(from as int, i as int).push(
            v@[i as int],
        ));
        i = i + 1;
    }
    r
}

// ---- The protocol ----

/// What opening an envelope recovers, step by step, as a function of the
/// three base64 inputs. `unseal` returns exactly this; `seal` promises that
/// its outputs drive it back to the sealed plaintext.
pub open spec fn unseal_spec(cipherdata: Seq<char>, cipherkey: Seq<char>, private_key: Seq<char>) -> Result<
    Seq<char>,
    Error,
> {
    match b64_decoded(private_key) {
        None => Err(Error::Base64DecodeError),
        Some(sk_pem) => match b64_decoded(cipherkey) {
            None => Err(Error::Base64DecodeError),
            Some(ck) => match rsa_decrypted(sk_pem, ck) {
                None => Err(Error::RsaDecryptError),
                Some(kiv) => if kiv.len() < 48 {
                    Err(Error::RsaDecryptError)
                } else {
                    match b64_decoded(cipherdata) {
                        None => Err(Error::Base64DecodeError),
                        Some(ct) => match aes_decrypted(
                            kiv.subrange(0, 32),
                            kiv.subrange(32, 48),
                            ct,
                        ) {
                            None => Err(Error::AesDecryptError),
                            Some(pt) => if valid_utf8(pt) {
                                Ok(decode_utf8(pt))
                            } else {
                                Err(Error::Utf8DecodeError)
                            },
                        },
                    }
                },
            },
        },
    }
}

/// That opening the envelope under this private key yields this plaintext.
pub open spec fn opens_to(cipherdata: Seq<char>, cipherkey: Seq<char>, private_key: Seq<char>, data: Seq<char>) -> bool {
    unseal_spec(cipherdata, cipherkey, private_key) == Ok::<Seq<char>, Error>(data)
}

/// Generates a fresh RSA-2048 keypair, PEM-encoded and base64-wrapped,
/// returned as `(private, public)`.
pub fn generate_rsa_keypair() -> (r: (String, String))
    ensures
        keypair_b64(r.0@, r.1@),
        r.0@.len() <= 0x10000,
        r.1@.len() <= 0x10000,
{
    let (private_pem, public_pem) = rsa_generate_pem_pair();
    let private_key = b64_encode(private_pem.as_slice());
    let public_key = b64_encode(public_pem.as_slice());
    (private_key, public_key)
}

/// Seals `data` for the two recipients: one fresh AES-256-CBC pass over the
/// payload, and the raw 48-byte `key || iv` block RSA-encrypted once under
/// each public key. Returns `(ciphertext, issuer_cipherkey, holder_cipherkey)`.
///
/// Whoever holds the private half of either public key can open the one
/// ciphertext with their own cipher-key blob — that is the round-trip law
/// stated in the postcondition.
pub fn seal(issuer_pubkey: &str, holder_pubkey: &str, data: &str) -> (r: Result<
    (String, String, String),
    Error,
>)
    requires
        issuer_pubkey@.len() <= MAX_ENVELOPE_INPUT as int,
        holder_pubkey@.len() <= MAX_ENVELOPE_INPUT as int,
        data@.len() <= MAX_ENVELOPE_INPUT as int,
    ensures
        match r {
            Ok(out) => {
                &&& b64_decoded(issuer_pubkey@) is Some
                &&& b64_decoded(holder_pubkey@) is Some
                &&& forall|sk: Seq<char>|
                    #[trigger] keypair_b64(sk, issuer_pubkey@) ==> opens_to(
                        out.0@,
                        out.1@,
                        sk,
                        data@,
                    )
                &&& forall|sk: Seq<char>|
                    #[trigger] keypair_b64(sk, holder_pubkey@) ==> opens_to(
                        out.0@,
                        out.2@,
                        sk,
                        data@,
                    )
                // Output sizes, so that a caller can feed the envelope back
                // into `unseal`.
                &&& out.0@.len() <= 8 * data@.len() + 48
                &&& out.1@.len() <= 0x1008
                &&& out.2@.len() <= 0x1008
            },
            Err(e) => {
                ||| e == Error::Base64DecodeError && (b64_decoded(issuer_pubkey@) is None
                    || b64_decoded(holder_pubkey@) is None)
                ||| e == Error::RsaKeyError
            },
        },
        (exists|sk: Seq<char>| #[trigger] keypair_b64(sk, issuer_pubkey@)) && (exists|sk: Seq<char>|
            #[trigger] keypair_b64(sk, holder_pubkey@)) ==> r is Ok,
{
    broadcast use vstd::utf8::encode_utf8_valid_utf8, vstd::utf8::encode_utf8_decode_utf8;

    let key_iv = random_bytes_48();
    let key = subvec(&key_iv, 0, 32);
    let iv = subvec(&key_iv, 32, 48);
    proof {
        lemma_encode_utf8_len(data@);
    }
    let cipherbytes = aes256_cbc_encrypt(key.as_slice(), iv.as_slice(), data.as_bytes());
    let cipherdata = b64_encode(cipherbytes.as_slice());

    let issuer_pem = match b64_decode(issuer_pubkey) {
        Ok(v) => v,
        Err(e) => {
            return Err(e);
        },
    };
    let holder_pem = match b64_decode(holder_pubkey) {
        Ok(v) => v,
        Err(e) => {
            return Err(e);
        },
    };
    let ck_issuer_raw = match rsa_public_encrypt(issuer_pem.as_slice(), key_iv.as_slice()) {
        Ok(v) => v,
        Err(e) => {
            return Err(e);
        },
    };
    let ck_holder_raw = match rsa_public_encrypt(holder_pem.as_slice(), key_iv.as_slice()) {
        Ok(v) => v,
        Err(e) => {
            return Err(e);
        },
    };
    let cipherkey_issuer = b64_encode(ck_issuer_raw.as_slice());
    let cipherkey_holder = b64_encode(ck_holder_raw.as_slice());

    proof {
        assert forall|sk: Seq<char>| #[trigger] keypair_b64(sk, issuer_pubkey@) implies opens_to(
            cipherdata@,
            cipherkey_issuer@,
            sk,
            data@,
        ) by {
            let sk_pem = b64_decoded(sk).unwrap();
            assert(rsa_decrypted(sk_pem, ck_issuer_raw@) == Some(key_iv@));
            assert(decode_utf8(encode_utf8(data@)) == data@);
        }
        assert forall|sk: Seq<char>| #[trigger] keypair_b64(sk, holder_pubkey@) implies opens_to(
            cipherdata@,
            cipherkey_holder@,
            sk,
            data@,
        ) by {
            let sk_pem = b64_decoded(sk).unwrap();
            assert(rsa_decrypted(sk_pem, ck_holder_raw@) == Some(key_iv@));
            assert(decode_utf8(encode_utf8(data@)) == data@);
        }
    }
    Ok((cipherdata, cipherkey_issuer, cipherkey_holder))
}

/// Opens an envelope: recovers the `key || iv` block with the caller's own
/// private key, then decrypts the payload. Returns exactly what
/// `unseal_spec` says, with each failure mapped to its own error.
pub fn unseal(cipherdata: &str, eipherkey: &str, private_key: &str) -> (r: Result<String, Error>)
    requires
        cipherdata@.len() <= MAX_ENVELOPE_INPUT as int,
        eipherkey@.len() <= MAX_ENVELOPE_INPUT as int,
        private_key@.len() <= MAX_ENVELOPE_INPUT as int,
    ensures
        match r {
            Ok(s) => unseal_spec(cipherdata@, eipherkey@, private_key@) == Ok::<Seq<char>, Error>(
                s@,
            ),
            Err(e) => unseal_spec(cipherdata@, eipherkey@, private_key@) == Err::<Seq<char>, Error>(
                e,
            ),
        },
{
    let sk_pem = match b64_decode(private_key) {
        Ok(v) => v,
        Err(e) => {
            return Err(e);
        },
    };
    let ck = match b64_decode(eipherkey) {
        Ok(v) => v,
        Err(e) => {
            return Err(e);
        },
    };
    let kiv = match rsa_private_decrypt(sk_pem.as_slice(), ck.as_slice()) {
        Ok(v) => v,
        Err(e) => {
            return Err(e);
        },
    };
    if kiv.len() < 48 {
        return Err(Error::RsaDecryptError);
    }
    let key = subvec(&kiv, 0, 32);
    let iv = subvec(&kiv, 32, 48);
    let ct = match b64_decode(cipherdata) {
        Ok(v) => v,
        Err(e) => {
            return Err(e);
        },
    };
    let pt = match aes256_cbc_decrypt(key.as_slice(), iv.as_slice(), ct.as_slice()) {
        Ok(v) => v,
        Err(e) => {
            return Err(e);
        },
    };
    utf8_to_string(pt)
}

} // verus!

//! The error taxonomy of the library.
//!
//! Infrastructure faults that are retried forever never reach these values;
//! everything here is either an integrity error (malformed key material or
//! ciphertext) or a domain error that carries enough context for the caller
//! to decide on a retry.

use vstd::prelude::*;

verus! {

#[derive(Clone, Copy, PartialEq, Eq, Structural, Debug)]
pub enum Error {
    /// An input that should have been base64 was not.
    Base64DecodeError,
    /// A public key block did not parse as a PEM PKCS#1 RSA key, or
    /// encryption under it failed.
    RsaKeyError,
    /// A cipher-key block was corrupt, or the private key was not the
    /// recipient's.
    RsaDecryptError,
    /// The symmetric ciphertext or its padding was corrupt.
    AesDecryptError,
    /// Decrypted payload bytes were not valid UTF-8.
    Utf8DecodeError,
    /// A row looked up by its natural key was absent.
    RecordNotFound,
    /// An insert collided with an existing row under the same natural key.
    DuplicateRecord,
    /// The DID method could not derive an identifier from the signing key.
    DidGenerateError,
    /// Spawning an issuer's signing-service process failed.
    VcIssuerRunningError,
    /// The issuer addressed by the operation is not running.
    VcIssuerNotRunning,
    /// Building or anchoring a credential failed.
    VcIssueError,
    /// A credential handed in for verification was not valid JSON.
    VcVerifyParserJsonError,
    /// Signature verification reported errors.
    VcVerifyError,
    /// Presentation verification reported errors.
    VpVerifyError,
    /// The credential is revoked on chain.
    VcRevokedError,
    /// The caller asked to revoke a credential it did not issue.
    VcRevokeNotIssuer,
    /// No credential is anchored under the requested id.
    VcCredentialNotFound,
}

impl Error {
    pub open spec fn spec_message(self) -> Seq<char> {
        match self {
            Error::Base64DecodeError => "base64 decode error"@,
            Error::RsaKeyError => "RSA public key error"@,
            Error::RsaDecryptError => "RSA decrypt error"@,
            Error::AesDecryptError => "AES decrypt error"@,
            Error::Utf8DecodeError => "utf-8 decode error"@,
            Error::RecordNotFound => "record not found"@,
            Error::DuplicateRecord => "duplicate record"@,
            Error::DidGenerateError => "DID generate error"@,
            Error::VcIssuerRunningError => "VC Issuer running error"@,
            Error::VcIssuerNotRunning => "VC Issuer not running error"@,
            Error::VcIssueError => "VC Issue error"@,
            Error::VcVerifyParserJsonError => "VC Verify parser json error"@,
            Error::VcVerifyError => "VC Verify error"@,
            Error::VpVerifyError => "VP Verify error"@,
            Error::VcRevokedError => "VC revoked error"@,
            Error::VcRevokeNotIssuer => "VC revoke not issuer error"@,
            Error::VcCredentialNotFound => "VC credential not found"@,
        }
    }

    /// A short description, for the reply a caller builds on failure.
    pub fn message(&self) -> (r: String)
        ensures
            r@ == self.spec_message(),
    {
        match self {
            Error::Base64DecodeError => "base64 decode error".to_owned(),
            Error::RsaKeyError => "RSA public key error".to_owned(),
            Error::RsaDecryptError => "RSA decrypt error".to_owned(),
            Error::AesDecryptError => "AES decrypt error".to_owned(),
            Error::Utf8DecodeError => "utf-8 decode error".to_owned(),
            Error::RecordNotFound => "record not found".to_owned(),
            Error::DuplicateRecord => "duplicate record".to_owned(),
            Error::DidGenerateError => "DID generate error".to_owned(),
            Error::VcIssuerRunningError => "VC Issuer running error".to_owned(),
            Error::VcIssuerNotRunning => "VC Issuer not running error".to_owned(),
            Error::VcIssueError => "VC Issue error".to_owned(),
            Error::VcVerifyParserJsonError => "VC Verify parser json error".to_owned(),
            Error::VcVerifyError => "VC Verify error".to_owned(),
            Error::VpVerifyError => "VP Verify error".to_owned(),
            Error::VcRevokedError => "VC revoked error".to_owned(),
            Error::VcRevokeNotIssuer => "VC revoke not issuer error".to_owned(),
            Error::VcCredentialNotFound => "VC credential not found".to_owned(),
        }
    }
}

} // verus!

//! The credential service: the decisions of issuing, decrypting,
//! verifying, presenting and revoking credentials.
//!
//! The DID signer and the chain are outside collaborators; every function
//! here takes what they returned as plain values and decides from them.
//! What can be settled in-process — building the documents, sealing and
//! opening envelopes, the order of checks — is settled here, verified.

use vstd::prelude::*;

use crate::credentials::{json_escaped, unsigned_doc_ok, Credentials};
use crate::did::{did_record_at, has_did_record, DidStore};
use crate::envelope;
use crate::envelope::{opens_to, unseal_spec, MAX_ENVELOPE_INPUT};
use crate::error::Error;
use crate::issuer::{did_at, has_did, CredentialServiceStatus, IssuerRegistry};

verus! {

use vstd::string::*;

/// What `serde_json::from_str::<serde_json::Value>` accepts: that the text
/// is one well-formed JSON document.
pub uninterp spec fn json_parses(s: Seq<char>) -> bool;

/// Relies on `serde_json::from_str` with `serde_json::Value`: succeeds
/// exactly on well-formed JSON.
#[verifier::external_body]
fn json_is_valid(s: &str) -> (r: bool)
    ensures
        r == json_parses(s@),
{
    serde_json::from_str::<serde_json::Value>(s).is_ok()
}

/// What the DID signer reported of a signed document.
#[derive(Debug)]
pub struct VerifyResult {
    pub checks: Vec<String>,
    pub warnings: Vec<String>,
    pub errors: Vec<String>,
}

/// Everything an issue call hands back to its caller.
#[derive(Debug)]
pub struct IssueResult {
    pub issuer_did: String,
    pub holder_did: String,
    pub issuer_cipher: String,
    pub holder_cipher: String,
    pub signed_credential_encrypt: String,
    pub signed_credential_plain: String,
    pub tx_hash: String,
}

/// A credential to issue: the two parties and the claims.
pub struct Credential {
    pub issuer_did: String,
    pub holder_did: String,
    pub credential: Credentials,
}

/// The on-chain revocation record of one credential id, as the registry
/// contract returns it. Never cached: read fresh for every decision.
#[derive(Debug)]
pub struct RevokedInfo {
    /// Whether the revocation is in force.
    pub active: bool,
    pub revoked_time: i64,
    pub cert_type: String,
    pub issuer: String,
}

/// What a revocation request requires of the chain.
#[derive(Debug)]
pub enum RevokeAction {
    /// The credential is already revoked: done, no new transaction.
    AlreadyRevoked,
    /// Submit this revocation transaction.
    Submit { revoked_time: i64, cert_type: String, credential_id: String, issuer: String },
}

// ---- Substring search, for the embedded credential id ----

/// That `needle` occurs in `hay`.
pub open spec fn spec_contains(hay: Seq<char>, needle: Seq<char>) -> bool {
    exists|k: int|
        0 <= k && k + needle.len() <= hay.len() && #[trigger] hay.subrange(k, k + needle.len())
            == needle
}

/// That the JSON document carries `"id":"<id>"`, with the id escaped as
/// this library's serializer writes it.
pub open spec fn doc_claims_id(doc: Seq<char>, id: Seq<char>) -> bool {
    spec_contains(doc, "\"id\":\""@ + json_escaped(id) + "\""@)
}

fn str_chars(s: &str) -> (r: Vec<char>)
    ensures
        r@ == s@,
{
    let n = s.unicode_len();
    let mut r: Vec<char> = Vec::new();
    let mut i: usize = 0;
    while i < n
        invariant
            n == s@.len(),
            i <= n,
            r@ == s@.take(i as int),
        decreases n - i,
    {
        r.push(s.get_char(i));
        proof {
            assert(s@.take(i + 1 as int) =~= s@.take(i as int).push(s@[i as int]));
        }
        i = i + 1;
    }
    proof {
        assert(s@.take(n as int) =~= s@);
    }
    r
}

fn match_at(hay: &Vec<char>, needle: &Vec<char>, k: usize) -> (r: bool)
    requires
        k + needle@.len() <= hay@.len(),
    ensures
        r == (hay@.subrange(k as int, k + needle@.len()) == needle@),
{
    let m = needle.len();
    let hlen = hay.len();
    let mut j: usize = 0;
    while j < m
        invariant
            m == needle@.len(),
            hlen == hay@.len(),
            k + m <= hlen,
            j <= m,
            forall|t: int| 0 <= t < j ==> hay@[k + t] == needle@[t],
        decreases m - j,
    {
        if hay[k + j] != needle[j] {
            proof {
                assert(hay@.subrange(k as int, k + needle@.len())[j as int] != needle@[j as int]);
            }
            return false;
        }
        j = j + 1;
    }
    proof {
        assert(hay@.subrange(k as int, k + needle@.len()) =~= needle@);
    }
    true
}

/// Whether `needle` occurs in `hay`.
pub fn contains_sub(hay: &str, needle: &str) -> (r: bool)
    ensures
        r == spec_contains(hay@, needle@),
{
    let h = str_chars(hay);
    let nd = str_chars(needle);
    if nd.len() > h.len() {
        return false;
    }
    let last = h.len() - nd.len();
    let mut k: usize = 0;
    while k <= last
        invariant
            h@ == hay@,
            nd@ == needle@,
            nd@.len() <= h@.len(),
            last == h@.len() - nd@.len(),
            k <= last,
            forall|k2: int|
                0 <= k2 < k ==> #[trigger] hay@.subrange(k2, k2 + needle@.len()) != needle@,
        decreases last - k,
    {
        if match_at(&h, &nd, k) {
            return true;
        }
        if k == last {
            proof {
                assert forall|k2: int|
                    0 <= k2 && k2 + needle@.len() <= hay@.len() implies #[trigger] hay@.subrange(
                    k2,
                    k2 + needle@.len(),
                ) != needle@ by {
                    if k2 < k {
                    } else {
                        assert(k2 == last);
                    }
                }
            }
            return false;
        }
        k = k + 1;
    }
    proof {
        assert(false);
    }
    false
}

/// Whether the decrypted credential document claims this credential id.
pub fn credential_claims_id(doc: &str, id: &str) -> (r: bool)
    ensures
        r == doc_claims_id(doc@, id@),
{
    let mut needle = String::from_str("\"id\":\"");
    let escaped = crate::credentials::json_escape(id);
    needle.append(escaped.as_str());
    needle.append("\"");
    contains_sub(doc, needle.as_str())
}

// ---- The full-verification pipeline, revocation last ----

/// The outcome of the composed check: decrypt, then the signature, then —
/// only on a cryptographically valid credential — the revocation flag.
/// A signature failure surfaces as `VcVerifyError` whatever the
/// revocation record says.
pub open spec fn spec_verify_full(
    dids: Seq<crate::did::Did>,
    did: Seq<char>,
    encrypted: Seq<char>,
    cipher: Seq<char>,
    n_sig_errors: int,
    revoked_active: bool,
) -> Result<bool, Error> {
    if !has_did_record(dids, did) {
        Err(Error::RecordNotFound)
    } else {
        let i = choose|i: int| did_record_at(dids, did, i);
        match unseal_spec(encrypted, cipher, dids[i].encrypt_private_key@) {
            Err(e) => Err(e),
            Ok(_) => if n_sig_errors > 0 {
                Err(Error::VcVerifyError)
            } else if revoked_active {
                Err(Error::VcRevokedError)
            } else {
                Ok(true)
            },
        }
    }
}

/// Law: revocation is checked last. With any signature error present, the
/// composed check reports the signature error; the revocation record is
/// not even consulted — the outcome is the same whether or not the
/// credential is revoked, and it is never `VcRevokedError`.
pub proof fn lemma_revocation_checked_after_signature(
    dids: Seq<crate::did::Did>,
    did: Seq<char>,
    encrypted: Seq<char>,
    cipher: Seq<char>,
    n_sig_errors: int,
)
    requires
        n_sig_errors > 0,
    ensures
        spec_verify_full(dids, did, encrypted, cipher, n_sig_errors, true) == spec_verify_full(
            dids,
            did,
            encrypted,
            cipher,
            n_sig_errors,
            false,
        ),
        spec_verify_full(dids, did, encrypted, cipher, n_sig_errors, true) != Err::<bool, Error>(
            Error::VcRevokedError,
        ),
{
}

/// Law: the envelope round trip, carried to the DID store. A ciphertext
/// and cipher-key blob sealed so that the key on record under `did` opens
/// them — which is what `vc_credential_issue_seal` establishes for each
/// party — open to that very payload under the key of whichever record a
/// lookup of `did` finds: in a well-formed store there is only one.
pub proof fn lemma_sealed_envelope_opens_on_record(
    dids: Seq<crate::did::Did>,
    did: Seq<char>,
    cipherdata: Seq<char>,
    cipherkey: Seq<char>,
    data: Seq<char>,
)
    requires
        crate::did::dids_wf(dids),
        exists|i: int|
            did_record_at(dids, did, i) && opens_to(
                cipherdata,
                cipherkey,
                (#[trigger] dids[i]).encrypt_private_key@,
                data,
            ),
    ensures
        forall|j: int|
            did_record_at(dids, did, j) ==> unseal_spec(
                cipherdata,
                cipherkey,
                (#[trigger] dids[j]).encrypt_private_key@,
            ) == Ok::<Seq<char>, Error>(data),
{
    let i = choose|i: int|
        did_record_at(dids, did, i) && opens_to(
            cipherdata,
            cipherkey,
            (#[trigger] dids[i]).encrypt_private_key@,
            data,
        );
    assert forall|j: int| did_record_at(dids, did, j) implies unseal_spec(
        cipherdata,
        cipherkey,
        (#[trigger] dids[j]).encrypt_private_key@,
    ) == Ok::<Seq<char>, Error>(data) by {
        if i < j {
            assert(dids[i].id@ != dids[j].id@);
        }
        if j < i {
            assert(dids[j].id@ != dids[i].id@);
        }
    }
}

/// The service functions, stateless over the stores they are handed.
pub struct CredentialService;

impl CredentialService {
    /// Builds the unsigned credential document for an issue call: the
    /// issuer must exist and both parties must hold DID records (the
    /// issuer's for signing, both for the later sealing).
    pub fn vc_credential_issue_prepare(
        registry: &IssuerRegistry,
        dids: &DidStore,
        credential: &Credential,
        now: i64,
    ) -> (r: Result<String, Error>)
        requires
            0 <= now <= 100_000_000_000,
        ensures
            match r {
                Ok(s) => {
                    &&& has_did(registry@, credential.issuer_did@)
                    &&& has_did_record(dids@, credential.issuer_did@)
                    &&& has_did_record(dids@, credential.holder_did@)
                    &&& unsigned_doc_ok(
                        credential.credential,
                        credential.issuer_did@,
                        credential.holder_did@,
                        now,
                        s@,
                    )
                },
                Err(e) => {
                    ||| e == Error::RecordNotFound && (!has_did(registry@, credential.issuer_did@)
                        || !has_did_record(dids@, credential.issuer_did@) || !has_did_record(
                        dids@,
                        credential.holder_did@,
                    ))
                    ||| (credential.credential is PersonalIdentity && spec_convert_expiry_of(
                        credential.credential,
                        now,
                    ) == Err::<Seq<char>, Error>(e))
                },
            },
    {
        let _issuer = match registry.vc_issuer_get_by_did(credential.issuer_did.as_str()) {
            Ok(v) => v,
            Err(e) => {
                return Err(e);
            },
        };
        let _issuer_record = match dids.find_by_id(credential.issuer_did.as_str()) {
            Ok(v) => v,
            Err(e) => {
                return Err(e);
            },
        };
        let _holder_record = match dids.find_by_id(credential.holder_did.as_str()) {
            Ok(v) => v,
            Err(e) => {
                return Err(e);
            },
        };
        credential.credential.generate_unsigned(
            credential.issuer_did.as_str(),
            credential.holder_did.as_str(),
            now,
        )
    }

    /// Seals a signed credential for its two parties with the encryption
    /// public keys on record. The postcondition is the envelope guarantee
    /// carried to the store: each party's own private key on record opens
    /// the one ciphertext through its own cipher-key blob.
    pub fn vc_credential_issue_seal(
        dids: &DidStore,
        issuer_did: &str,
        holder_did: &str,
        signed_credential: &str,
    ) -> (r: Result<(String, String, String), Error>)
        requires
            dids.wf(),
            signed_credential@.len() <= MAX_ENVELOPE_INPUT as int,
        ensures
            match r {
                Ok(out) => {
                    &&& exists|i: int|
                        did_record_at(dids@, issuer_did@, i) && opens_to(
                            out.0@,
                            out.1@,
                            (#[trigger] dids@[i]).encrypt_private_key@,
                            signed_credential@,
                        )
                    &&& exists|i: int|
                        did_record_at(dids@, holder_did@, i) && opens_to(
                            out.0@,
                            out.2@,
                            (#[trigger] dids@[i]).encrypt_private_key@,
                            signed_credential@,
                        )
                },
                Err(e) => e == Error::RecordNotFound && (!has_did_record(dids@, issuer_did@)
                    || !has_did_record(dids@, holder_did@)),
            },
    {
        let issuer_record = match dids.find_by_id(issuer_did) {
            Ok(v) => v,
            Err(e) => {
                return Err(e);
            },
        };
        let holder_record = match dids.find_by_id(holder_did) {
            Ok(v) => v,
            Err(e) => {
                return Err(e);
            },
        };
        proof {
            let gi = choose|i: int| did_record_at(dids@, issuer_did@, i) && issuer_record == dids@[i];
            let gh = choose|i: int| did_record_at(dids@, holder_did@, i) && holder_record == dids@[i];
            assert(crate::envelope::keypair_b64(
                issuer_record.encrypt_private_key@,
                issuer_record.encrypt_public_key@,
            ));
            assert(crate::envelope::keypair_b64(
                holder_record.encrypt_private_key@,
                holder_record.encrypt_public_key@,
            ));
        }
        let sealed = match envelope::seal(
            issuer_record.encrypt_public_key.as_str(),
            holder_record.encrypt_public_key.as_str(),
            signed_credential,
        ) {
            Ok(v) => v,
            Err(_) => {
                proof {
                    assert(false);
                }
                return Err(Error::RecordNotFound);
            },
        };
        proof {
            let gi = choose|i: int| did_record_at(dids@, issuer_did@, i) && issuer_record == dids@[i];
            let gh = choose|i: int| did_record_at(dids@, holder_did@, i) && holder_record == dids@[i];
            assert(opens_to(
                sealed.0@,
                sealed.1@,
                dids@[gi].encrypt_private_key@,
                signed_credential@,
            ));
            assert(opens_to(
                sealed.0@,
                sealed.2@,
                dids@[gh].encrypt_private_key@,
                signed_credential@,
            ));
        }
        Ok(sealed)
    }

    /// Assembles what an issue call returns: the plaintext signed
    /// credential, the ciphertext, both cipher-key blobs and the hash of
    /// the anchoring transaction.
    pub fn vc_credential_issue_finish(
        issuer_did: String,
        holder_did: String,
        sealed: (String, String, String),
        signed_credential_plain: String,
        tx_hash: String,
    ) -> (r: IssueResult)
        ensures
            r.issuer_did == issuer_did,
            r.holder_did == holder_did,
            r.signed_credential_encrypt == sealed.0,
            r.issuer_cipher == sealed.1,
            r.holder_cipher == sealed.2,
            r.signed_credential_plain == signed_credential_plain,
            r.tx_hash == tx_hash,
    {
        IssueResult {
            issuer_did,
            holder_did,
            issuer_cipher: sealed.1,
            holder_cipher: sealed.2,
            signed_credential_encrypt: sealed.0,
            signed_credential_plain,
            tx_hash,
        }
    }

    /// Opens a credential envelope addressed to `did`, with the private
    /// encryption key on record.
    pub fn vc_credential_decrypt(dids: &DidStore, did: &str, encrypted: &str, cipher: &str) -> (r:
        Result<String, Error>)
        requires
            dids.wf(),
            encrypted@.len() <= MAX_ENVELOPE_INPUT as int,
            cipher@.len() <= MAX_ENVELOPE_INPUT as int,
        ensures
            match r {
                Ok(s) => exists|i: int|
                    did_record_at(dids@, did@, i) && unseal_spec(
                        encrypted@,
                        cipher@,
                        (#[trigger] dids@[i]).encrypt_private_key@,
                    ) == Ok::<Seq<char>, Error>(s@),
                Err(e) => {
                    ||| e == Error::RecordNotFound && !has_did_record(dids@, did@)
                    ||| exists|i: int|
                        did_record_at(dids@, did@, i) && unseal_spec(
                            encrypted@,
                            cipher@,
                            (#[trigger] dids@[i]).encrypt_private_key@,
                        ) == Err::<Seq<char>, Error>(e)
                },
            },
    {
        let owner = match dids.find_by_id(did) {
            Ok(v) => v,
            Err(e) => {
                return Err(e);
            },
        };
        envelope::unseal(encrypted, cipher, owner.encrypt_private_key.as_str())
    }

    /// The checks before a credential is posted to a live issuer for
    /// verification: the issuer must exist and be running, and the text
    /// must be JSON at all. Returns the issuer's service port.
    pub fn vc_credential_verify_precheck(
        registry: &IssuerRegistry,
        issuer_did: &str,
        signed_credential: &str,
    ) -> (r: Result<u16, Error>)
        requires
            registry.wf(),
        ensures
            match r {
                Ok(p) => exists|i: int|
                    {
                        &&& did_at(registry@, issuer_did@, i)
                        &&& (#[trigger] registry@[i]).status
                            == CredentialServiceStatus::Running.spec_code()
                        &&& p == registry@[i].service_address
                        &&& json_parses(signed_credential@)
                    },
                Err(e) => {
                    ||| e == Error::RecordNotFound && !has_did(registry@, issuer_did@)
                    ||| exists|i: int|
                        did_at(registry@, issuer_did@, i) && (#[trigger] registry@[i]).status
                            != CredentialServiceStatus::Running.spec_code() && e
                            == Error::VcIssuerNotRunning
                    ||| exists|i: int|
                        did_at(registry@, issuer_did@, i) && (#[trigger] registry@[i]).status
                            == CredentialServiceStatus::Running.spec_code() && !json_parses(
                            signed_credential@,
                        ) && e == Error::VcVerifyParserJsonError
                },
            },
    {
        let issuer = match registry.vc_issuer_get_by_did(issuer_did) {
            Ok(v) => v,
            Err(e) => {
                return Err(e);
            },
        };
        if issuer.status != CredentialServiceStatus::Running.status_code() {
            return Err(Error::VcIssuerNotRunning);
        }
        if !json_is_valid(signed_credential) {
            return Err(Error::VcVerifyParserJsonError);
        }
        Ok(issuer.service_address as u16)
    }

    /// The verdict on what a verifier reported: valid only with zero
    /// errors.
    pub fn vc_credential_verify_conclude(outcome: &VerifyResult) -> (r: Result<bool, Error>)
        ensures
            match r {
                Ok(b) => b && outcome.errors@.len() == 0,
                Err(e) => e == Error::VcVerifyError && outcome.errors@.len() > 0,
            },
    {
        if outcome.errors.len() > 0 {
            Err(Error::VcVerifyError)
        } else {
            Ok(true)
        }
    }

    /// Verifies a signed credential through the in-process signer: the
    /// issuer must exist, the text must parse, and the signer's report
    /// must carry no errors.
    pub fn vc_credential_verify_with_lib(
        registry: &IssuerRegistry,
        issuer_did: &str,
        signed_credential: &str,
        outcome: &VerifyResult,
    ) -> (r: Result<bool, Error>)
        ensures
            match r {
                Ok(b) => {
                    &&& b
                    &&& has_did(registry@, issuer_did@)
                    &&& json_parses(signed_credential@)
                    &&& outcome.errors@.len() == 0
                },
                Err(e) => {
                    ||| e == Error::RecordNotFound && !has_did(registry@, issuer_did@)
                    ||| e == Error::VcVerifyParserJsonError && has_did(registry@, issuer_did@)
                        && !json_parses(signed_credential@)
                    ||| e == Error::VcVerifyError && has_did(registry@, issuer_did@) && json_parses(
                        signed_credential@,
                    ) && outcome.errors@.len() > 0
                },
            },
    {
        let _issuer = match registry.vc_issuer_get_by_did(issuer_did) {
            Ok(v) => v,
            Err(e) => {
                return Err(e);
            },
        };
        if !json_is_valid(signed_credential) {
            return Err(Error::VcVerifyParserJsonError);
        }
        Self::vc_credential_verify_conclude(outcome)
    }

    /// Whether the on-chain record marks the credential revoked. Pure
    /// read of the registry contract's answer, never a local cache.
    pub fn is_revoked(info: &RevokedInfo) -> (r: bool)
        ensures
            r == info.active,
    {
        info.active
    }

    /// Decides a revocation request. Already-revoked credentials succeed
    /// with nothing to submit; a caller whose decrypted credential does
    /// not claim the id it asks to revoke is turned away as not the
    /// issuer; otherwise the revocation transaction is spelled out.
    pub fn vc_credential_revoke_plan(
        info: &RevokedInfo,
        decrypted_credential: &str,
        credential_id: &str,
        issuer_did: &str,
        cert_type: &str,
        now: i64,
    ) -> (r: Result<RevokeAction, Error>)
        ensures
            match r {
                Ok(a) => match a {
                    RevokeAction::AlreadyRevoked => info.active,
                    RevokeAction::Submit { revoked_time, cert_type: ct, credential_id: id, issuer } => {
                        &&& !info.active
                        &&& doc_claims_id(decrypted_credential@, credential_id@)
                        &&& revoked_time == now
                        &&& ct@ == cert_type@
                        &&& id@ == credential_id@
                        &&& issuer@ == issuer_did@
                    },
                },
                Err(e) => {
                    &&& e == Error::VcRevokeNotIssuer
                    &&& !info.active
                    &&& !doc_claims_id(decrypted_credential@, credential_id@)
                },
            },
    {
        if info.active {
            return Ok(RevokeAction::AlreadyRevoked);
        }
        if !credential_claims_id(decrypted_credential, credential_id) {
            return Err(Error::VcRevokeNotIssuer);
        }
        Ok(
            RevokeAction::Submit {
                revoked_time: now,
                cert_type: cert_type.to_owned(),
                credential_id: credential_id.to_owned(),
                issuer: issuer_did.to_owned(),
            },
        )
    }

    /// The composed validity check: decrypt with the key on record, then
    /// the signer's verdict, and only after a valid signature the
    /// revocation record — see
    /// [`lemma_revocation_checked_after_signature`].
    pub fn credential_verify_full(
        dids: &DidStore,
        did: &str,
        encrypted: &str,
        cipher: &str,
        sig_outcome: &VerifyResult,
        revoked: &RevokedInfo,
    ) -> (r: Result<bool, Error>)
        requires
            dids.wf(),
            encrypted@.len() <= MAX_ENVELOPE_INPUT as int,
            cipher@.len() <= MAX_ENVELOPE_INPUT as int,
        ensures
            r == spec_verify_full(
                dids@,
                did@,
                encrypted@,
                cipher@,
                sig_outcome.errors@.len() as int,
                revoked.active,
            ),
    {
        let owner = match dids.find_by_id(did) {
            Ok(v) => v,
            Err(e) => {
                return Err(e);
            },
        };
        proof {
            let i = choose|i: int| did_record_at(dids@, did@, i);
            let j = choose|j: int| did_record_at(dids@, did@, j) && owner == dids@[j];
            assert(did_record_at(dids@, did@, i));
            assert(i == j) by {
                if i < j {
                    assert(dids@[i].id@ != dids@[j].id@);
                }
                if j < i {
                    assert(dids@[j].id@ != dids@[i].id@);
                }
            }
        }
        match envelope::unseal(encrypted, cipher, owner.encrypt_private_key.as_str()) {
            Err(e) => Err(e),
            Ok(_) => {
                if sig_outcome.errors.len() > 0 {
                    Err(Error::VcVerifyError)
                } else if Self::is_revoked(revoked) {
                    Err(Error::VcRevokedError)
                } else {
                    Ok(true)
                }
            },
        }
    }

    /// The verdict on what the presentation verifier reported.
    pub fn vp_verify(signed_presentation: &str, outcome: &VerifyResult) -> (r: Result<bool, Error>)
        ensures
            match r {
                Ok(b) => b && json_parses(signed_presentation@) && outcome.errors@.len() == 0,
                Err(e) => {
                    ||| e == Error::VcVerifyParserJsonError && !json_parses(signed_presentation@)
                    ||| e == Error::VpVerifyError && json_parses(signed_presentation@)
                        && outcome.errors@.len() > 0
                },
            },
    {
        if !json_is_valid(signed_presentation) {
            return Err(Error::VcVerifyParserJsonError);
        }
        if outcome.errors.len() > 0 {
            return Err(Error::VpVerifyError);
        }
        Ok(true)
    }

    /// Builds the unsigned presentation wrapping one signed credential
    /// under the holder's DID: the holder must hold a DID record (its key
    /// signs the presentation) and the credential must be JSON.
    pub fn vp_presentation_prepare(dids: &DidStore, holder: &str, signed_credential: &str) -> (r:
        Result<String, Error>)
        ensures
            match r {
                Ok(s) => {
                    &&& has_did_record(dids@, holder@)
                    &&& json_parses(signed_credential@)
                    &&& exists|u: Seq<char>|
                        u.len() == 36 && s@ == vp_unsigned_json(holder@, signed_credential@, u)
                },
                Err(e) => {
                    ||| e == Error::RecordNotFound && !has_did_record(dids@, holder@)
                    ||| e == Error::VcVerifyParserJsonError && has_did_record(dids@, holder@)
                        && !json_parses(signed_credential@)
                },
            },
    {
        let _holder_record = match dids.find_by_id(holder) {
            Ok(v) => v,
            Err(e) => {
                return Err(e);
            },
        };
        if !json_is_valid(signed_credential) {
            return Err(Error::VcVerifyParserJsonError);
        }
        Ok(build_unsigned_vp(holder, signed_credential))
    }
}

/// The spec of the expiry conversion a credential kind performs; adult
/// proofs carry no expiry.
pub open spec fn spec_convert_expiry_of(c: Credentials, now: i64) -> Result<Seq<char>, Error> {
    match c {
        Credentials::AdultProve(_) => Ok(Seq::empty()),
        Credentials::PersonalIdentity(p) => crate::credentials::spec_convert_expiry(now, p.expiry@),
    }
}

/// The presentation document wrapping one signed credential, for the
/// given holder and presentation id.
pub open spec fn vp_unsigned_json(holder: Seq<char>, credential: Seq<char>, id: Seq<char>) -> Seq<
    char,
> {
    "{\"@context\":[\"https://www.w3.org/2018/credentials/v1\",\"https://credential.codegene.xyz/context/adult.jsonld\"],\"id\":\"urn:uuid:"@
        + json_escaped(id) + "\",\"type\":[\"VerifiablePresentation\"],\"holder\":\""@
        + json_escaped(holder) + "\",\"verifiableCredential\":["@ + credential + "]}"@
}

/// Builds the unsigned single-credential presentation with a fresh id.
pub fn build_unsigned_vp(holder: &str, signed_credential: &str) -> (r: String)
    ensures
        exists|u: Seq<char>|
            u.len() == 36 && r@ == vp_unsigned_json(holder@, signed_credential@, u),
{
    let id = crate::credentials::new_credential_id();
    let mut out = String::from_str(
        "{\"@context\":[\"https://www.w3.org/2018/credentials/v1\",\"https://credential.codegene.xyz/context/adult.jsonld\"],\"id\":\"urn:uuid:",
    );
    let escaped_id = crate::credentials::json_escape(id.as_str());
    out.append(escaped_id.as_str());
    out.append("\",\"type\":[\"VerifiablePresentation\"],\"holder\":\"");
    let escaped_holder = crate::credentials::json_escape(holder);
    out.append(escaped_holder.as_str());
    out.append("\",\"verifiableCredential\":[");
    out.append(signed_credential);
    out.append("]}");
    proof {
        assert(out@ == vp_unsigned_json(holder@, signed_credential@, id@));
    }
    out
}

} // verus!

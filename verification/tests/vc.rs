use disn::credentials::{CredentialAdultProve, Credentials};
use disn::did::{DidService, DidStore};
use disn::error::Error;
use disn::issuer::IssuerRegistry;
use disn::vc::{
    build_unsigned_vp, contains_sub, credential_claims_id, Credential, CredentialService,
    RevokeAction, RevokedInfo, VerifyResult,
};

const NOW: i64 = 1654041600;

fn clean_report() -> VerifyResult {
    VerifyResult { checks: vec!["proof".to_string()], warnings: vec![], errors: vec![] }
}

fn failed_report() -> VerifyResult {
    VerifyResult {
        checks: vec![],
        warnings: vec![],
        errors: vec!["signature mismatch".to_string()],
    }
}

fn not_revoked() -> RevokedInfo {
    RevokedInfo {
        active: false,
        revoked_time: 0,
        cert_type: "adult".to_string(),
        issuer: "".to_string(),
    }
}

fn revoked() -> RevokedInfo {
    RevokedInfo {
        active: true,
        revoked_time: 123,
        cert_type: "adult".to_string(),
        issuer: "did:key:zIss".to_string(),
    }
}

#[test]
fn end_to_end_issue_decrypt_verify_revoke() {
    let mut dids = DidStore::new();
    let mut registry = IssuerRegistry::new();

    // Create DID A (issuer) and DID B (holder).
    DidService::did_create(&mut dids, "did:key:zA", "{\"kty\":\"OKP\"}", NOW).unwrap();
    DidService::did_create(&mut dids, "did:key:zB", "{\"kty\":\"OKP\"}", NOW).unwrap();

    // Create and run the issuer for A.
    registry.vc_issuer_create("did:key:zA", "ott", NOW).unwrap();
    registry.vc_issuer_service_run_commit("did:key:zA", 9100, Some(77), NOW).unwrap();

    // Issue a credential from A to B.
    let credential = Credential {
        issuer_did: "did:key:zA".to_string(),
        holder_did: "did:key:zB".to_string(),
        credential: Credentials::AdultProve(CredentialAdultProve {
            identity: "b@example.com".to_string(),
            is_adult: true,
        }),
    };
    let unsigned =
        CredentialService::vc_credential_issue_prepare(&registry, &dids, &credential, NOW)
            .unwrap();
    // The DID signer is an outside collaborator; its proof attachment does
    // not change what the envelope carries, so the unsigned document
    // stands in for the signed one here.
    let signed = unsigned;
    let (ciphertext, issuer_cipher, holder_cipher) =
        CredentialService::vc_credential_issue_seal(&dids, "did:key:zA", "did:key:zB", &signed)
            .unwrap();

    // Both parties decrypt the same ciphertext, each with their own blob,
    // to the same byte-for-byte document.
    let a_plain =
        CredentialService::vc_credential_decrypt(&dids, "did:key:zA", &ciphertext, &issuer_cipher)
            .unwrap();
    let b_plain =
        CredentialService::vc_credential_decrypt(&dids, "did:key:zB", &ciphertext, &holder_cipher)
            .unwrap();
    assert_eq!(a_plain, signed);
    assert_eq!(b_plain, signed);

    // The issue call hands everything back to the caller.
    let issued = CredentialService::vc_credential_issue_finish(
        "did:key:zA".to_string(),
        "did:key:zB".to_string(),
        (ciphertext.clone(), issuer_cipher.clone(), holder_cipher.clone()),
        signed.clone(),
        "0xhash".to_string(),
    );
    assert_eq!(issued.signed_credential_encrypt, ciphertext);
    assert_eq!(issued.issuer_cipher, issuer_cipher);
    assert_eq!(issued.holder_cipher, holder_cipher);
    assert_eq!(issued.signed_credential_plain, signed);
    assert_eq!(issued.tx_hash, "0xhash");

    // Verification succeeds while the signer reports no errors.
    assert!(CredentialService::vc_credential_verify_with_lib(
        &registry,
        "did:key:zA",
        &signed,
        &clean_report()
    )
    .unwrap());

    // Revoke: the decrypted credential claims its own id, so the plan is
    // a submission.
    let v: serde_json::Value = serde_json::from_str(&signed).unwrap();
    let credential_id = v.get("id").unwrap().as_str().unwrap().to_string();
    let action = CredentialService::vc_credential_revoke_plan(
        &not_revoked(),
        &a_plain,
        &credential_id,
        "did:key:zA",
        "adult",
        NOW + 10,
    )
    .unwrap();
    match action {
        RevokeAction::Submit { revoked_time, cert_type, credential_id: id, issuer } => {
            assert_eq!(revoked_time, NOW + 10);
            assert_eq!(cert_type, "adult");
            assert_eq!(id, credential_id);
            assert_eq!(issuer, "did:key:zA");
        }
        RevokeAction::AlreadyRevoked => panic!("an unrevoked credential must be submitted"),
    }

    // Once the registry reports the revocation, reads see it and the full
    // check fails with the revocation error.
    assert!(CredentialService::is_revoked(&revoked()));
    assert_eq!(
        CredentialService::credential_verify_full(
            &dids,
            "did:key:zA",
            &ciphertext,
            &issuer_cipher,
            &clean_report(),
            &revoked()
        )
        .unwrap_err(),
        Error::VcRevokedError
    );
}

#[test]
fn signature_error_wins_over_revocation() {
    let mut dids = DidStore::new();
    DidService::did_create(&mut dids, "did:key:zSig", "{}", NOW).unwrap();
    let sealed =
        CredentialService::vc_credential_issue_seal(&dids, "did:key:zSig", "did:key:zSig", "doc")
            .unwrap();

    // A signature-invalid but revoked credential reports the signature
    // error, never the revocation.
    assert_eq!(
        CredentialService::credential_verify_full(
            &dids,
            "did:key:zSig",
            &sealed.0,
            &sealed.1,
            &failed_report(),
            &revoked()
        )
        .unwrap_err(),
        Error::VcVerifyError
    );
}

#[test]
fn verify_full_passes_a_clean_credential() {
    let mut dids = DidStore::new();
    DidService::did_create(&mut dids, "did:key:zOk", "{}", NOW).unwrap();
    let sealed =
        CredentialService::vc_credential_issue_seal(&dids, "did:key:zOk", "did:key:zOk", "doc")
            .unwrap();
    assert!(CredentialService::credential_verify_full(
        &dids,
        "did:key:zOk",
        &sealed.0,
        &sealed.1,
        &clean_report(),
        &not_revoked()
    )
    .unwrap());
}

#[test]
fn verify_full_surfaces_decrypt_errors() {
    let mut dids = DidStore::new();
    DidService::did_create(&mut dids, "did:key:zD", "{}", NOW).unwrap();
    assert_eq!(
        CredentialService::credential_verify_full(
            &dids,
            "did:key:zD",
            "@@bad@@",
            "@@bad@@",
            &clean_report(),
            &not_revoked()
        )
        .unwrap_err(),
        Error::Base64DecodeError
    );
    assert_eq!(
        CredentialService::credential_verify_full(
            &dids,
            "did:key:missing",
            "QQ==",
            "QQ==",
            &clean_report(),
            &not_revoked()
        )
        .unwrap_err(),
        Error::RecordNotFound
    );
}

#[test]
fn revoking_twice_is_idempotent() {
    let action = CredentialService::vc_credential_revoke_plan(
        &revoked(),
        "whatever",
        "urn:uuid:x",
        "did:key:zI",
        "adult",
        NOW,
    )
    .unwrap();
    assert!(matches!(action, RevokeAction::AlreadyRevoked));
}

#[test]
fn revoking_anothers_credential_is_refused() {
    let doc = "{\"id\":\"urn:uuid:aaaa\",\"issuer\":\"did:key:zI\"}";
    let err = CredentialService::vc_credential_revoke_plan(
        &not_revoked(),
        doc,
        "urn:uuid:bbbb",
        "did:key:zI",
        "adult",
        NOW,
    )
    .unwrap_err();
    assert_eq!(err, Error::VcRevokeNotIssuer);
}

#[test]
fn issue_prepare_requires_all_records() {
    let registry = IssuerRegistry::new();
    let dids = DidStore::new();
    let credential = Credential {
        issuer_did: "did:key:zA".to_string(),
        holder_did: "did:key:zB".to_string(),
        credential: Credentials::AdultProve(CredentialAdultProve {
            identity: "x".to_string(),
            is_adult: false,
        }),
    };
    assert_eq!(
        CredentialService::vc_credential_issue_prepare(&registry, &dids, &credential, NOW)
            .unwrap_err(),
        Error::RecordNotFound
    );
}

#[test]
fn verify_precheck_gates_on_running_and_json() {
    let mut registry = IssuerRegistry::new();
    registry.vc_issuer_create("did:key:zV", "ott", NOW).unwrap();
    assert_eq!(
        CredentialService::vc_credential_verify_precheck(&registry, "did:key:zV", "{}")
            .unwrap_err(),
        Error::VcIssuerNotRunning
    );
    registry.vc_issuer_service_run_commit("did:key:zV", 9100, Some(5), NOW).unwrap();
    assert_eq!(
        CredentialService::vc_credential_verify_precheck(&registry, "did:key:zV", "not json")
            .unwrap_err(),
        Error::VcVerifyParserJsonError
    );
    assert_eq!(
        CredentialService::vc_credential_verify_precheck(&registry, "did:key:zV", "{}").unwrap(),
        9100
    );
}

#[test]
fn verify_with_lib_reports_signer_errors() {
    let mut registry = IssuerRegistry::new();
    registry.vc_issuer_create("did:key:zW", "ott", NOW).unwrap();
    assert_eq!(
        CredentialService::vc_credential_verify_with_lib(
            &registry,
            "did:key:zW",
            "{}",
            &failed_report()
        )
        .unwrap_err(),
        Error::VcVerifyError
    );
    assert_eq!(
        CredentialService::vc_credential_verify_with_lib(
            &registry,
            "did:key:zW",
            "not json",
            &clean_report()
        )
        .unwrap_err(),
        Error::VcVerifyParserJsonError
    );
}

#[test]
fn presentation_wraps_the_credential() {
    let mut dids = DidStore::new();
    DidService::did_create(&mut dids, "did:key:zH", "{}", NOW).unwrap();
    let credential = "{\"id\":\"urn:uuid:c\",\"issuer\":\"did:key:zI\"}";
    let vp = CredentialService::vp_presentation_prepare(&dids, "did:key:zH", credential).unwrap();
    let v: serde_json::Value = serde_json::from_str(&vp).expect("the presentation is valid JSON");
    assert_eq!(v.get("holder").unwrap().as_str().unwrap(), "did:key:zH");
    let wrapped = v.get("verifiableCredential").unwrap().as_array().unwrap();
    assert_eq!(wrapped.len(), 1);
    assert_eq!(wrapped[0].get("id").unwrap().as_str().unwrap(), "urn:uuid:c");
    assert_eq!(
        v.get("type").unwrap().as_array().unwrap()[0].as_str().unwrap(),
        "VerifiablePresentation"
    );

    assert_eq!(
        CredentialService::vp_presentation_prepare(&dids, "did:key:zH", "not json").unwrap_err(),
        Error::VcVerifyParserJsonError
    );
    assert_eq!(
        CredentialService::vp_presentation_prepare(&dids, "did:key:none", credential).unwrap_err(),
        Error::RecordNotFound
    );
}

#[test]
fn vp_verify_gates_on_json_and_errors() {
    assert!(CredentialService::vp_verify("{}", &clean_report()).unwrap());
    assert_eq!(
        CredentialService::vp_verify("not json", &clean_report()).unwrap_err(),
        Error::VcVerifyParserJsonError
    );
    assert_eq!(
        CredentialService::vp_verify("{}", &failed_report()).unwrap_err(),
        Error::VpVerifyError
    );
}

#[test]
fn substring_and_id_claims() {
    assert!(contains_sub("hello world", "lo wo"));
    assert!(contains_sub("abc", ""));
    assert!(!contains_sub("abc", "abcd"));
    assert!(!contains_sub("abc", "ac"));

    assert!(credential_claims_id("{\"id\":\"urn:uuid:a\"}", "urn:uuid:a"));
    assert!(!credential_claims_id("{\"id\":\"urn:uuid:a\"}", "urn:uuid:b"));
    // The needle is escaped as the serializer writes it.
    assert!(credential_claims_id("{\"id\":\"a\\\"b\"}", "a\"b"));
}

#[test]
fn unsigned_vp_has_fresh_ids() {
    let a = build_unsigned_vp("did:key:zH", "{\"x\":1}");
    let b = build_unsigned_vp("did:key:zH", "{\"x\":1}");
    assert_ne!(a, b);
}

#[test]
fn duplicate_did_is_rejected() {
    let mut dids = DidStore::new();
    DidService::did_create(&mut dids, "did:key:zDup", "{}", NOW).unwrap();
    assert_eq!(
        DidService::did_create(&mut dids, "did:key:zDup", "{}", NOW).unwrap_err(),
        Error::DuplicateRecord
    );
    assert_eq!(dids.find_by_id("did:key:zNo").unwrap_err(), Error::RecordNotFound);
    let record = dids.find_by_id("did:key:zDup").unwrap();
    assert_eq!(record.id, "did:key:zDup");
    assert_ne!(record.encrypt_private_key, record.encrypt_public_key);
}

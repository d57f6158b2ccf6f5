use disn::config::{api_checker, ChainSettings, ContractMeta, Environment};
use disn::error::Error;

#[test]
fn contract_addresses_resolve_by_name() {
    let chain = ChainSettings {
        controller_private_key: "SECRET-REDACTED".to_string(),
        contract_abi_path: "abi".to_string(),
        provider: "http://127.0.0.1:8545".to_string(),
        contracts: vec![
            ContractMeta { name: "identity".to_string(), address: "0x1111".to_string() },
            ContractMeta { name: "revocation".to_string(), address: "0x2222".to_string() },
            ContractMeta { name: "identity".to_string(), address: "0x3333".to_string() },
        ],
    };
    // The first configured entry under a name wins.
    assert_eq!(chain.get_contract_address("identity"), Some("0x1111"));
    assert_eq!(chain.get_contract_address("revocation"), Some("0x2222"));
    assert_eq!(chain.get_contract_address("escrow"), None);
}

#[test]
fn api_key_is_checked_by_exact_match() {
    assert!(api_checker("SECRET-REDACTED", "SECRET-REDACTED"));
    assert!(!api_checker("SECRET-REDACTED", "SECRET-REDACTED-2"));
    assert!(!api_checker("", "SECRET-REDACTED"));
}

#[test]
fn environment_names_round_trip() {
    assert_eq!(Environment::Local.as_str(), "local");
    assert_eq!(Environment::Production.as_str(), "production");
    assert_eq!(Environment::try_from("local").unwrap(), Environment::Local);
    assert_eq!(Environment::try_from("Production").unwrap(), Environment::Production);
    assert_eq!(Environment::try_from("LOCAL").unwrap(), Environment::Local);
    let err = Environment::try_from("staging").unwrap_err();
    assert!(err.contains("staging"));
    assert!(err.contains("not a supported environment"));
}

#[test]
fn error_messages_name_their_cause() {
    assert_eq!(Error::VcIssuerRunningError.message(), "VC Issuer running error");
    assert_eq!(Error::VcVerifyError.message(), "VC Verify error");
    assert_eq!(Error::Base64DecodeError.message(), "base64 decode error");
    assert_eq!(Error::VcRevokedError.message(), "VC revoked error");
}

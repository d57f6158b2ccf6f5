use disn::passbase::{DataPoint, HookData, Owner, PassbaseService, Resource};
use disn::response::{ApiFailure, ApiVersion};

fn card_resource(birth: Option<&str>) -> Resource {
    Resource {
        datapoints: DataPoint {
            date_of_birth: birth.map(|b| b.to_string()),
            document_number: Some("X1".to_string()),
        },
        data_type: "NATIONAL_ID_CARD".to_string(),
    }
}

#[test]
fn adult_is_recognised_from_an_approved_card() {
    let resources = vec![card_resource(Some("1992-12-09"))];
    assert_eq!(
        PassbaseService::process_identity_is_adult("approved", &resources, 2022),
        Some(true)
    );
}

#[test]
fn minor_is_recognised_from_an_approved_card() {
    let resources = vec![card_resource(Some("2010-03-15"))];
    assert_eq!(
        PassbaseService::process_identity_is_adult("approved", &resources, 2022),
        Some(false)
    );
    // The threshold is in whole calendar years.
    let resources = vec![card_resource(Some("2004-01-01"))];
    assert_eq!(
        PassbaseService::process_identity_is_adult("approved", &resources, 2022),
        Some(true)
    );
}

#[test]
fn undecidable_identities_stay_undecided() {
    let resources = vec![card_resource(Some("1992-12-09"))];
    assert_eq!(PassbaseService::process_identity_is_adult("pending", &resources, 2022), None);
    assert_eq!(PassbaseService::process_identity_is_adult("approved", &vec![], 2022), None);

    let passport = vec![Resource {
        datapoints: DataPoint {
            date_of_birth: Some("1992-12-09".to_string()),
            document_number: None,
        },
        data_type: "PASSPORT".to_string(),
    }];
    assert_eq!(PassbaseService::process_identity_is_adult("approved", &passport, 2022), None);

    let unreadable = vec![card_resource(Some("twelfth of never"))];
    assert_eq!(PassbaseService::process_identity_is_adult("approved", &unreadable, 2022), None);
    let missing = vec![card_resource(None)];
    assert_eq!(PassbaseService::process_identity_is_adult("approved", &missing, 2022), None);
}

#[test]
fn hook_and_owner_carry_their_fields() {
    let hook = HookData {
        event: "VERIFICATION_REVIEWED".to_string(),
        key: "ddd2a2b6-db6a-4967-8a46-ebe33d738ff7".to_string(),
        status: "approved".to_string(),
        created: 1648712399,
        updated: 1648712399,
        processed: 1648712399,
    };
    assert_eq!(hook.event, "VERIFICATION_REVIEWED");
    assert_eq!(hook.status, "approved");

    let owner = Owner {
        email: "o@example.com".to_string(),
        first_name: Some("O".to_string()),
        last_name: None,
    };
    assert_eq!(owner.email, "o@example.com");
}

#[test]
fn failure_replies_carry_code_and_message() {
    let failure = ApiFailure::new("1.0".to_string(), 400, "VC Issue error".to_string());
    assert_eq!(failure.api_version.api_version, "1.0");
    assert_eq!(failure.body.code, 400);
    assert_eq!(failure.body.message, "VC Issue error");
    let v = ApiVersion::new("2.0".to_string());
    assert_eq!(v.api_version, "2.0");
}

//! The identity-verification hook.
//!
//! The verification provider reports an identity over HTTP; fetching it
//! and persisting the outcome is outside work. What is decided here, from
//! the reported facts alone, is whether the person is provably an adult —
//! the claim the adult-proof credential then carries.

use vstd::prelude::*;

verus! {

/// The age, in whole calendar years, from which the adult claim holds.
pub const ADULT_AGE_YEARS: i32 = 18;

/// What chrono recovers from a `%Y-%m-%d` date string: its calendar
/// year; `None` where the string is no such date. The bound is chrono's
/// documented year range.
pub uninterp spec fn date_year_of(s: Seq<char>) -> Option<i32>;

/// Relies on chrono's `NaiveDate::parse_from_str` and `Datelike::year`.
#[verifier::external_body]
fn parse_birth_year(s: &str) -> (r: Option<i32>)
    ensures
        r == date_year_of(s@),
        r matches Some(y) ==> -262200 <= y <= 262200,
{
    match chrono::NaiveDate::parse_from_str(s, "%Y-%m-%d") {
        Ok(d) => Some(chrono::Datelike::year(&d)),
        Err(_) => None,
    }
}

/// The registered owner of a verified identity.
#[derive(Debug)]
pub struct Owner {
    pub email: String,
    pub first_name: Option<String>,
    pub last_name: Option<String>,
}

/// The data points read off an identity document.
#[derive(Debug)]
pub struct DataPoint {
    pub date_of_birth: Option<String>,
    pub document_number: Option<String>,
}

/// One verified resource of an identity: a document and its data points.
#[derive(Debug)]
pub struct Resource {
    pub datapoints: DataPoint,
    pub data_type: String,
}

/// What the provider's webhook posts when a verification moves.
#[derive(Debug)]
pub struct HookData {
    pub event: String,
    pub key: String,
    pub status: String,
    pub created: i64,
    pub updated: i64,
    pub processed: i64,
}

/// Whether the reported identity proves an adult: only an approved
/// verification whose first resource is a national id card with a
/// readable date of birth can tell, and then the answer is whether the
/// person's age in calendar years has reached `ADULT_AGE_YEARS`.
pub open spec fn spec_identity_is_adult(
    status: Seq<char>,
    resources: Seq<Resource>,
    now_year: i32,
) -> Option<bool> {
    if status == "approved"@ && resources.len() > 0 && resources[0].data_type@
        == "NATIONAL_ID_CARD"@ {
        match resources[0].datapoints.date_of_birth {
            None => None,
            Some(birth) => match date_year_of(birth@) {
                None => None,
                Some(y) => Some(now_year - y >= ADULT_AGE_YEARS),
            },
        }
    } else {
        None
    }
}

/// The decisions around the identity-verification provider.
pub struct PassbaseService;

impl PassbaseService {
    /// Decides the adult claim from a reported identity's facts.
    pub fn process_identity_is_adult(status: &str, resources: &Vec<Resource>, now_year: i32) -> (r:
        Option<bool>)
        requires
            0 <= now_year <= 10000,
        ensures
            r == spec_identity_is_adult(status@, resources@, now_year),
    {
        let approved = "approved".to_owned();
        let card = "NATIONAL_ID_CARD".to_owned();
        let status_owned = status.to_owned();
        if !(status_owned == approved) {
            return None;
        }
        if resources.len() == 0 {
            return None;
        }
        if !(resources[0].data_type == card) {
            return None;
        }
        match &resources[0].datapoints.date_of_birth {
            None => None,
            Some(birth) => match parse_birth_year(birth.as_str()) {
                None => None,
                Some(y) => Some(now_year - y >= ADULT_AGE_YEARS),
            },
        }
    }
}

} // verus!

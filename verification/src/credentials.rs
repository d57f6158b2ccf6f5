//! Credential documents.
//!
//! The unsigned credential is a JSON document built against a fixed schema
//! per credential kind: a closed sum of variants, each with its own claims.
//! The text is produced here, character for character, including the JSON
//! string escaping; the postconditions pin the exact document for given
//! field values. The personal-identity variant caps the expiry date at 180
//! days from issue time.

use vstd::prelude::*;

use crate::error::Error;

verus! {

/// Days a personal-identity credential may stay valid, at most.
pub const MAX_EXPIRY_DAYS: i64 = 180;

/// `MAX_EXPIRY_DAYS`, in seconds: what a clamped expiry becomes.
pub const EXPIRY_CLAMP_SECONDS: i64 = 180 * 86400;

/// The lowest whole-second distance at which the requested expiry lies
/// strictly more than `MAX_EXPIRY_DAYS` whole days away.
pub const EXPIRY_OVER_SECONDS: i64 = 181 * 86400;

// ---- What the outside crates compute, by name ----

/// What chrono recovers from a `%Y/%m/%d` date string: the Unix timestamp
/// of that date's midnight, UTC; `None` where the string is no such date.
pub uninterp spec fn date_seconds_of(s: Seq<char>) -> Option<i64>;

/// What chrono prints for a Unix timestamp in RFC 3339 at seconds
/// precision with a `Z` offset.
pub uninterp spec fn rfc3339_of(secs: i64) -> Seq<char>;

// ---- Trusted wrappers around the outside crates ----

/// Relies on chrono's `NaiveDateTime::parse_from_str`, reading the date as
/// its midnight UTC. The timestamp bound is chrono's documented date range
/// (about ±262000 years).
#[verifier::external_body]
fn parse_date_ymd(s: &str) -> (r: Option<i64>)
    ensures
        r == date_seconds_of(s@),
        r matches Some(d) ==> -9_000_000_000_000 <= d <= 9_000_000_000_000,
{
    match chrono::NaiveDateTime::parse_from_str(&format!("{} 00:00:00", s), "%Y/%m/%d %H:%M:%S") {
        Ok(dt) => Some(dt.and_utc().timestamp()),
        Err(_) => None,
    }
}

/// Relies on chrono's `DateTime::from_timestamp` — `Some` across its
/// documented range, which covers all of `±8e12` seconds — and
/// `to_rfc3339_opts` with seconds precision and a `Z` offset.
#[verifier::external_body]
fn format_rfc3339_seconds(secs: i64) -> (r: Option<String>)
    ensures
        r matches Some(s) ==> s@ == rfc3339_of(secs),
        -8_000_000_000_000 <= secs <= 8_000_000_000_000 ==> r is Some,
{
    match chrono::DateTime::<chrono::Utc>::from_timestamp(secs, 0) {
        Some(dt) => Some(dt.to_rfc3339_opts(chrono::SecondsFormat::Secs, true)),
        None => None,
    }
}

/// Relies on `uuid::Uuid::new_v4` and its hyphenated display form, which
/// is 36 characters. The identifier itself is random: nothing more is
/// promised.
#[verifier::external_body]
fn uuid_v4_string() -> (r: String)
    ensures
        r@.len() == 36,
{
    uuid::Uuid::new_v4().to_string()
}

/// A fresh credential id: a random UUID in its 36-character hyphenated
/// form.
pub fn new_credential_id() -> (r: String)
    ensures
        r@.len() == 36,
{
    uuid_v4_string()
}

// ---- JSON string escaping ----

pub open spec fn hex_digit_str(n: int) -> Seq<char> {
    if n == 0 {
        "0"@
    } else if n == 1 {
        "1"@
    } else if n == 2 {
        "2"@
    } else if n == 3 {
        "3"@
    } else if n == 4 {
        "4"@
    } else if n == 5 {
        "5"@
    } else if n == 6 {
        "6"@
    } else if n == 7 {
        "7"@
    } else if n == 8 {
        "8"@
    } else if n == 9 {
        "9"@
    } else if n == 10 {
        "a"@
    } else if n == 11 {
        "b"@
    } else if n == 12 {
        "c"@
    } else if n == 13 {
        "d"@
    } else if n == 14 {
        "e"@
    } else {
        "f"@
    }
}

/// How one character appears inside a JSON string literal.
pub open spec fn json_escape_char(c: char) -> Seq<char> {
    if c == '"' {
        "\\\""@
    } else if c == '\\' {
        "\\\\"@
    } else if c == '\n' {
        "\\n"@
    } else if c == '\r' {
        "\\r"@
    } else if c == '\t' {
        "\\t"@
    } else if (c as u32) < 0x20 {
        "\\u00"@ + hex_digit_str(((c as u32) >> 4) as int) + hex_digit_str(((c as u32) & 0xF) as int)
    } else {
        seq![c]
    }
}

/// A character sequence as it appears inside a JSON string literal.
pub open spec fn json_escaped(s: Seq<char>) -> Seq<char>
    decreases s.len(),
{
    if s.len() == 0 {
        Seq::empty()
    } else {
        json_escaped(s.drop_last()) + json_escape_char(s.last())
    }
}

/// A JSON boolean literal.
pub open spec fn json_bool(b: bool) -> Seq<char> {
    if b {
        "true"@
    } else {
        "false"@
    }
}

/// Relies on `String::push`.
#[verifier::external_body]
pub(crate) fn push_char(s: &mut String, c: char)
    ensures
        final(s)@ == old(s)@ + seq![c],
{
    s.push(c);
}

fn append_hex_digit(out: &mut String, n: u32)
    requires
        n < 16,
    ensures
        final(out)@ == old(out)@ + hex_digit_str(n as int),
{
    match n {
        0 => out.append("0"),
        1 => out.append("1"),
        2 => out.append("2"),
        3 => out.append("3"),
        4 => out.append("4"),
        5 => out.append("5"),
        6 => out.append("6"),
        7 => out.append("7"),
        8 => out.append("8"),
        9 => out.append("9"),
        10 => out.append("a"),
        11 => out.append("b"),
        12 => out.append("c"),
        13 => out.append("d"),
        14 => out.append("e"),
        _ => out.append("f"),
    }
}

/// Escapes a string for embedding in a JSON string literal.
pub fn json_escape(s: &str) -> (r: String)
    ensures
        r@ == json_escaped(s@),
{
    let n = s.unicode_len();
    let mut r = String::new();
    let mut i: usize = 0;
    while i < n
        invariant
            n == s@.len(),
            i <= n,
            r@ == json_escaped(s@.take(i as int)),
        decreases n - i,
    {
        let c = s.get_char(i);
        proof {
            assert(s@.take(i + 1 as int).drop_last() =~= s@.take(i as int));
            assert(s@.take(i + 1 as int).last() == s@[i as int]);
        }
        let ghost pre = r@;
        if c == '"' {
            r.append("\\\"");
        } else if c == '\\' {
            r.append("\\\\");
        } else if c == '\n' {
            r.append("\\n");
        } else if c == '\r' {
            r.append("\\r");
        } else if c == '\t' {
            r.append("\\t");
        } else if (c as u32) < 0x20 {
            proof {
                let u = c as u32;
                assert(u >> 4 < 16 && u & 0xF < 16) by (bit_vector)
                    requires
                        u < 0x20,
                ;
            }
            r.append("\\u00");
            append_hex_digit(&mut r, (c as u32) >> 4);
            append_hex_digit(&mut r, (c as u32) & 0xF);
            proof {
                assert(r@ =~= pre + json_escape_char(c));
            }
        } else {
            push_char(&mut r, c);
        }
        i = i + 1;
    }
    proof {
        assert(s@.take(n as int) =~= s@);
    }
    r
}

fn append_str_field(out: &mut String, pre: &str, value: &str)
    ensures
        final(out)@ == old(out)@ + pre@ + json_escaped(value@),
{
    out.append(pre);
    let escaped = json_escape(value);
    out.append(escaped.as_str());
}

fn append_bool_field(out: &mut String, pre: &str, value: bool)
    ensures
        final(out)@ == old(out)@ + pre@ + json_bool(value),
{
    out.append(pre);
    if value {
        out.append("true");
    } else {
        out.append("false");
    }
}

// ---- The identity-verification result handed in by the API ----

#[derive(Debug)]
pub struct Face {
    pub is_identical: bool,
    pub confidence: String,
}

#[derive(Debug)]
pub struct PersonalInfo {
    pub document_number: String,
    pub first_name: String,
    pub last_name: String,
    pub full_name: String,
    pub sex: String,
    pub dob: String,
    pub expiry: String,
    pub days_to_expiry: i64,
    pub issued: String,
    pub days_from_issue: i64,
    pub address1: String,
    pub optional_data: String,
    pub document_type: String,
    pub document_side: String,
    pub issue_authority: String,
    pub issuer_org_full: String,
    pub issuer_org_iso2: String,
    pub issuer_org_iso3: String,
    pub nationality_full: String,
    pub nationality_iso2: String,
    pub nationality_iso3: String,
}

#[derive(Debug)]
pub struct PersonalVerificationResult {
    pub face: bool,
    pub checkdigit: bool,
}

#[derive(Debug)]
pub struct PersonalVerification {
    pub passed: bool,
    pub result: PersonalVerificationResult,
}

#[derive(Debug)]
pub struct PartyResult {
    pub result: PersonalInfo,
    pub face: Face,
    pub verification: PersonalVerification,
}

#[derive(Debug)]
pub struct VcIssuePersonalIdentityData {
    pub issuer_did: String,
    pub holder_did: String,
    pub result: PartyResult,
}

// ---- The credential variants ----

/// Claims of the adult-proof credential.
#[derive(Debug)]
pub struct CredentialAdultProve {
    pub identity: String,
    pub is_adult: bool,
}

/// Claims of the personal-identity credential.
#[derive(Debug)]
pub struct CredentialPersonalIdentity {
    pub document_number: String,
    pub document_type: String,
    pub first_name: String,
    pub last_name: String,
    pub full_name: String,
    pub sex: String,
    pub dob: String,
    pub address: String,
    pub issuer_org_full: String,
    pub issuer_org_iso2: String,
    pub issuer_org_iso3: String,
    pub nationality_full: String,
    pub nationality_iso2: String,
    pub nationality_iso3: String,
    pub expiry: String,
    pub issued: String,
    pub issue_authority: String,
    pub face_is_identical: bool,
    pub face_confidence_score: String,
    pub verification_face_result: bool,
    pub verification_digit_result: bool,
}

impl From<PartyResult> for CredentialPersonalIdentity {
    fn from(party: PartyResult) -> (r: Self) {
        CredentialPersonalIdentity {
            document_number: party.result.document_number,
            document_type: party.result.document_type,
            first_name: party.result.first_name,
            last_name: party.result.last_name,
            full_name: party.result.full_name,
            sex: party.result.sex,
            dob: party.result.dob,
            address: party.result.address1,
            issuer_org_full: party.result.issuer_org_full,
            issuer_org_iso2: party.result.issuer_org_iso2,
            issuer_org_iso3: party.result.issuer_org_iso3,
            nationality_full: party.result.nationality_full,
            nationality_iso2: party.result.nationality_iso2,
            nationality_iso3: party.result.nationality_iso3,
            expiry: party.result.expiry,
            issued: party.result.issued,
            issue_authority: party.result.issue_authority,
            face_is_identical: party.face.is_identical,
            face_confidence_score: party.face.confidence,
            verification_face_result: party.verification.result.face,
            verification_digit_result: party.verification.result.checkdigit,
        }
    }
}

impl vstd::std_specs::convert::FromSpecImpl<PartyResult> for CredentialPersonalIdentity {
    open spec fn obeys_from_spec() -> bool {
        true
    }

    open spec fn from_spec(party: PartyResult) -> Self {
        CredentialPersonalIdentity {
            document_number: party.result.document_number,
            document_type: party.result.document_type,
            first_name: party.result.first_name,
            last_name: party.result.last_name,
            full_name: party.result.full_name,
            sex: party.result.sex,
            dob: party.result.dob,
            address: party.result.address1,
            issuer_org_full: party.result.issuer_org_full,
            issuer_org_iso2: party.result.issuer_org_iso2,
            issuer_org_iso3: party.result.issuer_org_iso3,
            nationality_full: party.result.nationality_full,
            nationality_iso2: party.result.nationality_iso2,
            nationality_iso3: party.result.nationality_iso3,
            expiry: party.result.expiry,
            issued: party.result.issued,
            issue_authority: party.result.issue_authority,
            face_is_identical: party.face.is_identical,
            face_confidence_score: party.face.confidence,
            verification_face_result: party.verification.result.face,
            verification_digit_result: party.verification.result.checkdigit,
        }
    }
}

// ---- The expiry cap ----

/// The expiration date written into a personal-identity credential, as a
/// function of issue time and the document's own expiry. A date more than
/// `MAX_EXPIRY_DAYS` whole days out is clamped to exactly that horizon;
/// one within it is taken verbatim. An expiry that does not parse — or
/// that chrono could not print again — fails the issue.
pub open spec fn spec_convert_expiry(now: i64, expiry: Seq<char>) -> Result<Seq<char>, Error> {
    match date_seconds_of(expiry) {
        None => Err(Error::VcIssueError),
        Some(d) => if d - now >= EXPIRY_OVER_SECONDS {
            Ok(rfc3339_of((now + EXPIRY_CLAMP_SECONDS) as i64))
        } else if -8_000_000_000_000 <= d <= 8_000_000_000_000 {
            Ok(rfc3339_of(d))
        } else {
            Err(Error::VcIssueError)
        },
    }
}

/// Caps a requested `%Y/%m/%d` expiry at `MAX_EXPIRY_DAYS` days from
/// `now`, returning it in RFC 3339 at seconds precision.
pub fn convert_expiry(now: i64, expiry: &str) -> (r: Result<String, Error>)
    requires
        0 <= now <= 100_000_000_000,
    ensures
        match r {
            Ok(s) => spec_convert_expiry(now, expiry@) == Ok::<Seq<char>, Error>(s@),
            Err(e) => spec_convert_expiry(now, expiry@) == Err::<Seq<char>, Error>(e),
        },
{
    let d = match parse_date_ymd(expiry) {
        Some(d) => d,
        None => {
            return Err(Error::VcIssueError);
        },
    };
    if d - now >= EXPIRY_OVER_SECONDS {
        match format_rfc3339_seconds(now + EXPIRY_CLAMP_SECONDS) {
            Some(s) => Ok(s),
            None => Err(Error::VcIssueError),
        }
    } else if -8_000_000_000_000 <= d && d <= 8_000_000_000_000 {
        match format_rfc3339_seconds(d) {
            Some(s) => Ok(s),
            None => Err(Error::VcIssueError),
        }
    } else {
        Err(Error::VcIssueError)
    }
}

// ---- The unsigned documents ----

/// The adult-proof credential document for the given parties and
/// credential id, exactly as issued.
pub open spec fn adult_prove_unsigned_json(
    c: CredentialAdultProve,
    issuer: Seq<char>,
    holder: Seq<char>,
    id: Seq<char>,
) -> Seq<char> {
    "{\"@context\":[\"https://www.w3.org/2018/credentials/v1\",\"https://credential.codegene.xyz/context/adult.jsonld\"],\"id\":\"urn:uuid:"@
        + json_escaped(id) + "\",\"type\":[\"VerifiableCredential\"],\"issuer\":\""@
        + json_escaped(issuer) + "\",\"holder\":\""@ + json_escaped(holder)
        + "\",\"credentialSubject\":{\"id\":\""@ + json_escaped(holder) + "\",\"email\":\""@
        + json_escaped(c.identity@) + "\",\"isAdult\":"@ + json_bool(c.is_adult) + "}}"@
}

/// The personal-identity credential document for the given parties,
/// credential id and (already capped) expiration date, exactly as issued.
pub open spec fn personal_identity_unsigned_json(
    c: CredentialPersonalIdentity,
    issuer: Seq<char>,
    holder: Seq<char>,
    id: Seq<char>,
    expiration: Seq<char>,
) -> Seq<char> {
    "{\"@context\":[\"https://www.w3.org/2018/credentials/v1\",\"https://credential.codegene.xyz/context/credential.jsonld\"],\"id\":\"urn:uuid:"@
        + json_escaped(id) + "\",\"type\":[\"VerifiableCredential\"],\"issuer\":\""@
        + json_escaped(issuer) + "\",\"holder\":\""@ + json_escaped(holder)
        + "\",\"expirationDate\":\""@ + json_escaped(expiration)
        + "\",\"credentialSubject\":{\"id\":\""@ + json_escaped(holder)
        + "\",\"documentNumber\":\""@ + json_escaped(c.document_number@)
        + "\",\"firstName\":\""@ + json_escaped(c.first_name@) + "\",\"lastName\":\""@
        + json_escaped(c.last_name@) + "\",\"fullName\":\""@ + json_escaped(c.full_name@)
        + "\",\"sex\":\""@ + json_escaped(c.sex@) + "\",\"dob\":\""@ + json_escaped(c.dob@)
        + "\",\"address1\":\""@ + json_escaped(c.address@) + "\",\"documentType\":\""@
        + json_escaped(c.document_type@) + "\",\"issuerOrgFull\":\""@
        + json_escaped(c.issuer_org_full@) + "\",\"issuerOrgIso2\":\""@
        + json_escaped(c.issuer_org_iso2@) + "\",\"issuerOrgIso3\":\""@
        + json_escaped(c.issuer_org_iso3@) + "\",\"nationalityFull\":\""@
        + json_escaped(c.nationality_full@) + "\",\"nationalityIso2\":\""@
        + json_escaped(c.nationality_iso2@) + "\",\"nationalityIso3\":\""@
        + json_escaped(c.nationality_iso3@) + "\",\"expiry\":\""@ + json_escaped(c.expiry@)
        + "\",\"issued\":\""@ + json_escaped(c.issued@) + "\",\"issueAuthority\":\""@
        + json_escaped(c.issue_authority@) + "\",\"faceIsIdentical\":"@ + json_bool(
        c.face_is_identical,
    ) + ",\"faceConfidence\":\""@ + json_escaped(c.face_confidence_score@)
        + "\",\"verificationFace\":"@ + json_bool(c.verification_face_result)
        + ",\"verificationDigit\":"@ + json_bool(c.verification_digit_result) + "}}"@
}

impl CredentialAdultProve {
    /// Builds the unsigned adult-proof credential with a fresh credential
    /// id.
    pub fn generate_unsigned(&self, issuer: &str, holder: &str) -> (r: String)
        ensures
            exists|u: Seq<char>|
                u.len() == 36 && r@ == adult_prove_unsigned_json(*self, issuer@, holder@, u),
    {
        let id = uuid_v4_string();
        let mut out = String::from_str(
            "{\"@context\":[\"https://www.w3.org/2018/credentials/v1\",\"https://credential.codegene.xyz/context/adult.jsonld\"],\"id\":\"urn:uuid:",
        );
        let escaped_id = json_escape(id.as_str());
        out.append(escaped_id.as_str());
        append_str_field(&mut out, "\",\"type\":[\"VerifiableCredential\"],\"issuer\":\"", issuer);
        append_str_field(&mut out, "\",\"holder\":\"", holder);
        append_str_field(&mut out, "\",\"credentialSubject\":{\"id\":\"", holder);
        append_str_field(&mut out, "\",\"email\":\"", self.identity.as_str());
        append_bool_field(&mut out, "\",\"isAdult\":", self.is_adult);
        out.append("}}");
        proof {
            assert(out@ == adult_prove_unsigned_json(*self, issuer@, holder@, id@));
        }
        out
    }
}

impl CredentialPersonalIdentity {
    /// Builds the unsigned personal-identity credential with a fresh
    /// credential id and the expiry cap applied.
    pub fn generate_unsigned(&self, issuer: &str, holder: &str, now: i64) -> (r: Result<
        String,
        Error,
    >)
        requires
            0 <= now <= 100_000_000_000,
        ensures
            match r {
                Ok(s) => {
                    &&& spec_convert_expiry(now, self.expiry@) is Ok
                    &&& exists|u: Seq<char>|
                        u.len() == 36 && s@ == personal_identity_unsigned_json(
                            *self,
                            issuer@,
                            holder@,
                            u,
                            spec_convert_expiry(now, self.expiry@).unwrap(),
                        )
                },
                Err(e) => spec_convert_expiry(now, self.expiry@) == Err::<Seq<char>, Error>(e),
            },
    {
        let expiration = match convert_expiry(now, self.expiry.as_str()) {
            Ok(s) => s,
            Err(e) => {
                return Err(e);
            },
        };
        let id = uuid_v4_string();
        let mut out = String::from_str(
            "{\"@context\":[\"https://www.w3.org/2018/credentials/v1\",\"https://credential.codegene.xyz/context/credential.jsonld\"],\"id\":\"urn:uuid:",
        );
        let escaped_id = json_escape(id.as_str());
        out.append(escaped_id.as_str());
        append_str_field(&mut out, "\",\"type\":[\"VerifiableCredential\"],\"issuer\":\"", issuer);
        append_str_field(&mut out, "\",\"holder\":\"", holder);
        append_str_field(&mut out, "\",\"expirationDate\":\"", expiration.as_str());
        append_str_field(&mut out, "\",\"credentialSubject\":{\"id\":\"", holder);
        append_str_field(&mut out, "\",\"documentNumber\":\"", self.document_number.as_str());
        append_str_field(&mut out, "\",\"firstName\":\"", self.first_name.as_str());
        append_str_field(&mut out, "\",\"lastName\":\"", self.last_name.as_str());
        append_str_field(&mut out, "\",\"fullName\":\"", self.full_name.as_str());
        append_str_field(&mut out, "\",\"sex\":\"", self.sex.as_str());
        append_str_field(&mut out, "\",\"dob\":\"", self.dob.as_str());
        append_str_field(&mut out, "\",\"address1\":\"", self.address.as_str());
        append_str_field(&mut out, "\",\"documentType\":\"", self.document_type.as_str());
        append_str_field(&mut out, "\",\"issuerOrgFull\":\"", self.issuer_org_full.as_str());
        append_str_field(&mut out, "\",\"issuerOrgIso2\":\"", self.issuer_org_iso2.as_str());
        append_str_field(&mut out, "\",\"issuerOrgIso3\":\"", self.issuer_org_iso3.as_str());
        append_str_field(&mut out, "\",\"nationalityFull\":\"", self.nationality_full.as_str());
        append_str_field(&mut out, "\",\"nationalityIso2\":\"", self.nationality_iso2.as_str());
        append_str_field(&mut out, "\",\"nationalityIso3\":\"", self.nationality_iso3.as_str());
        append_str_field(&mut out, "\",\"expiry\":\"", self.expiry.as_str());
        append_str_field(&mut out, "\",\"issued\":\"", self.issued.as_str());
        append_str_field(&mut out, "\",\"issueAuthority\":\"", self.issue_authority.as_str());
        append_bool_field(&mut out, "\",\"faceIsIdentical\":", self.face_is_identical);
        append_str_field(&mut out, ",\"faceConfidence\":\"", self.face_confidence_score.as_str());
        append_bool_field(&mut out, "\",\"verificationFace\":", self.verification_face_result);
        append_bool_field(&mut out, ",\"verificationDigit\":", self.verification_digit_result);
        out.append("}}");
        proof {
            assert(out@ == personal_identity_unsigned_json(
                *self,
                issuer@,
                holder@,
                id@,
                expiration@,
            ));
        }
        Ok(out)
    }
}

/// The closed sum of credential kinds the service issues.
pub enum Credentials {
    AdultProve(CredentialAdultProve),
    PersonalIdentity(CredentialPersonalIdentity),
}

/// That `s` is the unsigned document issued for this credential, these
/// parties and this issue time, under some fresh credential id.
pub open spec fn unsigned_doc_ok(
    c: Credentials,
    issuer: Seq<char>,
    holder: Seq<char>,
    now: i64,
    s: Seq<char>,
) -> bool {
    match c {
        Credentials::AdultProve(a) => exists|u: Seq<char>|
            u.len() == 36 && s == adult_prove_unsigned_json(a, issuer, holder, u),
        Credentials::PersonalIdentity(p) => spec_convert_expiry(now, p.expiry@) is Ok
            && exists|u: Seq<char>|
            u.len() == 36 && s == personal_identity_unsigned_json(
                p,
                issuer,
                holder,
                u,
                spec_convert_expiry(now, p.expiry@).unwrap(),
            ),
    }
}

impl Credentials {
    /// The deployed contract a credential of this kind is anchored in.
    pub fn contract_name(&self) -> (r: &str)
        ensures
            r@ == "identity"@,
    {
        match self {
            Credentials::AdultProve(_) => "identity",
            Credentials::PersonalIdentity(_) => "identity",
        }
    }

    /// Builds the unsigned credential document for this kind.
    pub fn generate_unsigned(&self, issuer: &str, holder: &str, now: i64) -> (r: Result<
        String,
        Error,
    >)
        requires
            0 <= now <= 100_000_000_000,
        ensures
            match r {
                Ok(s) => unsigned_doc_ok(*self, issuer@, holder@, now, s@),
                Err(e) => match *self {
                    Credentials::AdultProve(_) => false,
                    Credentials::PersonalIdentity(c) => spec_convert_expiry(now, c.expiry@)
                        == Err::<Seq<char>, Error>(e),
                },
            },
    {
        match self {
            Credentials::AdultProve(c) => Ok(c.generate_unsigned(issuer, holder)),
            Credentials::PersonalIdentity(c) => c.generate_unsigned(issuer, holder, now),
        }
    }
}

} // verus!

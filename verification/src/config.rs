//! The application's configuration, as plain values.
//!
//! Reading the configuration files and the process environment is outside
//! work; what stands here is the shape of the settings and the pure
//! decisions over them: resolving a contract's deployed address, naming
//! the runtime environment, and the shared-secret check that guards the
//! HTTP surface.

use vstd::prelude::*;

verus! {

use vstd::string::*;

#[derive(Debug)]
pub struct PassbaseSettings {
    pub secret_api_key: String,
}

#[derive(Debug)]
pub struct ServerSettings {
    pub host: String,
    pub port: u16,
    pub backend_notify_url: String,
}

#[derive(Debug)]
pub struct DatabaseSettings {
    pub username: String,
    pub password: String,
    pub port: u16,
    pub host: String,
    pub database_name: String,
    pub require_ssl: bool,
}

#[derive(Debug)]
pub struct SecuritySettings {
    pub jwt_secret: String,
}

#[derive(Debug)]
pub struct DidSettings {
    pub didkit_path: String,
    pub api_key: String,
    pub vc_issuer_port_start: u16,
    pub predefined_issuers: String,
}

/// A deployed contract: its configured name and its address on chain.
#[derive(Debug)]
pub struct ContractMeta {
    pub name: String,
    pub address: String,
}

#[derive(Debug)]
pub struct ChainSettings {
    pub controller_private_key: String,
    pub contract_abi_path: String,
    pub provider: String,
    pub contracts: Vec<ContractMeta>,
}

#[derive(Debug)]
pub struct Settings {
    pub api_version: String,
    pub database: DatabaseSettings,
    pub server: ServerSettings,
    pub security: SecuritySettings,
    pub did: DidSettings,
    pub passbase: PassbaseSettings,
    pub chain: ChainSettings,
}

impl ChainSettings {
    /// The deployed address of the first configured contract under this
    /// name, if any.
    pub fn get_contract_address(&self, name: &str) -> (r: Option<&str>)
        ensures
            match r {
                Some(a) => exists|i: int|
                    {
                        &&& 0 <= i < self.contracts@.len()
                        &&& (#[trigger] self.contracts@[i]).name@ == name@
                        &&& a@ == self.contracts@[i].address@
                        &&& forall|j: int|
                            0 <= j < i ==> (#[trigger] self.contracts@[j]).name@ != name@
                    },
                None => forall|i: int|
                    0 <= i < self.contracts@.len() ==> (#[trigger] self.contracts@[i]).name@
                        != name@,
            },
    {
        let wanted = name.to_owned();
        let n = self.contracts.len();
        let mut i: usize = 0;
        while i < n
            invariant
                n == self.contracts@.len(),
                i <= n,
                wanted@ == name@,
                forall|j: int| 0 <= j < i ==> (#[trigger] self.contracts@[j]).name@ != name@,
            decreases n - i,
        {
            if self.contracts[i].name == wanted {
                return Some(self.contracts[i].address.as_str());
            }
            i = i + 1;
        }
        None
    }
}

/// The shared-secret check on every request: an exact string match.
pub fn api_checker(presented: &str, configured: &str) -> (r: bool)
    ensures
        r == (presented@ == configured@),
{
    let p = presented.to_owned();
    let c = configured.to_owned();
    p == c
}

/// The possible runtime environments of the application.
#[derive(Clone, Copy, PartialEq, Eq, Structural, Debug)]
pub enum Environment {
    Local,
    Production,
}

impl Environment {
    pub open spec fn spec_name(self) -> Seq<char> {
        match self {
            Environment::Local => "local"@,
            Environment::Production => "production"@,
        }
    }

    pub fn as_str(&self) -> (r: &'static str)
        ensures
            r@ == self.spec_name(),
    {
        match self {
            Environment::Local => "local",
            Environment::Production => "production",
        }
    }

    /// Reads an environment name, case-insensitively over ASCII.
    pub fn try_from(s: &str) -> (r: Result<Environment, String>)
        ensures
            match r {
                Ok(env) => env.spec_name() == ascii_lowered(s@),
                Err(_) => ascii_lowered(s@) != "local"@ && ascii_lowered(s@) != "production"@,
            },
    {
        let lowered = ascii_lowercase(s);
        if string_eq_literal(&lowered, "local") {
            Ok(Environment::Local)
        } else if string_eq_literal(&lowered, "production") {
            Ok(Environment::Production)
        } else {
            let mut m = String::from_str(s);
            m.append(" is not a supported environment. Use either `local` or `production`.");
            Err(m)
        }
    }
}

fn string_eq_literal(s: &String, lit: &str) -> (r: bool)
    ensures
        r == (s@ == lit@),
{
    let l = lit.to_owned();
    *s == l
}

/// One character, ASCII letters taken to lower case.
pub open spec fn ascii_lower_char(c: char) -> char {
    if 'A' <= c && c <= 'Z' {
        (((c as u8) + 32) as char)
    } else {
        c
    }
}

/// A string, ASCII letters taken to lower case.
pub open spec fn ascii_lowered(s: Seq<char>) -> Seq<char>
    decreases s.len(),
{
    if s.len() == 0 {
        Seq::empty()
    } else {
        ascii_lowered(s.drop_last()).push(ascii_lower_char(s.last()))
    }
}

fn ascii_lowercase(s: &str) -> (r: String)
    ensures
        r@ == ascii_lowered(s@),
{
    let n = s.unicode_len();
    let mut r = String::new();
    let mut i: usize = 0;
    while i < n
        invariant
            n == s@.len(),
            i <= n,
            r@ == ascii_lowered(s@.take(i as int)),
        decreases n - i,
    {
        let c = s.get_char(i);
        proof {
            assert(s@.take(i + 1 as int).drop_last() =~= s@.take(i as int));
            assert(s@.take(i + 1 as int).last() == s@[i as int]);
        }
        if 'A' <= c && c <= 'Z' {
            crate::credentials::push_char(&mut r, ((c as u8) + 32) as char);
        } else {
            crate::credentials::push_char(&mut r, c);
        }
        i = i + 1;
    }
    proof {
        assert(s@.take(n as int) =~= s@);
    }
    r
}

} // verus!

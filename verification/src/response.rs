//! The envelope every API reply travels in: a version tag and either a
//! data body or a coded failure.

use vstd::prelude::*;

verus! {

#[derive(Debug)]
pub struct ApiVersion {
    pub api_version: String,
}

impl ApiVersion {
    pub fn new(api_version: String) -> (r: ApiVersion)
        ensures
            r.api_version == api_version,
    {
        ApiVersion { api_version }
    }
}

#[derive(Debug)]
pub struct Success<T> {
    pub data: T,
}

#[derive(Debug)]
pub struct Failure {
    pub code: u16,
    pub message: String,
}

#[derive(Debug)]
pub struct ApiSuccess<T> {
    pub api_version: ApiVersion,
    pub body: Success<T>,
}

#[derive(Debug)]
pub struct ApiFailure {
    pub api_version: ApiVersion,
    pub body: Failure,
}

impl ApiFailure {
    /// A failure reply with its numeric code and message.
    pub fn new(api_version: String, code: u16, message: String) -> (r: ApiFailure)
        ensures
            r.api_version.api_version == api_version,
            r.body.code == code,
            r.body.message == message,
    {
        ApiFailure { api_version: ApiVersion { api_version }, body: Failure { code, message } }
    }
}

} // verus!

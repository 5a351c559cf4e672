//! The ways a translation can fail.
use vstd::prelude::*;

use crate::language::Language;

verus! {

/// A failure of the HTTP client: connection, timeout, or a body that could not be read.
#[verifier::external_type_specification]
#[verifier::external_body]
pub struct ExReqwestError(reqwest::Error);

/// Details of an error that a provider reported in its reply.
#[derive(Debug)]
pub enum ApiError {
    /// Baidu's error code, and the remedy that Baidu documents for it.
    Baidu { code: String, message: String },
    /// Youdao's error code.
    Youdao { code: String },
}

impl ApiError {
    /// One line that names the provider, the code and the remedy.
    pub fn describe(&self) -> (r: String)
        ensures
            match self {
                ApiError::Baidu { code, message } => r@ == "Baidu API Error ["@ + code@ + "]: "@
                    + message@,
                ApiError::Youdao { code } => r@ == "Youdao API Error ["@ + code@ + "]"@,
            },
    {
        match self {
            ApiError::Baidu { code, message } => {
                let mut r = "Baidu API Error [".to_owned();
                r.append(code.as_str());
                r.append("]: ");
                r.append(message.as_str());
                r
            },
            ApiError::Youdao { code } => {
                let mut r = "Youdao API Error [".to_owned();
                r.append(code.as_str());
                r.append("]");
                r
            },
        }
    }
}

/// Every way a translation can fail, the same for all providers.
#[derive(Debug)]
pub enum TranslatorError {
    /// The request did not get through: connection, timeout, or an unreadable reply.
    Reqwest(reqwest::Error),
    /// The provider answered, and said no.
    ApiError(ApiError),
    /// A language that the provider has no code for.
    UnknownLanguage(Language),
    /// A language code in a reply that no language has.
    CouldNotMapLanguage(Option<String>),
    /// The provider answered without a translation.
    NoResponse,
    /// The text is longer than the provider accepts: its length, then the limit.
    RequestToLong(u32, u32),
    /// The reply came with this HTTP status, which is not a success.
    RequestFailed(u16),
    /// The provider needs the source language, and none was given.
    NoLanguage,
    /// No provider goes by this name.
    UnrecognizedProvider(String),
    /// A secret that the provider needs was not supplied; the name of the setting.
    MissingCredentials(String),
}

} // verus!

//! The pure core of the emitted service code.
//!
//! The templates embed these same definitions in every generated project.
//! The copies here are verified, so the envelope types and the header
//! validation rule the skeleton ships with carry contracts of their own.

use vstd::prelude::*;
use vstd::string::*;
use crate::paths::str_eq;

verus! {

/// Response envelope used by the generated service's endpoints.
pub struct ResponseType<T> {
    pub success: bool,
    pub data: Option<T>,
    pub error: Option<String>,
}

impl<T> ResponseType<T> {
    /// A successful response carrying `data`.
    pub fn success(data: T) -> (r: Self)
        ensures
            r.success == true,
            r.data == Some(data),
            r.error is None,
    {
        ResponseType { success: true, data: Some(data), error: None }
    }

    /// An error response carrying `message`.
    pub fn error(message: String) -> (r: Self)
        ensures
            r.success == false,
            r.data is None,
            r.error == Some(message),
    {
        ResponseType { success: false, data: None, error: Some(message) }
    }
}

/// Rejections issued by the generated service's request validation.
#[derive(Debug)]
pub enum ValidationError {
    RapidApi(String),
    EnvVar(String),
}

/// The RapidAPI gate configuration the generated service runs with.
pub struct RapidApiConfig {
    pub api_key: String,
    pub proxy_secret: String,
    pub host: String,
}

impl RapidApiConfig {
    /// A configuration from its three parts.
    pub fn new(api_key: &str, proxy_secret: &str, host: &str) -> (r: Self)
        ensures
            r.api_key@ == api_key@,
            r.proxy_secret@ == proxy_secret@,
            r.host@ == host@,
    {
        RapidApiConfig {
            api_key: String::from_str(api_key),
            proxy_secret: String::from_str(proxy_secret),
            host: String::from_str(host),
        }
    }
}

/// Error body for the generated service's JSON extractor.
pub struct ErrorResponse {
    pub error: String,
}

/// Wrapper the generated service uses for its own JSON extraction.
pub struct CustomJson<T>(pub T);

/// The check at the heart of the generated service's middleware: the three
/// RapidAPI headers must be present and match the configuration, tested in
/// the order key, proxy secret, host.  `None` stands for a header that is
/// absent or not readable as text.
pub fn validate_rapidapi_headers(
    key: Option<&str>,
    proxy_secret: Option<&str>,
    host: Option<&str>,
    config: &RapidApiConfig,
) -> (r: Result<(), ValidationError>)
    ensures
        r is Ok <==> {
            &&& key matches Some(k) && k@ == config.api_key@
            &&& proxy_secret matches Some(p) && p@ == config.proxy_secret@
            &&& host matches Some(h) && h@ == config.host@
        },
        key is None ==> (r matches Err(ValidationError::RapidApi(m)) && m@
            == "Missing RapidAPI key"@),
        (key matches Some(k) && k@ != config.api_key@) ==> (r matches Err(
            ValidationError::RapidApi(m),
        ) && m@ == "Invalid RapidAPI key"@),
        ({
            &&& key matches Some(k) && k@ == config.api_key@
            &&& proxy_secret is None
        }) ==> (r matches Err(ValidationError::RapidApi(m)) && m@
            == "Missing RapidAPI proxy secret"@),
        ({
            &&& key matches Some(k) && k@ == config.api_key@
            &&& proxy_secret matches Some(p) && p@ != config.proxy_secret@
        }) ==> (r matches Err(ValidationError::RapidApi(m)) && m@
            == "Invalid RapidAPI proxy secret"@),
        ({
            &&& key matches Some(k) && k@ == config.api_key@
            &&& proxy_secret matches Some(p) && p@ == config.proxy_secret@
            &&& host is None
        }) ==> (r matches Err(ValidationError::RapidApi(m)) && m@ == "Missing RapidAPI host"@),
        ({
            &&& key matches Some(k) && k@ == config.api_key@
            &&& proxy_secret matches Some(p) && p@ == config.proxy_secret@
            &&& host matches Some(h) && h@ != config.host@
        }) ==> (r matches Err(ValidationError::RapidApi(m)) && m@ == "Invalid RapidAPI host"@),
{
    let k = match key {
        None => {
            return Err(ValidationError::RapidApi(String::from_str("Missing RapidAPI key")));
        },
        Some(k) => k,
    };
    if !str_eq(k, config.api_key.as_str()) {
        return Err(ValidationError::RapidApi(String::from_str("Invalid RapidAPI key")));
    }
    let p = match proxy_secret {
        None => {
            return Err(ValidationError::RapidApi(String::from_str(
                "Missing RapidAPI proxy secret",
            )));
        },
        Some(p) => p,
    };
    if !str_eq(p, config.proxy_secret.as_str()) {
        return Err(ValidationError::RapidApi(String::from_str("Invalid RapidAPI proxy secret")));
    }
    let h = match host {
        None => {
            return Err(ValidationError::RapidApi(String::from_str("Missing RapidAPI host")));
        },
        Some(h) => h,
    };
    if !str_eq(h, config.host.as_str()) {
        return Err(ValidationError::RapidApi(String::from_str("Invalid RapidAPI host")));
    }
    Ok(())
}

} // verus!

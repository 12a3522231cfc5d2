//! Unit tests for the substitution engine, path handling, the bundle, and
//! the skeleton's own types.

use scaffold::paths::{check_name, check_segment, join_path, str_eq};
use scaffold::skeleton::{
    validate_rapidapi_headers, RapidApiConfig, ResponseType, ValidationError,
};
use scaffold::subst::substitute;
use scaffold::templates::{placeholder_token, template_content};

#[test]
fn substitute_replaces_every_occurrence() {
    let r = substitute("abcabc", "b", "XY");
    assert_eq!(r, "aXYcaXYc");
}

#[test]
fn substitute_with_token_absent_is_identity() {
    let r = substitute("hello world", "xyz", "replacement");
    assert_eq!(r, "hello world");
}

#[test]
fn substitute_on_empty_content_is_empty() {
    assert_eq!(substitute("", "{{project-name}}", "demo"), "");
}

#[test]
fn substitute_with_replacement_equal_to_token_is_identity() {
    let r = substitute("a {{project-name}} b", "{{project-name}}", "{{project-name}}");
    assert_eq!(r, "a {{project-name}} b");
}

#[test]
fn substitute_scans_left_to_right_without_rescanning() {
    assert_eq!(substitute("aaa", "aa", "b"), "ba");
    // A replacement that is a fragment of the token can rebuild it; this is
    // exactly the input class the token-freedom law excludes.
    assert_eq!(substitute("abb", "ab", "a"), "ab");
}

#[test]
fn substitute_handles_the_real_token() {
    let r = substitute("name = \"{{project-name}}\"", placeholder_token(), "demo");
    assert_eq!(r, "name = \"demo\"");
}

#[test]
fn name_validation_accepts_plain_names_only() {
    assert!(check_name("demo"));
    assert!(check_name("my_service-2"));
    assert!(!check_name(""));
    assert!(!check_name("a/b"));
    assert!(!check_name("a\\b"));
}

#[test]
fn segment_validation_refuses_traversal() {
    assert!(check_segment("src"));
    assert!(!check_segment(".."));
    assert!(!check_segment(""));
    assert!(!check_segment("a/b"));
}

#[test]
fn join_path_joins_with_slashes() {
    let segs = vec!["src".to_string(), "main.rs".to_string()];
    assert_eq!(join_path("demo", &segs), "demo/src/main.rs");
    let none: Vec<String> = Vec::new();
    assert_eq!(join_path("demo", &none), "demo");
}

#[test]
fn str_eq_compares_by_content() {
    assert!(str_eq("abc", "abc"));
    assert!(!str_eq("abc", "abd"));
    assert!(!str_eq("abc", "ab"));
}

#[test]
fn bundle_holds_every_manifest_template_and_nothing_unexpected() {
    assert!(template_content("Cargo.toml").is_some());
    assert!(template_content("Makefile").is_some());
    assert!(template_content("src/main.rs").is_some());
    assert!(template_content("src/lib.rs").is_some());
    assert!(template_content("src/common/mod.rs").is_some());
    assert!(template_content("src/common/types.rs").is_some());
    assert!(template_content("src/common/validation.rs").is_some());
    assert!(template_content("src/routes/mod.rs").is_some());
    assert!(template_content("src/process/mod.rs").is_some());
    assert!(template_content("src/process/processing.rs").is_some());
    assert!(template_content("src/services/lambda.rs").is_some());
    assert!(template_content("src/nonsense.rs").is_none());
}

#[test]
fn templates_carry_no_baked_in_credentials() {
    let lambda = template_content("src/services/lambda.rs").unwrap();
    assert!(lambda.contains("RapidApiConfig::from_env()"));
    assert!(!lambda.contains("RapidApiConfig::new("));
}

#[test]
fn response_type_success_wraps_the_data() {
    let r: ResponseType<u32> = ResponseType::success(7);
    assert!(r.success);
    assert_eq!(r.data, Some(7));
    assert!(r.error.is_none());
}

#[test]
fn response_type_error_wraps_the_message() {
    let r: ResponseType<u32> = ResponseType::error("boom".to_string());
    assert!(!r.success);
    assert!(r.data.is_none());
    assert_eq!(r.error.as_deref(), Some("boom"));
}

#[test]
fn rapidapi_config_new_keeps_its_parts() {
    let c = RapidApiConfig::new("key", "secret", "host.example");
    assert_eq!(c.api_key, "key");
    assert_eq!(c.proxy_secret, "secret");
    assert_eq!(c.host, "host.example");
}

fn gate() -> RapidApiConfig {
    RapidApiConfig::new("key", "secret", "host.example")
}

fn rapidapi_message(r: Result<(), ValidationError>) -> String {
    match r {
        Err(ValidationError::RapidApi(m)) => m,
        Err(ValidationError::EnvVar(m)) => panic!("unexpected variant: {m}"),
        Ok(()) => panic!("expected a rejection"),
    }
}

#[test]
fn header_validation_accepts_matching_headers() {
    let c = gate();
    assert!(validate_rapidapi_headers(Some("key"), Some("secret"), Some("host.example"), &c).is_ok());
}

#[test]
fn header_validation_rejects_in_order() {
    let c = gate();
    assert_eq!(
        rapidapi_message(validate_rapidapi_headers(None, Some("secret"), None, &c)),
        "Missing RapidAPI key"
    );
    assert_eq!(
        rapidapi_message(validate_rapidapi_headers(Some("bad"), Some("secret"), None, &c)),
        "Invalid RapidAPI key"
    );
    assert_eq!(
        rapidapi_message(validate_rapidapi_headers(Some("key"), None, None, &c)),
        "Missing RapidAPI proxy secret"
    );
    assert_eq!(
        rapidapi_message(validate_rapidapi_headers(Some("key"), Some("bad"), None, &c)),
        "Invalid RapidAPI proxy secret"
    );
    assert_eq!(
        rapidapi_message(validate_rapidapi_headers(Some("key"), Some("secret"), None, &c)),
        "Missing RapidAPI host"
    );
    assert_eq!(
        rapidapi_message(validate_rapidapi_headers(Some("key"), Some("secret"), Some("bad"), &c)),
        "Invalid RapidAPI host"
    );
}

//! The outcome classification for the platform services.

use tvbridge::support::{
    auth_outcome, availability_result, http_outcome, is_not_found_error,
    keychain_delete_outcome, keychain_load_bad_utf8, keychain_load_failure,
    keychain_load_success, keychain_save_outcome, str_contains, HttpFetch,
};

#[test]
fn substring_search_finds_patterns() {
    assert!(str_contains("item not found in keychain", "not found"));
    assert!(str_contains("error -25300 returned", "-25300"));
    assert!(!str_contains("found not", "not found"));
    assert!(str_contains("anything", ""));
    assert!(!str_contains("", "x"));
    assert!(is_not_found_error("The specified item could not be found (-25300)"));
    assert!(!is_not_found_error("access denied"));
}

#[test]
fn save_outcome_reports_platform_error() {
    let ok = keychain_save_outcome(None);
    assert!(ok.success);
    assert!(ok.error.is_none());
    let err = keychain_save_outcome(Some("disk full"));
    assert!(!err.success);
    assert_eq!(err.error.as_deref(), Some("Failed to save: disk full"));
}

#[test]
fn delete_outcome_forgives_missing_item() {
    assert!(keychain_delete_outcome(None).success);
    let missing = keychain_delete_outcome(Some("item not found"));
    assert!(missing.success);
    assert!(missing.error.is_none());
    let code = keychain_delete_outcome(Some("OSStatus -25300"));
    assert!(code.success);
    let real = keychain_delete_outcome(Some("locked"));
    assert!(!real.success);
    assert_eq!(real.error.as_deref(), Some("Failed to delete: locked"));
}

#[test]
fn load_outcomes_cover_every_branch() {
    let ok = keychain_load_success("hunter2".to_string());
    assert!(ok.success);
    assert_eq!(ok.password.as_deref(), Some("hunter2"));
    assert!(ok.error.is_none());

    let missing = keychain_load_failure("The item was not found");
    assert!(!missing.success);
    assert_eq!(missing.error.as_deref(), Some("No password stored"));

    let other = keychain_load_failure("keychain locked");
    assert_eq!(other.error.as_deref(), Some("Failed to load: keychain locked"));

    let bad = keychain_load_bad_utf8("invalid utf-8 sequence");
    assert!(!bad.success);
    assert!(bad.password.is_none());
    assert_eq!(bad.error.as_deref(), Some("Invalid UTF-8: invalid utf-8 sequence"));
}

#[test]
fn availability_carries_fixed_message() {
    let yes = availability_result(true, "Touch ID not available");
    assert!(yes.success && yes.available && yes.error.is_none());
    let no = availability_result(false, "Touch ID not available");
    assert!(no.success && !no.available);
    assert_eq!(no.error.as_deref(), Some("Touch ID not available"));
}

#[test]
fn auth_outcome_classifies_prompt_output() {
    let ok = auth_outcome("success", "");
    assert!(ok.success && ok.available && ok.error.is_none());

    let unavail = auth_outcome("unavailable", "");
    assert!(!unavail.success && !unavail.available);
    assert_eq!(unavail.error.as_deref(), Some("Touch ID not available"));

    let with_stderr = auth_outcome("failed", "policy refused");
    assert!(!with_stderr.success && with_stderr.available);
    assert_eq!(with_stderr.error.as_deref(), Some("Touch ID error: policy refused"));

    let cancelled = auth_outcome("failed", "");
    assert_eq!(cancelled.error.as_deref(), Some("Touch ID cancelled or failed"));

    let odd = auth_outcome("pending", "");
    assert_eq!(odd.error.as_deref(), Some("Touch ID returned: pending"));
}

#[test]
fn http_outcome_classifies_fetches() {
    let ok = http_outcome(HttpFetch::Body(204, "done".to_string()));
    assert!(ok.success);
    assert_eq!(ok.status, 204);
    assert_eq!(ok.data.as_deref(), Some("done"));
    assert!(ok.error.is_none());

    let low = http_outcome(HttpFetch::Body(199, "x".to_string()));
    assert!(!low.success);
    let high = http_outcome(HttpFetch::Body(300, "x".to_string()));
    assert!(!high.success);
    let edge = http_outcome(HttpFetch::Body(200, "x".to_string()));
    assert!(edge.success);

    let read = http_outcome(HttpFetch::ReadFailed(502, "connection reset".to_string()));
    assert!(!read.success);
    assert_eq!(read.status, 502);
    assert_eq!(read.error.as_deref(), Some("Failed to read response: connection reset"));

    let req = http_outcome(HttpFetch::RequestFailed("dns failure".to_string()));
    assert!(!req.success);
    assert_eq!(req.status, 0);
    assert_eq!(req.error.as_deref(), Some("Request failed: dns failure"));
}

//! The three operations against the credential store's mock backend (the
//! default store when no platform store is compiled in): the mock keeps
//! each entry's secret in memory and can be told to reject the next call.
use token_store::store::TokenVault;

fn inject_error(entry: &keyring::Entry, reason: &str) {
    let mock: &keyring::mock::MockCredential = entry
        .get_credential()
        .downcast_ref()
        .expect("the default store here is the mock store");
    mock.set_error(keyring::Error::Invalid(
        "backend".to_string(),
        reason.to_string(),
    ));
}

#[test]
fn new_vault_opens_both_handles() {
    assert!(TokenVault::new().is_ok());
}

#[test]
fn set_then_get_returns_the_pair() {
    let vault = TokenVault::new().unwrap();
    vault.set_tokens("a", "r").unwrap();
    let t = vault.get_tokens();
    assert_eq!(t.access_token.as_deref(), Some("a"));
    assert_eq!(t.refresh_token.as_deref(), Some("r"));
}

#[test]
fn set_overwrites_previous_values() {
    let vault = TokenVault::new().unwrap();
    vault.set_tokens("a1", "r1").unwrap();
    vault.set_tokens("a2", "r2").unwrap();
    let t = vault.get_tokens();
    assert_eq!(t.access_token.as_deref(), Some("a2"));
    assert_eq!(t.refresh_token.as_deref(), Some("r2"));
}

#[test]
fn get_without_prior_set_is_absent_pair() {
    let vault = TokenVault::new().unwrap();
    let t = vault.get_tokens();
    assert_eq!(t.access_token, None);
    assert_eq!(t.refresh_token, None);
}

#[test]
fn clear_then_get_is_absent_pair() {
    let vault = TokenVault::new().unwrap();
    vault.set_tokens("a", "r").unwrap();
    vault.clear_tokens().unwrap();
    let t = vault.get_tokens();
    assert_eq!(t.access_token, None);
    assert_eq!(t.refresh_token, None);
}

#[test]
fn clear_on_empty_store_is_ok_and_idempotent() {
    let vault = TokenVault::new().unwrap();
    assert!(vault.clear_tokens().is_ok());
    assert!(vault.clear_tokens().is_ok());
}

#[test]
fn rejected_refresh_write_reports_error_and_keeps_access_token() {
    let vault = TokenVault::new().unwrap();
    inject_error(vault.refresh_entry(), "refresh write rejected");
    assert!(vault.set_tokens("a", "r").is_err());
    let t = vault.get_tokens();
    assert_eq!(t.access_token.as_deref(), Some("a"));
    assert_eq!(t.refresh_token, None);
}

#[test]
fn rejected_access_write_aborts_before_refresh_write() {
    let vault = TokenVault::new().unwrap();
    inject_error(vault.access_entry(), "access write rejected");
    assert!(vault.set_tokens("a", "r").is_err());
    let t = vault.get_tokens();
    assert_eq!(t.access_token, None);
    assert_eq!(t.refresh_token, None);
}

#[test]
fn set_error_carries_the_backend_message() {
    let vault = TokenVault::new().unwrap();
    inject_error(vault.access_entry(), "write rejected");
    let message = vault.set_tokens("a", "r").unwrap_err();
    assert!(message.contains("write rejected"));
}

#[test]
fn denied_read_degrades_to_absent_not_error() {
    let vault = TokenVault::new().unwrap();
    vault.set_tokens("a", "r").unwrap();
    inject_error(vault.access_entry(), "read denied");
    let t = vault.get_tokens();
    assert_eq!(t.access_token, None);
    assert_eq!(t.refresh_token.as_deref(), Some("r"));
}

#[test]
fn rejected_deletions_still_report_success() {
    let vault = TokenVault::new().unwrap();
    inject_error(vault.access_entry(), "delete rejected");
    inject_error(vault.refresh_entry(), "delete rejected");
    assert!(vault.clear_tokens().is_ok());
}

#[test]
fn round_trip_scenario() {
    let vault = TokenVault::new().unwrap();
    vault.set_tokens("tok_123", "ref_456").unwrap();
    let t = vault.get_tokens();
    assert_eq!(t.access_token.as_deref(), Some("tok_123"));
    assert_eq!(t.refresh_token.as_deref(), Some("ref_456"));
    vault.clear_tokens().unwrap();
    let t = vault.get_tokens();
    assert_eq!(t.access_token, None);
    assert_eq!(t.refresh_token, None);
}

#[test]
fn empty_strings_are_stored_values_not_absence() {
    let vault = TokenVault::new().unwrap();
    vault.set_tokens("", "").unwrap();
    let t = vault.get_tokens();
    assert_eq!(t.access_token.as_deref(), Some(""));
    assert_eq!(t.refresh_token.as_deref(), Some(""));
}

#[test]
fn tokens_from_reads_collapses_each_failure_independently() {
    let denied = keyring::Error::Invalid("backend".to_string(), "denied".to_string());
    let t = token_store::store::tokens_from_reads(Ok("a".to_string()), Err(denied));
    assert_eq!(t.access_token.as_deref(), Some("a"));
    assert_eq!(t.refresh_token, None);
    let t = token_store::store::tokens_from_reads(Err(keyring::Error::NoEntry), Ok("r".to_string()));
    assert_eq!(t.access_token, None);
    assert_eq!(t.refresh_token.as_deref(), Some("r"));
}

#[test]
fn collapse_read_keeps_values_and_absorbs_errors() {
    assert_eq!(
        token_store::store::collapse_read(Ok("v".to_string())).as_deref(),
        Some("v")
    );
    assert_eq!(token_store::store::collapse_read(Err(keyring::Error::NoEntry)), None);
}

#[test]
fn write_step_passes_success_and_surfaces_the_message() {
    assert!(token_store::store::write_step(Ok(())).is_ok());
    let rejected = keyring::Error::Invalid("backend".to_string(), "rejected".to_string());
    let message = token_store::store::write_step(Err(rejected)).unwrap_err();
    assert!(message.contains("rejected"));
}

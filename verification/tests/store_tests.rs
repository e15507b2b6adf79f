use auth_session::store::CredentialStore;
use auth_session::store::RegisterOutcome;

#[test]
fn unknown_username_is_created_and_looked_up() {
    let mut s = CredentialStore::new();
    assert_eq!(s.lookup("u"), None);
    assert_eq!(s.register_or_verify("u", "p"), RegisterOutcome::Created);
    assert_eq!(s.lookup("u"), Some("p".to_string()));
}

#[test]
fn known_pair_is_verified_not_created_again() {
    let mut s = CredentialStore::new();
    assert_eq!(s.register_or_verify("u", "p"), RegisterOutcome::Created);
    assert_eq!(s.register_or_verify("u", "p"), RegisterOutcome::Verified);
    assert_eq!(s.register_or_verify("u", "p"), RegisterOutcome::Verified);
    assert_eq!(s.lookup("u"), Some("p".to_string()));
}

#[test]
fn wrong_password_is_mismatch_and_mutates_nothing() {
    let mut s = CredentialStore::new();
    assert_eq!(s.register_or_verify("u", "p"), RegisterOutcome::Created);
    assert_eq!(s.register_or_verify("u", "q"), RegisterOutcome::Mismatch);
    assert_eq!(s.lookup("u"), Some("p".to_string()));
}

#[test]
fn usernames_are_case_sensitive_exact_keys() {
    let mut s = CredentialStore::new();
    assert_eq!(s.register_or_verify("User", "p"), RegisterOutcome::Created);
    assert_eq!(s.lookup("user"), None);
    assert_eq!(s.register_or_verify("user", "q"), RegisterOutcome::Created);
    assert_eq!(s.lookup("User"), Some("p".to_string()));
    assert_eq!(s.lookup("user"), Some("q".to_string()));
}

#[test]
fn empty_username_and_password_are_plain_values() {
    let mut s = CredentialStore::new();
    assert_eq!(s.register_or_verify("", ""), RegisterOutcome::Created);
    assert_eq!(s.lookup(""), Some("".to_string()));
    assert_eq!(s.register_or_verify("", "x"), RegisterOutcome::Mismatch);
}

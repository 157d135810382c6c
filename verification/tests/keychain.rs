use mailwatch::keychain::{i64_to_string, u64_to_string, Keychain, KeychainError};

#[test]
fn entry_key_is_id_dot_username() {
    let keychain = Keychain::new(12, "user");
    assert_eq!(keychain.entry_key(), "12.user");
}

#[test]
fn entry_key_keeps_the_sign_of_the_id() {
    let keychain = Keychain::new(-3, "someone@example.org");
    assert_eq!(keychain.entry_key(), "-3.someone@example.org");
}

#[test]
fn unsigned_decimal_rendering() {
    assert_eq!(u64_to_string(0), "0");
    assert_eq!(u64_to_string(7), "7");
    assert_eq!(u64_to_string(10), "10");
    assert_eq!(u64_to_string(9090), "9090");
    assert_eq!(u64_to_string(u64::MAX), "18446744073709551615");
}

#[test]
fn signed_decimal_rendering() {
    assert_eq!(i64_to_string(0), "0");
    assert_eq!(i64_to_string(42), "42");
    assert_eq!(i64_to_string(-1), "-1");
    assert_eq!(i64_to_string(i64::MAX), "9223372036854775807");
    assert_eq!(i64_to_string(i64::MIN), "-9223372036854775808");
}

#[test]
fn each_store_failure_has_its_description() {
    assert_eq!(KeychainError::NoEntry.message(), "password not found");
    assert_eq!(
        KeychainError::Platform("store is locked".to_string()).message(),
        "store is locked"
    );
}

#[test]
fn password_of_an_unknown_entry_is_an_error() {
    // No credential was ever stored under this slot; whatever platform store
    // answers, it cannot produce a password.
    let keychain = Keychain::new(424242, "nobody@example.invalid");
    assert!(keychain.get_password().is_err());
}

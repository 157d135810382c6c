//! The secret store: per-account credentials, keyed by (identifier,
//! username), so a username change implies a new credential slot.
//!
//! The key under which a credential is filed is computed here and verified;
//! the storage itself is the platform keychain, reached through the keyring
//! crate behind trusted wrappers.

use vstd::prelude::*;

verus! {

/// The service name under which every credential of this application is
/// filed.
pub open spec fn spec_service() -> Seq<char> {
    "mailwatch"@
}

fn service() -> (s: &'static str)
    ensures
        s@ == spec_service(),
{
    "mailwatch"
}

/// The decimal digit character for `d` (0 to 9).
pub open spec fn spec_digit_char(d: int) -> char {
    if d == 0 {
        '0'
    } else if d == 1 {
        '1'
    } else if d == 2 {
        '2'
    } else if d == 3 {
        '3'
    } else if d == 4 {
        '4'
    } else if d == 5 {
        '5'
    } else if d == 6 {
        '6'
    } else if d == 7 {
        '7'
    } else if d == 8 {
        '8'
    } else {
        '9'
    }
}

/// The decimal rendering of a non-negative number, most significant digit
/// first.
pub open spec fn spec_u64_digits(n: int) -> Seq<char>
    decreases n,
{
    if n < 10 {
        seq![spec_digit_char(n)]
    } else {
        spec_u64_digits(n / 10) + seq![spec_digit_char(n % 10)]
    }
}

/// The decimal rendering of a signed number: a leading '-' for a negative
/// one.
pub open spec fn spec_i64_digits(n: int) -> Seq<char> {
    if n >= 0 {
        spec_u64_digits(n)
    } else {
        seq!['-'] + spec_u64_digits(-n)
    }
}

fn digit_str(d: u64) -> (s: &'static str)
    requires
        d < 10,
    ensures
        s@ == seq![spec_digit_char(d as int)],
{
    proof {
        reveal_strlit("0");
        reveal_strlit("1");
        reveal_strlit("2");
        reveal_strlit("3");
        reveal_strlit("4");
        reveal_strlit("5");
        reveal_strlit("6");
        reveal_strlit("7");
        reveal_strlit("8");
        reveal_strlit("9");
    }
    let s = if d == 0 {
        "0"
    } else if d == 1 {
        "1"
    } else if d == 2 {
        "2"
    } else if d == 3 {
        "3"
    } else if d == 4 {
        "4"
    } else if d == 5 {
        "5"
    } else if d == 6 {
        "6"
    } else if d == 7 {
        "7"
    } else if d == 8 {
        "8"
    } else {
        "9"
    };
    proof {
        assert(s@ =~= seq![spec_digit_char(d as int)]);
    }
    s
}

/// The decimal rendering of `n`.
pub fn u64_to_string(n: u64) -> (s: String)
    ensures
        s@ == spec_u64_digits(n as int),
    decreases n,
{
    if n < 10 {
        String::from_str(digit_str(n))
    } else {
        let mut s = u64_to_string(n / 10);
        s.append(digit_str(n % 10));
        s
    }
}

/// The decimal rendering of `n`, sign included.
pub fn i64_to_string(n: i64) -> (s: String)
    ensures
        s@ == spec_i64_digits(n as int),
{
    if n >= 0 {
        u64_to_string(n as u64)
    } else {
        let mag: u64 = ((-(n + 1)) as u64) + 1;
        proof {
            assert(mag as int == -(n as int));
        }
        let mut s = String::from_str("-");
        let digits = u64_to_string(mag);
        s.append(digits.as_str());
        proof {
            reveal_strlit("-");
            assert(s@ =~= spec_i64_digits(n as int));
        }
        s
    }
}

/// The key under which the credential for (`id`, `username`) is filed:
/// the decimal identifier, a '.', and the username.
pub open spec fn spec_entry_key(id: int, username: Seq<char>) -> Seq<char> {
    spec_i64_digits(id) + seq!['.'] + username
}

/// Why a secret-store operation failed.
#[derive(Debug, Clone)]
pub enum KeychainError {
    /// No credential is stored for the entry.
    NoEntry,
    /// The platform's secure storage failed or refused access; carries the
    /// platform's description of the failure.
    Platform(String),
}

/// The description `KeychainError::message` renders for `e`.
pub open spec fn spec_keychain_error_message(e: KeychainError) -> Seq<char> {
    match e {
        KeychainError::NoEntry => "password not found"@,
        KeychainError::Platform(s) => s@,
    }
}

impl KeychainError {
    /// A human-readable description of the failure.
    pub fn message(&self) -> (m: String)
        ensures
            m@ == spec_keychain_error_message(*self),
    {
        match self {
            KeychainError::NoEntry => String::from_str("password not found"),
            KeychainError::Platform(s) => s.clone(),
        }
    }
}

/// keyring's credential handle, declared so entries can be passed between
/// the wrappers below; its contents stay opaque.
#[verifier::external_type_specification]
#[verifier::external_body]
pub struct ExEntry(keyring::Entry);

/// Relies on keyring::Entry::new: builds the credential handle for
/// (service, user) with the platform's default credential builder; it touches
/// no stored secret yet.
#[verifier::external_body]
fn keyring_entry_new(service: &str, user: &str) -> Result<keyring::Entry, KeychainError> {
    match keyring::Entry::new(service, user) {
        Ok(entry) => Ok(entry),
        Err(keyring::Error::NoEntry) => Err(KeychainError::NoEntry),
        Err(e) => Err(KeychainError::Platform(e.to_string())),
    }
}

/// Relies on keyring::Entry::set_password: stores the password for the
/// entry, replacing any previous one.
#[verifier::external_body]
fn keyring_set_password(entry: &keyring::Entry, password: &str) -> Result<(), KeychainError> {
    match entry.set_password(password) {
        Ok(()) => Ok(()),
        Err(keyring::Error::NoEntry) => Err(KeychainError::NoEntry),
        Err(e) => Err(KeychainError::Platform(e.to_string())),
    }
}

/// Relies on keyring::Entry::get_password: the password saved for the entry;
/// NoEntry when none is stored.
#[verifier::external_body]
fn keyring_get_password(entry: &keyring::Entry) -> Result<String, KeychainError> {
    match entry.get_password() {
        Ok(password) => Ok(password),
        Err(keyring::Error::NoEntry) => Err(KeychainError::NoEntry),
        Err(e) => Err(KeychainError::Platform(e.to_string())),
    }
}

/// Relies on keyring::Entry::delete_password: removes the stored password;
/// NoEntry when none was stored.
#[verifier::external_body]
fn keyring_delete_password(entry: &keyring::Entry) -> Result<(), KeychainError> {
    match entry.delete_password() {
        Ok(()) => Ok(()),
        Err(keyring::Error::NoEntry) => Err(KeychainError::NoEntry),
        Err(e) => Err(KeychainError::Platform(e.to_string())),
    }
}

/// One account's slot in the platform secret store.
#[derive(Debug, Clone)]
pub struct Keychain {
    pub id: i64,
    pub username: String,
}

impl Keychain {
    pub fn new(id: i64, username: &str) -> (k: Keychain)
        ensures
            k.id == id,
            k.username@ == username@,
    {
        Keychain { id, username: username.to_owned() }
    }

    /// The key under which this account's credential is filed.
    pub fn entry_key(&self) -> (key: String)
        ensures
            key@ == spec_entry_key(self.id as int, self.username@),
    {
        let mut key = i64_to_string(self.id);
        key.append(".");
        key.append(self.username.as_str());
        proof {
            reveal_strlit(".");
            assert(key@ =~= spec_entry_key(self.id as int, self.username@));
        }
        key
    }

    /// The credential handle for this account; whether one can be built is up
    /// to the platform store.
    pub fn get_entry(&self) -> Result<keyring::Entry, KeychainError> {
        let key = self.entry_key();
        keyring_entry_new(service(), key.as_str())
    }

    /// Store `password` for this account, replacing any previous one.
    pub fn new_entry(&self, password: &str) -> Result<keyring::Entry, KeychainError> {
        match self.get_entry() {
            Ok(entry) => match keyring_set_password(&entry, password) {
                Ok(()) => Ok(entry),
                Err(e) => Err(e),
            },
            Err(e) => Err(e),
        }
    }

    /// The password stored for this account, fetched at this moment (never
    /// cached across reconnects).
    pub fn get_password(&self) -> Result<String, KeychainError> {
        match self.get_entry() {
            Ok(entry) => keyring_get_password(&entry),
            Err(e) => Err(e),
        }
    }

    /// Remove this account's credential from the store.
    pub fn delete_entry(&self) -> Result<(), KeychainError> {
        match self.get_entry() {
            Ok(entry) => keyring_delete_password(&entry),
            Err(e) => Err(e),
        }
    }
}

} // verus!

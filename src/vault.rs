//! The credential vault: one secret under a fixed (service, account) key in
//! the platform's secret store, with save, load and an idempotent clear. Every
//! call goes to the store; nothing is cached in the process.

use vstd::prelude::*;
use keyring::Entry;
use crate::error::RadarError;

verus! {

/// Service half of the key under which the secret is kept.
pub const KEYRING_SERVICE: &'static str = "gitlab-action-radar";

/// Account half of the key under which the secret is kept.
pub const KEYRING_ACCOUNT: &'static str = "gitlab-pat";

#[verifier::external_type_specification]
#[verifier::external_body]
pub struct ExEntry(keyring::Entry);

#[verifier::external_type_specification]
#[verifier::external_body]
pub struct ExKeyringError(keyring::Error);

/// Relies on keyring's `Entry::new`: an entry for the service and account
/// under the default credential store, or the store's error. Whether it
/// succeeds depends on the platform, so nothing is promised.
pub assume_specification[ keyring::Entry::new ](service: &str, user: &str) -> (r: keyring::Result<keyring::Entry>);

/// Relies on keyring's `Entry::set_password`: stores the password or returns
/// the store's error.
pub assume_specification[ keyring::Entry::set_password ](entry: &keyring::Entry, password: &str) -> (r: keyring::Result<()>);

/// Relies on keyring's `Entry::get_password`: the stored password, or the
/// store's error (`NoEntry` when nothing is stored).
pub assume_specification[ keyring::Entry::get_password ](entry: &keyring::Entry) -> (r: keyring::Result<String>);

/// Relies on keyring's `Entry::delete_credential`: removes the stored
/// password, or returns the store's error (`NoEntry` when nothing is stored).
pub assume_specification[ keyring::Entry::delete_credential ](entry: &keyring::Entry) -> (r: keyring::Result<()>);

/// How a secret-store call failed, as far as the vault cares.
#[derive(Clone, Copy, Debug, PartialEq, Eq, Structural)]
pub enum StoreFault {
    /// No secret is stored under the key.
    Missing,
    /// Any other failure of the store.
    Unavailable,
}

/// Relies on the variants of keyring's `Error`: `NoEntry` means that no
/// credential exists for the entry; every other variant is a store failure.
#[verifier::external_body]
fn fault_of(err: &keyring::Error) -> (f: StoreFault) {
    match err {
        keyring::Error::NoEntry => StoreFault::Missing,
        _ => StoreFault::Unavailable,
    }
}

/// Unicode White_Space, the characters that `str::trim` removes.
pub open spec fn is_white_space(c: char) -> bool {
    let n = c as u32;
    ||| 0x9 <= n <= 0xd
    ||| n == 0x20
    ||| n == 0x85
    ||| n == 0xa0
    ||| n == 0x1680
    ||| 0x2000 <= n <= 0x200a
    ||| n == 0x2028
    ||| n == 0x2029
    ||| n == 0x202f
    ||| n == 0x205f
    ||| n == 0x3000
}

/// `s` without its leading white space.
pub open spec fn trim_start(s: Seq<char>) -> Seq<char>
    decreases s.len(),
{
    if s.len() > 0 && is_white_space(s[0]) {
        trim_start(s.drop_first())
    } else {
        s
    }
}

/// `s` without its trailing white space.
pub open spec fn trim_end(s: Seq<char>) -> Seq<char>
    decreases s.len(),
{
    if s.len() > 0 && is_white_space(s.last()) {
        trim_end(s.drop_last())
    } else {
        s
    }
}

/// `s` without leading or trailing white space.
pub open spec fn trimmed(s: Seq<char>) -> Seq<char> {
    trim_end(trim_start(s))
}

/// Relies on `str::trim`: the slice without leading and trailing White_Space.
#[verifier::external_body]
fn trim_text(s: &str) -> (r: &str)
    ensures
        r@ == trimmed(s@),
{
    s.trim()
}

/// The value a save hands to the store: the secret without surrounding
/// white space, or `EmptySecret` when nothing else is left.
pub fn secret_to_store(token: &str) -> (r: Result<&str, RadarError>)
    ensures
        trimmed(token@).len() == 0 ==> r == Err::<&str, RadarError>(RadarError::EmptySecret),
        trimmed(token@).len() > 0 ==> (r matches Ok(s) && s@ == trimmed(token@)),
{
    let t = trim_text(token);
    if t.is_empty() {
        Err(RadarError::EmptySecret)
    } else {
        Ok(t)
    }
}

/// The result of a load, from what the store answered: a missing secret is
/// no error.
pub fn loaded_secret(read: Result<String, StoreFault>) -> (r: Result<Option<String>, RadarError>)
    ensures
        read matches Ok(s) ==> (r matches Ok(Some(t)) && t@ == s@),
        read == Err::<String, StoreFault>(StoreFault::Missing) ==> r matches Ok(None),
        read == Err::<String, StoreFault>(StoreFault::Unavailable) ==> r == Err::<
            Option<String>,
            RadarError,
        >(RadarError::StoreUnavailable),
{
    match read {
        Ok(s) => Ok(Some(s)),
        Err(StoreFault::Missing) => Ok(None),
        Err(StoreFault::Unavailable) => Err(RadarError::StoreUnavailable),
    }
}

/// The result of a clear, from what the store answered: deleting a secret
/// that is not there succeeds.
pub fn cleared_secret(deleted: Result<(), StoreFault>) -> (r: Result<(), RadarError>)
    ensures
        deleted is Ok ==> r is Ok,
        deleted == Err::<(), StoreFault>(StoreFault::Missing) ==> r is Ok,
        deleted == Err::<(), StoreFault>(StoreFault::Unavailable) ==> r == Err::<(), RadarError>(
            RadarError::StoreUnavailable,
        ),
{
    match deleted {
        Ok(()) => Ok(()),
        Err(StoreFault::Missing) => Ok(()),
        Err(StoreFault::Unavailable) => Err(RadarError::StoreUnavailable),
    }
}

/// Stores the trimmed secret in `entry`, replacing any earlier one. A secret
/// that trims to nothing is refused with `EmptySecret` before the store is
/// touched; any store failure is `StoreUnavailable`.
pub fn save_pat_in(entry: &Entry, token: &str) -> (r: Result<(), RadarError>)
    ensures
        trimmed(token@).len() == 0 <==> r == Err::<(), RadarError>(RadarError::EmptySecret),
        r matches Err(e) ==> (e == RadarError::EmptySecret || e == RadarError::StoreUnavailable),
{
    let secret = match secret_to_store(token) {
        Ok(s) => s,
        Err(e) => return Err(e),
    };
    match entry.set_password(secret) {
        Ok(()) => Ok(()),
        Err(_) => Err(RadarError::StoreUnavailable),
    }
}

/// Reads the secret kept in `entry`: `None` when there is none, and
/// `StoreUnavailable` for any other store failure.
pub fn load_pat_from(entry: &Entry) -> (r: Result<Option<String>, RadarError>)
    ensures
        r matches Err(e) ==> e == RadarError::StoreUnavailable,
{
    let read = match entry.get_password() {
        Ok(s) => Ok(s),
        Err(e) => Err(fault_of(&e)),
    };
    loaded_secret(read)
}

/// Deletes the secret kept in `entry`. Deleting when nothing is stored
/// succeeds; any other store failure is `StoreUnavailable`.
pub fn clear_pat_in(entry: &Entry) -> (r: Result<(), RadarError>)
    ensures
        r matches Err(e) ==> e == RadarError::StoreUnavailable,
{
    let deleted = match entry.delete_credential() {
        Ok(()) => Ok(()),
        Err(e) => Err(fault_of(&e)),
    };
    cleared_secret(deleted)
}

/// Opens the vault's entry in the platform store.
fn vault_entry() -> (r: Result<Entry, RadarError>)
    ensures
        r matches Err(e) ==> e == RadarError::StoreUnavailable,
{
    match Entry::new(KEYRING_SERVICE, KEYRING_ACCOUNT) {
        Ok(entry) => Ok(entry),
        Err(_) => Err(RadarError::StoreUnavailable),
    }
}

/// Saves the secret under the vault's fixed key (see `save_pat_in`).
pub fn save_pat(token: &str) -> (r: Result<(), RadarError>)
    ensures
        trimmed(token@).len() == 0 <==> r == Err::<(), RadarError>(RadarError::EmptySecret),
        r matches Err(e) ==> (e == RadarError::EmptySecret || e == RadarError::StoreUnavailable),
{
    if let Err(e) = secret_to_store(token) {
        return Err(e);
    }
    let entry = match vault_entry() {
        Ok(entry) => entry,
        Err(e) => return Err(e),
    };
    save_pat_in(&entry, token)
}

/// Loads the secret under the vault's fixed key (see `load_pat_from`).
pub fn load_pat() -> (r: Result<Option<String>, RadarError>)
    ensures
        r matches Err(e) ==> e == RadarError::StoreUnavailable,
{
    let entry = match vault_entry() {
        Ok(entry) => entry,
        Err(e) => return Err(e),
    };
    load_pat_from(&entry)
}

/// Clears the secret under the vault's fixed key (see `clear_pat_in`).
pub fn clear_pat() -> (r: Result<(), RadarError>)
    ensures
        r matches Err(e) ==> e == RadarError::StoreUnavailable,
{
    let entry = match vault_entry() {
        Ok(entry) => entry,
        Err(e) => return Err(e),
    };
    clear_pat_in(&entry)
}

} // verus!

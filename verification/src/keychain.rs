//! Reading the stored API key and licence, and seeding the key from the
//! environment. The caller talks to the keychain; this module decides what a
//! read, a delete or the environment means.

use vstd::prelude::*;

use crate::text::{blank, is_blank, trim, trim_seq};

verus! {

/// What reading a keychain entry gave.
pub enum StoredSecret {
    /// The entry holds this secret.
    Found(String),
    /// There is no such entry.
    NoEntry,
    /// The keychain could not be read; carries the reason.
    Failed(String),
}

/// What deleting a keychain entry gave.
pub enum Deletion {
    Deleted,
    /// There was no such entry.
    NoEntry,
    /// The entry could not be deleted; carries the reason.
    Failed(String),
}

/// The API key, when one is stored; a missing entry and a failed read both
/// mean there is none.
pub fn get_api_key(read: StoredSecret) -> (r: Option<String>)
    ensures
        match read {
            StoredSecret::Found(k) => r matches Some(x) && x@ == k@,
            _ => r is None,
        },
{
    match read {
        StoredSecret::Found(k) => Some(k),
        _ => None,
    }
}

/// Whether an API key is stored.
pub fn has_api_key(read: StoredSecret) -> (r: bool)
    ensures
        r == read is Found,
{
    get_api_key(read).is_some()
}

/// The Pro licence, when a non-blank one is stored.
pub fn get_license(read: StoredSecret) -> (r: Option<String>)
    ensures
        match read {
            StoredSecret::Found(k) => if is_blank(k@) {
                r is None
            } else {
                r matches Some(x) && x@ == k@
            },
            _ => r is None,
        },
{
    match read {
        StoredSecret::Found(k) => if blank(k.as_str()) {
            None
        } else {
            Some(k)
        },
        _ => None,
    }
}

/// The outcome of removing the licence: a missing entry counts as removed.
pub fn clear_license(deletion: Deletion) -> (r: Result<(), String>)
    ensures
        match deletion {
            Deletion::Failed(e) => r matches Err(x) && x@ == e@,
            _ => r is Ok,
        },
{
    match deletion {
        Deletion::Failed(e) => Err(e),
        _ => Ok(()),
    }
}

/// The key to store from the environment value `env_key`: its trimmed text,
/// only when no key is stored yet and it is not blank.
pub fn seed_from_env_if_empty(has_key: bool, env_key: Option<&str>) -> (r: Option<String>)
    ensures
        match env_key {
            Some(k) => if has_key || is_blank(k@) {
                r is None
            } else {
                r matches Some(x) && x@ == trim_seq(k@)
            },
            None => r is None,
        },
{
    if has_key {
        return None;
    }
    match env_key {
        Some(k) => {
            let key = trim(k);
            if key.as_str().is_empty() {
                None
            } else {
                Some(key)
            }
        },
        None => None,
    }
}

} // verus!

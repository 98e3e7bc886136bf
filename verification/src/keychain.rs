//! Secret storage. No platform keychain is wired up yet: writes are accepted
//! and discarded, reads find nothing — the contracts say exactly that, so
//! callers cannot mistake this store for a persistent one.

use vstd::prelude::*;

verus! {

/// Accepts a secret; nothing is persisted yet.
pub fn store_secret(key: &str, value: &str) -> (r: Result<(), String>)
    ensures
        r is Ok,
{
    let _ = key;
    let _ = value;
    Ok(())
}

/// Looks a secret up; nothing is ever found yet.
pub fn retrieve_secret(key: &str) -> (r: Result<Option<String>, String>)
    ensures
        r == Ok::<Option<String>, String>(None::<String>),
{
    let _ = key;
    Ok(None)
}

/// Deletes a secret; trivially succeeds while nothing is persisted.
pub fn delete_secret(key: &str) -> (r: Result<(), String>)
    ensures
        r is Ok,
{
    let _ = key;
    Ok(())
}

} // verus!

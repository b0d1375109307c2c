//! Secrets in the platform credential store.
//!
//! Every secret of the application lives in the store under one service name
//! and the caller's key. Each operation asks the store for the entry of the
//! key, asks one thing of that entry, and reports the answer. A failure, at
//! either step, reaches the caller as the store's own description of it.
//!
//! What the store answers is the store's affair, and no contract here
//! foretells it. The contracts say what is asked, with which service, key
//! and value, and how each answer becomes the result.

use vstd::prelude::*;

verus! {

/// The service name under which the application keeps its secrets.
pub const SERVICE: &'static str = "jido-conductor";

/// An entry of the credential store, addressed by service and key. Opaque:
/// it is made by [`keyring::Entry::new`] and handed to the entry's methods.
#[verifier::external_type_specification]
#[verifier::external_body]
pub struct ExEntry(keyring::Entry);

/// A failure reported by the credential store. Opaque: the only thing read
/// from it is its description.
#[verifier::external_type_specification]
#[verifier::external_body]
pub struct ExError(keyring::Error);

/// Trusted: `keyring::Entry::new` resolves the entry for a service and a
/// user with the store that is in use. Whether it succeeds is up to that
/// store, so nothing is claimed of the result. (It panics only when the
/// lock around the choice of store was poisoned by an earlier panic, which
/// no argument brings about.)
pub assume_specification[ keyring::Entry::new ](service: &str, user: &str) -> (resolved: Result<
    keyring::Entry,
    keyring::Error,
>)
;

/// Trusted: `keyring::Entry::set_password` asks the store to keep `password`
/// for the entry. Nothing is claimed of the result.
pub assume_specification[ keyring::Entry::set_password ](
    entry: &keyring::Entry,
    password: &str,
) -> (done: Result<(), keyring::Error>)
;

/// Trusted: `keyring::Entry::get_password` asks the store for the entry's
/// password. Nothing is claimed of the result.
pub assume_specification[ keyring::Entry::get_password ](entry: &keyring::Entry) -> (found: Result<
    String,
    keyring::Error,
>)
;

/// Trusted: `keyring::Entry::delete_credential` asks the store to forget the
/// entry's credential. Nothing is claimed of the result.
pub assume_specification[ keyring::Entry::delete_credential ](entry: &keyring::Entry) -> (done:
    Result<(), keyring::Error>)
;

/// `text` is the store's description of `failure`: what the `Display` of
/// the failure writes, which is never empty.
pub open spec fn describes(failure: keyring::Error, text: String) -> bool {
    &&& text@.len() > 0
    &&& vstd::string::to_string_from_display_ensures::<keyring::Error>(&failure, text)
}

/// `flat` is the flattened form of `answer`: the same success, or the
/// description of the failure in place of the failure.
pub open spec fn flattens_to<T>(answer: Result<T, keyring::Error>, flat: Result<T, String>) -> bool {
    match answer {
        Ok(value) => flat == Ok::<T, String>(value),
        Err(failure) => flat matches Err(text) && describes(failure, text),
    }
}

/// `resolved` is what comes of asking the store for the entry of `key`
/// under [`SERVICE`]: the flattened form of an answer that
/// `keyring::Entry::new` gave to exactly that service and that key.
pub open spec fn resolves(key: &str, resolved: Result<keyring::Entry, String>) -> bool {
    exists|answer: Result<keyring::Entry, keyring::Error>|
        call_ensures(keyring::Entry::new, (SERVICE, key), answer) && #[trigger] flattens_to(
            answer,
            resolved,
        )
}

/// `outcome` is what comes of writing `value` after `resolved`: the failure
/// to resolve, unchanged, or else the flattened form of an answer that
/// `set_password` gave for the resolved entry and exactly that value.
pub open spec fn writes(
    resolved: Result<keyring::Entry, String>,
    value: &str,
    outcome: Result<(), String>,
) -> bool {
    match resolved {
        Err(text) => outcome == Err::<(), String>(text),
        Ok(entry) => exists|answer: Result<(), keyring::Error>|
            call_ensures(keyring::Entry::set_password, (&entry, value), answer)
                && #[trigger] flattens_to(answer, outcome),
    }
}

/// `outcome` is what comes of reading after `resolved`: the failure to
/// resolve, unchanged, or else the flattened form of an answer that
/// `get_password` gave for the resolved entry.
pub open spec fn reads(
    resolved: Result<keyring::Entry, String>,
    outcome: Result<String, String>,
) -> bool {
    match resolved {
        Err(text) => outcome == Err::<String, String>(text),
        Ok(entry) => exists|answer: Result<String, keyring::Error>|
            call_ensures(keyring::Entry::get_password, (&entry,), answer) && #[trigger] flattens_to(
                answer,
                outcome,
            ),
    }
}

/// `outcome` is what comes of removing after `resolved`: the failure to
/// resolve, unchanged, or else the flattened form of an answer that
/// `delete_credential` gave for the resolved entry.
pub open spec fn removes(
    resolved: Result<keyring::Entry, String>,
    outcome: Result<(), String>,
) -> bool {
    match resolved {
        Err(text) => outcome == Err::<(), String>(text),
        Ok(entry) => exists|answer: Result<(), keyring::Error>|
            call_ensures(keyring::Entry::delete_credential, (&entry,), answer)
                && #[trigger] flattens_to(answer, outcome),
    }
}

/// `outcome` is what comes of storing `value` for `key`: of resolving the
/// entry of `key`, then writing `value` to it.
pub open spec fn stores(key: &str, value: &str, outcome: Result<(), String>) -> bool {
    exists|resolved: Result<keyring::Entry, String>|
        resolves(key, resolved) && #[trigger] writes(resolved, value, outcome)
}

/// `outcome` is what comes of getting the secret of `key`: of resolving the
/// entry of `key`, then reading it.
pub open spec fn gets(key: &str, outcome: Result<String, String>) -> bool {
    exists|resolved: Result<keyring::Entry, String>|
        resolves(key, resolved) && #[trigger] reads(resolved, outcome)
}

/// `outcome` is what comes of deleting the secret of `key`: of resolving
/// the entry of `key`, then removing its credential.
pub open spec fn deletes(key: &str, outcome: Result<(), String>) -> bool {
    exists|resolved: Result<keyring::Entry, String>|
        resolves(key, resolved) && #[trigger] removes(resolved, outcome)
}

/// A failure carries a text, and the text is not empty.
pub open spec fn fails_with_text<T>(outcome: Result<T, String>) -> bool {
    outcome matches Err(text) ==> text@.len() > 0
}

/// The store's description of a failure.
///
/// Trusted: the body is the `Display` of `keyring::Error`, through
/// `to_string`. Each kind of failure is described by a sentence of its own,
/// to which some kinds append details, so the description is never empty.
/// Beyond that the contract only names the text as what `to_string` gave
/// for this failure.
#[verifier::external_body]
fn describe(failure: &keyring::Error) -> (text: String)
    ensures
        describes(*failure, text),
{
    failure.to_string()
}

/// The service and the user under which the store keeps the secret for
/// `key`: [`SERVICE`], and the key as it is given.
pub fn address<'a>(key: &'a str) -> (addr: (&'static str, &'a str))
    ensures
        addr == (SERVICE, key),
{
    (SERVICE, key)
}

/// Flattens one answer of the store: a success is passed on as it is, a
/// failure is replaced by its description.
pub fn flatten<T>(answer: Result<T, keyring::Error>) -> (flat: Result<T, String>)
    ensures
        flattens_to(answer, flat),
{
    match answer {
        Ok(value) => Ok(value),
        Err(failure) => Err(describe(&failure)),
    }
}

/// Asks the store for the entry at the [`address`] of `key` and flattens
/// the answer.
pub fn resolve(key: &str) -> (resolved: Result<keyring::Entry, String>)
    ensures
        resolves(key, resolved),
        fails_with_text(resolved),
{
    let (service, user) = address(key);
    flatten(keyring::Entry::new(service, user))
}

/// Asks the store to keep `value` for the resolved entry and flattens the
/// answer. Where resolving failed, that failure is the outcome, unchanged.
pub fn write_to(resolved: Result<keyring::Entry, String>, value: &str) -> (outcome: Result<
    (),
    String,
>)
    ensures
        writes(resolved, value, outcome),
{
    match resolved {
        Ok(entry) => flatten(entry.set_password(value)),
        Err(text) => Err(text),
    }
}

/// Asks the store for the secret of the resolved entry and flattens the
/// answer. Where resolving failed, that failure is the outcome, unchanged.
pub fn read_from(resolved: Result<keyring::Entry, String>) -> (outcome: Result<String, String>)
    ensures
        reads(resolved, outcome),
{
    match resolved {
        Ok(entry) => flatten(entry.get_password()),
        Err(text) => Err(text),
    }
}

/// Asks the store to forget the credential of the resolved entry and
/// flattens the answer. Where resolving failed, that failure is the outcome,
/// unchanged.
pub fn remove_from(resolved: Result<keyring::Entry, String>) -> (outcome: Result<(), String>)
    ensures
        removes(resolved, outcome),
{
    match resolved {
        Ok(entry) => flatten(entry.delete_credential()),
        Err(text) => Err(text),
    }
}

/// Stores `value` as the secret for `key`.
///
/// The store is asked for the entry of `key` under [`SERVICE`] and then to
/// keep `value` for it, key and value exactly as given. The outcome is the
/// store's answer, flattened: success, or the description of the failure of
/// whichever step failed.
pub fn store_secret(key: String, value: String) -> (outcome: Result<(), String>)
    ensures
        exists|k: &str, v: &str| k@ == key@ && v@ == value@ && #[trigger] stores(k, v, outcome),
        fails_with_text(outcome),
{
    let k = key.as_str();
    let v = value.as_str();
    let outcome = write_to(resolve(k), v);
    assert(stores(k, v, outcome));
    outcome
}

/// Reads the secret for `key`.
///
/// The store is asked for the entry of `key` under [`SERVICE`] and then for
/// its secret. The outcome is the store's answer, flattened: the secret as
/// the store gave it, or the description of the failure of whichever step
/// failed. A key without a secret and a store that cannot be reached are
/// both just failures.
pub fn get_secret(key: String) -> (outcome: Result<String, String>)
    ensures
        exists|k: &str| k@ == key@ && #[trigger] gets(k, outcome),
        fails_with_text(outcome),
{
    let k = key.as_str();
    let outcome = read_from(resolve(k));
    assert(gets(k, outcome));
    outcome
}

/// Deletes the secret for `key`.
///
/// The store is asked for the entry of `key` under [`SERVICE`] and then to
/// forget its credential. The outcome is the store's answer, flattened:
/// success, or the description of the failure of whichever step failed. A
/// store that refuses to forget what it does not hold makes this a failure.
pub fn delete_secret(key: String) -> (outcome: Result<(), String>)
    ensures
        exists|k: &str| k@ == key@ && #[trigger] deletes(k, outcome),
        fails_with_text(outcome),
{
    let k = key.as_str();
    let outcome = remove_from(resolve(k));
    assert(deletes(k, outcome));
    outcome
}

} // verus!

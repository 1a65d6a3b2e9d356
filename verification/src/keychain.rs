//! Secrets in the system keychain, under the service `flow`.
use keyring::{Entry, Error};
use vstd::prelude::*;

use crate::text::{chars_of, extend_str, string_of};

verus! {

#[verifier::external_type_specification]
#[verifier::external_body]
pub struct ExEntry(Entry);

#[verifier::external_type_specification]
#[verifier::external_body]
pub struct ExKeyringError(Error);

/// The keychain service name.
pub const SERVICE: &'static str = "flow";

/// Which secret.
pub enum Slot<'a> {
    JiraToken { email: &'a str },
    GithubToken,
}

/// The keychain account of each secret: `jira:<email>` or `github`.
pub open spec fn account_of(slot: Slot) -> Seq<char> {
    match slot {
        Slot::JiraToken { email } => "jira:"@ + email@,
        Slot::GithubToken => "github"@,
    }
}

impl<'a> Slot<'a> {
    pub fn account(&self) -> (r: String)
        ensures
            r@ == account_of(*self),
    {
        match self {
            Slot::JiraToken { email } => {
                let mut v = chars_of("jira:");
                extend_str(&mut v, email);
                string_of(&v)
            },
            Slot::GithubToken => "github".to_owned(),
        }
    }
}

/// `Entry::new`: the keychain entry of a service and account. Whether it can
/// be made depends on the platform's store; nothing is stated.
#[verifier::external_body]
fn entry_new(service: &str, user: &str) -> (r: Result<Entry, Error>) {
    Entry::new(service, user)
}

/// `Entry::get_password`: what the keychain holds; nothing is stated.
#[verifier::external_body]
fn entry_get_password(e: &Entry) -> (r: Result<String, Error>) {
    e.get_password()
}

/// `Entry::set_password`; its effect on the keychain is not stated.
#[verifier::external_body]
fn entry_set_password(e: &Entry, password: &str) -> (r: Result<(), Error>) {
    e.set_password(password)
}

/// `Entry::delete_credential`; its effect on the keychain is not stated.
#[verifier::external_body]
fn entry_delete_credential(e: &Entry) -> (r: Result<(), Error>) {
    e.delete_credential()
}

fn entry(slot: Slot<'_>) -> (r: Result<Entry, Error>) {
    let account = slot.account();
    entry_new(SERVICE, account.as_str())
}

/// The secret in `slot`.
pub fn get(slot: Slot<'_>) -> (r: Result<String, Error>) {
    let e = entry(slot)?;
    entry_get_password(&e)
}

/// Store `value` in `slot`.
pub fn set(slot: Slot<'_>, value: &str) -> (r: Result<(), Error>) {
    let e = entry(slot)?;
    entry_set_password(&e, value)
}

/// Remove the secret in `slot`.
pub fn delete(slot: Slot<'_>) -> (r: Result<(), Error>) {
    let e = entry(slot)?;
    entry_delete_credential(&e)
}

/// Whether `slot` holds a secret that can be read (any failure counts as no).
pub fn has(slot: Slot<'_>) -> (r: bool) {
    get(slot).is_ok()
}

} // verus!

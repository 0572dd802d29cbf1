//! Secret strings, kept in `secrecy::Secret` so that they are wiped from
//! memory when dropped and are never printed by `Debug`.
//!
//! Verus does not look inside `secrecy::Secret`. The three trusted functions
//! below are the only code that touches it, and their contracts are stated,
//! not proved.

use secrecy::ExposeSecret;
use secrecy::Secret;
use vstd::prelude::*;

verus! {

/// A secret string. It holds a `secrecy::Secret<String>`, which Verus cannot
/// see into; `secret_text` names what it holds.
#[verifier::external_body]
#[derive(Debug)]
pub struct SecretText {
    inner: Secret<String>,
}

/// The text that a secret holds.
pub uninterp spec fn secret_text(secret: SecretText) -> Seq<char>;

impl View for SecretText {
    type V = Seq<char>;

    open spec fn view(&self) -> Seq<char> {
        secret_text(*self)
    }
}

/// Wraps `text` with `Secret::new`, which stores its argument unchanged: the
/// secret holds exactly `text`.
#[verifier::external_body]
fn seal(text: String) -> (secret: SecretText)
    ensures
        secret_text(secret) == text@,
{
    SecretText { inner: Secret::new(text) }
}

/// Reads a secret with `ExposeSecret::expose_secret`, which returns a
/// reference to the stored value: the text is the one that the secret holds.
#[verifier::external_body]
fn expose(secret: &SecretText) -> (text: &String)
    ensures
        text@ == secret_text(*secret),
{
    secret.inner.expose_secret()
}

/// Copies a secret with `Secret::clone`, which clones the stored value: the
/// copy holds the same text.
#[verifier::external_body]
fn duplicate(secret: &SecretText) -> (copy: SecretText)
    ensures
        secret_text(copy) == secret_text(*secret),
{
    SecretText { inner: secret.inner.clone() }
}

impl Clone for SecretText {
    fn clone(&self) -> (copy: SecretText)
        ensures
            copy@ == self@,
    {
        duplicate(self)
    }
}

impl SecretText {
    /// Takes ownership of `text` and hides it.
    pub fn new(text: String) -> (secret: SecretText)
        ensures
            secret@ == text@,
    {
        seal(text)
    }

    /// The one way to the hidden text: use it where a credential is attached
    /// to an outgoing request or a connection.
    pub fn expose_secret(&self) -> (text: &String)
        ensures
            text@ == self@,
    {
        expose(self)
    }
}

} // verus!

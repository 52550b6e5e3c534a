//! Minimal secret-handling primitives.
//!
//! [`SecretString`] wraps a credential and prevents accidental disclosure:
//! its only printable form is `[REDACTED]`. The underlying text can only be
//! inspected through [`SecretString::expose`], which forces the caller to
//! acknowledge the leak.

use vstd::prelude::*;

use crate::text::{is_blank, lemma_trim_empty_iff_blank, str_is_blank, trim_spec};

verus! {

/// Opaque wrapper around a credential string.
///
/// - [`SecretString::redacted`] / [`SecretString::debug_text`] print `[REDACTED]`.
/// - `Clone` is preserved; callers that want single-owner semantics should
///   move the value instead.
#[derive(Clone)]
pub struct SecretString(String);

impl View for SecretString {
    type V = Seq<char>;

    /// The wrapped credential.
    closed spec fn view(&self) -> Seq<char> {
        self.0@
    }
}

impl SecretString {
    /// Wraps a string as a secret.
    pub fn new(value: &str) -> (s: Self)
        ensures
            s@ == value@,
    {
        SecretString(value.to_owned())
    }

    /// Wraps an owned string as a secret.
    pub fn from_string(value: String) -> (s: Self)
        ensures
            s@ == value@,
    {
        SecretString(value)
    }

    /// Returns the raw secret. The name is deliberately loud to make audit
    /// log greps easy — do not use this outside of the single network call
    /// that needs it.
    pub fn expose(&self) -> (s: &str)
        ensures
            s@ == self@,
    {
        self.0.as_str()
    }

    /// Returns `true` if the secret is empty once trimmed.
    pub fn is_empty(&self) -> (b: bool)
        ensures
            b == (trim_spec(self@).len() == 0),
            b == is_blank(self@),
    {
        proof {
            lemma_trim_empty_iff_blank(self@);
        }
        str_is_blank(self.0.as_str())
    }

    /// The text printed in place of the secret (`Display`).
    pub fn redacted(&self) -> (s: &'static str)
        ensures
            s@ == "[REDACTED]"@,
    {
        "[REDACTED]"
    }

    /// The text printed for debugging (`Debug`).
    pub fn debug_text(&self) -> (s: &'static str)
        ensures
            s@ == "SecretString(\"[REDACTED]\")"@,
    {
        "SecretString(\"[REDACTED]\")"
    }
}

} // verus!

//! Opaque wrappers for credentials and tokens.
//!
//! A wrapped payload never reaches a textual rendering: the one rendering a
//! secret offers is a fixed mark, and only `expose_secret` yields the raw
//! value, to be called right where the wire protocol needs it.

use vstd::prelude::*;

verus! {

/// A credential payload; its only textual rendering is the fixed
/// redaction mark.
pub struct Secret {
    value: String,
}

/// The mark any rendering of a secret shows.
pub open spec fn redaction_mark() -> Seq<char> {
    "[REDACTED]"@
}

/// What rendering a given secret produces. Kept closed: that it equals
/// `redaction_mark()` — for every payload — is stated by `redacted` and by
/// `lemma_rendering_hides_payload`.
pub closed spec fn spec_rendering(s: &Secret) -> Seq<char> {
    redaction_mark()
}

impl View for Secret {
    type V = Seq<char>;

    closed spec fn view(&self) -> Seq<char> {
        self.value@
    }
}

impl Secret {
    /// Wrap a raw credential.
    pub fn new(value: String) -> (r: Secret)
        ensures
            r@ == value@,
    {
        Secret { value }
    }

    /// Deliberate, auditable extraction: the only way to the payload.
    pub fn expose_secret(&self) -> (r: &str)
        ensures
            r@ == self@,
    {
        self.value.as_str()
    }

    /// The rendering used wherever a secret would be written out: the
    /// fixed mark, never the payload.
    pub fn redacted(&self) -> (r: &'static str)
        ensures
            r@ == spec_rendering(self),
            r@ == redaction_mark(),
    {
        "[REDACTED]"
    }
}

/// Any two secrets — whatever their payloads — render identically, so a
/// rendering carries no information about the wrapped value.
pub proof fn lemma_rendering_hides_payload(a: &Secret, b: &Secret)
    ensures
        spec_rendering(a) == spec_rendering(b),
{
}

} // verus!

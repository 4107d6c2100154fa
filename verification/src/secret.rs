//! Credential wrapper that keeps the key out of diagnostic output.

use vstd::prelude::*;

verus! {

/// An API credential.
///
/// The raw text is reachable only through [`Secret::secret`], the single
/// sanctioned call site used when composing the outbound authentication
/// header. Every rendering path for logs or diagnostics goes through
/// [`Secret::redacted`] instead, which yields the fixed marker whatever the
/// credential holds.
#[derive(Clone)]
pub struct Secret(String);

impl View for Secret {
    type V = Seq<char>;

    closed spec fn view(&self) -> Seq<char> {
        self.0@
    }
}

/// What any textual rendering of a credential shows.
pub open spec fn redacted_text() -> Seq<char> {
    "REDACTED"@
}

/// Whether `needle` occurs as a contiguous run inside `hay`.
pub open spec fn contains_seq(hay: Seq<char>, needle: Seq<char>) -> bool {
    exists|i: int|
        0 <= i && i + needle.len() <= hay.len() && #[trigger] hay.subrange(i, i + needle.len())
            == needle
}

impl Secret {
    /// Wraps the given text as a credential. Never fails, whatever the
    /// content or length of the text.
    pub fn from_str(s: &str) -> (r: Secret)
        ensures
            r@ == s@,
    {
        Secret(s.to_owned())
    }

    /// The raw credential, for building the authentication header only.
    pub fn secret(&self) -> (r: &str)
        ensures
            r@ == self@,
    {
        self.0.as_str()
    }

    /// Rendering for logs and diagnostics: always the fixed marker, never
    /// the credential itself, even when the credential is empty or happens
    /// to equal the marker.
    pub fn redacted(&self) -> (r: String)
        ensures
            r@ == redacted_text(),
    {
        String::from_str("REDACTED")
    }
}

/// Law: the rendering of a credential is exactly `REDACTED`, so a secret text
/// can occur in it only where that text is itself a fragment of `REDACTED`;
/// in particular no secret longer than the marker ever appears in it.
pub proof fn lemma_redaction(s: Seq<char>)
    ensures
        contains_seq(redacted_text(), s) ==> contains_seq("REDACTED"@, s),
        s.len() > redacted_text().len() ==> !contains_seq(redacted_text(), s),
{
}

} // verus!

//! Secret values: carried to their point of use, never printed.

use vstd::prelude::*;

verus! {

/// A secret text: a connection string, a key, a certificate. The type has no
/// way to print, format or compare itself, so the text leaves it only where
/// `expose_secret` is written out, and it is wiped from memory when the
/// secret is dropped.
pub struct Secret {
    text: String,
}

impl View for Secret {
    type V = Seq<char>;

    closed spec fn view(&self) -> Seq<char> {
        self.text@
    }
}

impl Secret {
    /// Wraps a text.
    pub fn new(text: String) -> (r: Secret)
        ensures
            r@ == text@,
    {
        Secret { text }
    }

    /// Wipes the text from memory ahead of time. The secret is empty
    /// afterwards.
    pub fn wipe(&mut self)
        ensures
            final(self)@ == Seq::<char>::empty(),
    {
        zeroize_text(&mut self.text);
    }

    /// The wrapped text, for the place that uses it.
    pub fn expose_secret(&self) -> (r: &String)
        ensures
            r@ == self@,
    {
        &self.text
    }
}

/// Calls `Zeroize::zeroize` of `String`, as `secrecy` re-exports it: it
/// overwrites the text's bytes with zeros and leaves the string empty.
#[verifier::external_body]
fn zeroize_text(text: &mut String)
    ensures
        final(text)@ == Seq::<char>::empty(),
    opens_invariants none
    no_unwind
{
    secrecy::Zeroize::zeroize(text);
}

impl Drop for Secret {
    /// The text is wiped from memory when the secret goes.
    fn drop(&mut self)
        opens_invariants none
        no_unwind
    {
        zeroize_text(&mut self.text);
    }
}

impl Clone for Secret {
    fn clone(&self) -> (r: Secret)
        ensures
            r == *self,
    {
        Secret { text: self.text.clone() }
    }
}

} // verus!

//! Diagnostic texts.

use vstd::prelude::*;

verus! {

/// A text that tells an operator what went wrong. It is never empty.
#[derive(Debug, PartialEq, Eq)]
pub struct Diagnostic {
    text: String,
}

impl View for Diagnostic {
    type V = Seq<char>;

    closed spec fn view(&self) -> Seq<char> {
        self.text@
    }
}

impl Diagnostic {
    /// What holds of every diagnostic: its text is not empty.
    #[verifier::type_invariant]
    pub open spec fn not_empty(self) -> bool {
        self@.len() > 0
    }

    /// The diagnostic with the given text, unless the text is empty.
    pub fn new(text: String) -> (d: Option<Diagnostic>)
        ensures
            d is Some <==> text@.len() > 0,
            d matches Some(diagnostic) ==> diagnostic@ == text@,
    {
        if text.as_str().is_empty() {
            None
        } else {
            Some(Diagnostic { text })
        }
    }

    /// The diagnostic with the given text, which is known not to be empty.
    pub(crate) fn known(text: &str) -> (d: Diagnostic)
        requires
            text@.len() > 0,
        ensures
            d@ == text@,
    {
        Diagnostic { text: text.to_owned() }
    }

    /// The text, which is not empty.
    pub fn text(&self) -> (text: &String)
        ensures
            text@ == self@,
            text@.len() > 0,
    {
        proof {
            use_type_invariant(self);
        }
        &self.text
    }

    /// The text, which is not empty.
    pub fn into_text(self) -> (text: String)
        ensures
            text@ == self@,
            text@.len() > 0,
    {
        proof {
            use_type_invariant(&self);
        }
        self.text
    }
}

} // verus!

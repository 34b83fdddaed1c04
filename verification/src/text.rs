//! Textual rendering of loggable values: the `Stringify` capability that
//! tags and messages are taken through.

use vstd::prelude::*;

verus! {

/// The debug rendering of a piece of text: the quoted, escaped form that
/// std's `Debug` implementation for `str` produces from these characters.
pub uninterp spec fn str_debug_of(s: Seq<char>) -> Seq<char>;

/// Relies on std's `Debug` formatting for `str`, reached through
/// `format!`: the rendering depends on the characters of `s` alone.
#[verifier::external_body]
fn debug_str(s: &str) -> (r: String)
    ensures
        r@ == str_debug_of(s@),
{
    format!("{:?}", s)
}

/// A value a logger can render. Tags are stored under their plain
/// textual form (`text`); messages are emitted under their debug
/// rendering (`debug_text`).
pub trait Stringify {
    /// The plain textual form, as a mathematical character sequence.
    spec fn text(&self) -> Seq<char>;

    /// The debug rendering, as a mathematical character sequence.
    spec fn debug_text(&self) -> Seq<char>;

    /// Renders the plain textual form.
    fn to_text(&self) -> (r: String)
        ensures
            r@ == self.text(),
    ;

    /// Renders the debug form.
    fn to_debug_text(&self) -> (r: String)
        ensures
            r@ == self.debug_text(),
    ;
}

impl Stringify for String {
    open spec fn text(&self) -> Seq<char> {
        self@
    }

    open spec fn debug_text(&self) -> Seq<char> {
        str_debug_of(self@)
    }

    fn to_text(&self) -> (r: String) {
        self.clone()
    }

    fn to_debug_text(&self) -> (r: String) {
        debug_str(self.as_str())
    }
}

impl Stringify for &String {
    open spec fn text(&self) -> Seq<char> {
        self@
    }

    open spec fn debug_text(&self) -> Seq<char> {
        str_debug_of(self@)
    }

    fn to_text(&self) -> (r: String) {
        (*self).clone()
    }

    fn to_debug_text(&self) -> (r: String) {
        debug_str(self.as_str())
    }
}

impl Stringify for &str {
    open spec fn text(&self) -> Seq<char> {
        self@
    }

    open spec fn debug_text(&self) -> Seq<char> {
        str_debug_of(self@)
    }

    fn to_text(&self) -> (r: String) {
        String::from_str(self)
    }

    fn to_debug_text(&self) -> (r: String) {
        debug_str(self)
    }
}

} // verus!

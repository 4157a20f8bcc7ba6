//! Values that are written between double quotes.

use vstd::prelude::*;
use vstd::string::StringExecFns;

verus! {

/// The text of `s` between two double quotes, nothing escaped.
pub open spec fn quoted(s: Seq<char>) -> Seq<char> {
    "\""@ + s + "\""@
}

/// A quoted value (e.g. `"example"`).
pub struct Quote<S>(pub S);

/// Creates a quoted value (e.g. `"example"`).
pub fn quote<S>(s: S) -> (q: Quote<S>)
    ensures
        q.0 == s,
{
    Quote(s)
}

impl<'a> Quote<&'a str> {
    /// The value between double quotes, nothing escaped.
    pub fn to_string(&self) -> (text: String)
        ensures
            text@ == quoted(self.0@),
    {
        let mut text = String::from_str("\"");
        text.append(self.0);
        text.append("\"");
        text
    }
}

impl Quote<String> {
    /// The value between double quotes, nothing escaped.
    pub fn to_string(&self) -> (text: String)
        ensures
            text@ == quoted(self.0@),
    {
        quote(self.0.as_str()).to_string()
    }
}

} // verus!

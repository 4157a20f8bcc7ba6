//! The flat record document: an ordered list of `key="value"` lines after a
//! preamble of two lines.

use vstd::prelude::*;
use vstd::string::StringExecFns;
use crate::text::{decimal, decimal_text, join, join_strings, texts};
use crate::util::{quote, quoted};

verus! {

/// One line of the document: the key, an equals sign, the quoted value.
pub open spec fn line_text(name: Seq<char>, value: Seq<char>) -> Seq<char> {
    name + "="@ + quoted(value)
}

/// How the logging flag is written.
pub open spec fn logging_text(logging: bool) -> Seq<char> {
    if logging {
        "yes"@
    } else {
        "no"@
    }
}

/// The two lines that every document starts with.
pub open spec fn preamble(version: nat, logging: bool) -> Seq<Seq<char>> {
    seq![
        line_text("version"@, decimal_text(version)),
        line_text("logging"@, logging_text(logging)),
    ]
}

/// A flat record document. Its view is the list of its lines.
pub struct DatDocument {
    pub lines: Vec<String>,
}

impl View for DatDocument {
    type V = Seq<Seq<char>>;

    open spec fn view(&self) -> Seq<Seq<char>> {
        texts(self.lines@)
    }
}

impl DatDocument {
    /// A document that holds the preamble: the format version and the
    /// logging flag.
    pub fn new(version: u16, logging: bool) -> (doc: Self)
        ensures
            doc@ == preamble(version as nat, logging),
    {
        let mut doc = DatDocument { lines: Vec::new() };
        let number = decimal(version);
        doc.append("version", number.as_str());
        doc.append(
            "logging",
            if logging {
                "yes"
            } else {
                "no"
            },
        );
        doc
    }

    /// The lines in the order in which they were appended, with a newline
    /// between each two.
    pub fn to_string(&self) -> (text: String)
        ensures
            text@ == join(self@, "\n"@),
    {
        join_strings(&self.lines, "\n")
    }

    /// Appends the line `name="value"`.
    pub fn append(&mut self, name: &str, value: &str)
        ensures
            final(self)@ == old(self)@.push(line_text(name@, value@)),
    {
        let mut line = String::from_str(name);
        line.append("=");
        let value_text = quote(value).to_string();
        line.append(value_text.as_str());
        self.lines.push(line);
    }
}

} // verus!

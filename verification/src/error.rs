//! Errors that parsing or compiling can end in.

use vstd::prelude::*;
use serde_json::Error as JsonError;

verus! {

/// The error of `serde_json`, carried through as it is.
#[verifier::external_type_specification]
#[verifier::external_body]
pub struct ExJsonError(JsonError);

/// An error: of the parser or of the compiler, with a description, or of
/// turning a tree into JSON.
#[derive(Debug)]
pub enum Error {
    /// Parser error.
    Parser(String),
    /// Compiler error.
    Compiler(String),
    /// Serialization error.
    Serialization(JsonError),
}

/// The text that `serde_json::Error` shows through `Display`.
///
/// Nothing is stated of it: it depends on the kind of the error, which is
/// private to `serde_json`, and on the line and column where it happened.
#[verifier::external_body]
fn json_error_text(error: &JsonError) -> String {
    format!("{}", error)
}

impl Error {
    /// How the text of the error starts: which part failed.
    pub open spec fn spec_prefix(&self) -> Seq<char> {
        match self {
            Error::Parser(_) => "Parser error: "@,
            Error::Compiler(_) => "Compiler error: "@,
            Error::Serialization(_) => "Serialization error: "@,
        }
    }

    /// The text of a parser or compiler error: which part failed, and the
    /// description.
    pub open spec fn spec_string(&self) -> Seq<char> {
        match self {
            Error::Parser(description) => "Parser error: "@ + description@,
            Error::Compiler(description) => "Compiler error: "@ + description@,
            Error::Serialization(_) => "Serialization error: "@,
        }
    }

    /// The text of the error, as it is displayed: which part failed, then
    /// the description (for a serialization error, the text of the
    /// `serde_json` error).
    pub fn to_string(&self) -> (r: String)
        ensures
            self.spec_prefix().is_prefix_of(r@),
            !(self is Serialization) ==> r@ == self.spec_string(),
    {
        let mut s = String::new();
        match self {
            Error::Parser(description) => {
                s.append("Parser error: ");
                s.append(description.as_str());
            },
            Error::Compiler(description) => {
                s.append("Compiler error: ");
                s.append(description.as_str());
            },
            Error::Serialization(error) => {
                s.append("Serialization error: ");
                let text = json_error_text(error);
                s.append(text.as_str());
            },
        }
        assert(self.spec_prefix() =~= s@.subrange(0, self.spec_prefix().len() as int));
        s
    }
}

} // verus!

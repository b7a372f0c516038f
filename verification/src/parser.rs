//! Info needed, in all content types, when parsing markdown.

use vstd::prelude::*;
use crate::configuration::ParseOptions;

verus! {

/// Info needed, in all content types, when parsing markdown.
///
/// Importantly, this contains a set of known definitions.
/// It also holds the input value as bytes (`u8`).
pub struct ParseState {
    /// Configuration.
    pub options: ParseOptions,
    /// List of bytes.
    pub bytes: Vec<u8>,
    /// Set of defined definition identifiers.
    pub definitions: Vec<String>,
    /// Set of defined GFM footnote definition identifiers.
    pub gfm_footnote_definitions: Vec<String>,
}

impl ParseState {
    /// Create parse state for a value, with no definitions yet.
    pub fn new(bytes: Vec<u8>, options: ParseOptions) -> (r: Self)
        ensures
            r.bytes@ == bytes@,
            r.options == options,
            r.definitions@.len() == 0,
            r.gfm_footnote_definitions@.len() == 0,
    {
        ParseState { options, bytes, definitions: Vec::new(), gfm_footnote_definitions: Vec::new() }
    }
}

} // verus!

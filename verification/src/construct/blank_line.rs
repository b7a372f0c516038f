//! Blank lines occur in the flow content type.
//!
//! ```bnf
//! blank_line ::= *space_or_tab
//! ```
//!
//! As this construct occurs in flow, like all flow constructs, it must be
//! followed by an eol (line ending) or eof (end of file).

use vstd::prelude::*;
use crate::construct::partial_space_or_tab::{space_or_tab, spec_min_max};
use crate::state::{Name as StateName, State};
use crate::tokenizer::{Tokenizer, TokenizerView};

verus! {

/// Start: optional whitespace first.
pub open spec fn spec_start(t: TokenizerView) -> (TokenizerView, State) {
    if t.at_space_or_tab() {
        let t1 = t.attempt(State::Next(StateName::BlankLineAfter), State::Nok);
        (spec_min_max(t1, 1, usize::MAX), State::Retry(StateName::SpaceOrTabStart))
    } else {
        (t, State::Retry(StateName::BlankLineAfter))
    }
}

/// Start of blank line.
///
/// ```markdown
/// > | ␠␠␊
///     ^
/// > | ␊
///     ^
/// ```
pub fn start(tokenizer: &mut Tokenizer) -> (r: State)
    ensures
        (final(tokenizer)@, r) == spec_start(old(tokenizer)@),
{
    if matches!(tokenizer.current, Some(9 | 32)) {
        tokenizer.attempt(State::Next(StateName::BlankLineAfter), State::Nok);
        State::Retry(space_or_tab(tokenizer))
    } else {
        State::Retry(StateName::BlankLineAfter)
    }
}

/// After whitespace: ok at an eol or the end.
pub open spec fn spec_after(t: TokenizerView) -> (TokenizerView, State) {
    (t, if t.at_eol_or_eof() {
        State::Okay
    } else {
        State::Nok
    })
}

/// At eof/eol, after optional whitespace.
///
/// ```markdown
/// > | ␠␠␊
///       ^
/// > | ␊
///     ^
/// ```
pub fn after(tokenizer: &mut Tokenizer) -> (r: State)
    ensures
        (final(tokenizer)@, r) == spec_after(old(tokenizer)@),
{
    match tokenizer.current {
        None | Some(10) => State::Okay,
        _ => State::Nok,
    }
}

} // verus!

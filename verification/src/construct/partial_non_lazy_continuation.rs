//! Non-lazy continuation: a line ending followed by a line that is not lazy.

use vstd::prelude::*;
use crate::event::Name;
use crate::state::{Name as StateName, State};
use crate::tokenizer::{Tokenizer, TokenizerView};

verus! {

/// At eol: take it.
pub open spec fn spec_start(t: TokenizerView) -> (TokenizerView, State) {
    if t.current == Some(10u8) {
        (
            t.enter(Name::LineEnding).consume().exit(Name::LineEnding),
            State::Next(StateName::NonLazyContinuationAfter),
        )
    } else {
        (t, State::Nok)
    }
}

/// At eol, before continuation.
///
/// ```markdown
/// > | * ```js
///            ^
///   | b
/// ```
pub fn start(tokenizer: &mut Tokenizer) -> (r: State)
    ensures
        (final(tokenizer)@, r) == spec_start(old(tokenizer)@),
{
    match tokenizer.current {
        Some(10) => {
            tokenizer.enter(Name::LineEnding);
            tokenizer.consume();
            tokenizer.exit(Name::LineEnding);
            State::Next(StateName::NonLazyContinuationAfter)
        },
        _ => State::Nok,
    }
}

/// After eol: ok when the line is not lazy.
pub open spec fn spec_after(t: TokenizerView) -> (TokenizerView, State) {
    (t, if t.lazy {
        State::Nok
    } else {
        State::Okay
    })
}

/// A continuation.
///
/// ```markdown
///   | * ```js
/// > | b
///     ^
/// ```
pub fn after(tokenizer: &mut Tokenizer) -> (r: State)
    ensures
        (final(tokenizer)@, r) == spec_after(old(tokenizer)@),
{
    if tokenizer.lazy {
        State::Nok
    } else {
        State::Okay
    }
}

} // verus!

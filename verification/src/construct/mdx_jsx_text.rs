//! MDX JSX (text) occurs in the text content type.
//!
//! ```bnf
//! mdx_jsx_text ::= mdx_jsx
//!
//! ; See the `partial_mdx_jsx` construct for the BNF of that part.
//! ```

use vstd::prelude::*;
use crate::event::Name;
use crate::state::{Name as StateName, State};
use crate::tokenizer::{Tokenizer, TokenizerView};

verus! {

/// Start: at `<`, when turned on, a tag named as one in text.
pub open spec fn spec_start(t: TokenizerView) -> (TokenizerView, State) {
    if t.current == Some(60u8) && t.options.constructs.mdx_jsx_text {
        (
            t.set_token_1(Name::MdxJsxTextTag).attempt(
                State::Next(StateName::MdxJsxTextAfter),
                State::Next(StateName::MdxJsxTextNok),
            ),
            State::Retry(StateName::MdxJsxStart),
        )
    } else {
        (t, State::Nok)
    }
}

/// Start of MDX: JSX (text).
///
/// ```markdown
/// > | a <B /> c
///       ^
/// ```
pub fn start(tokenizer: &mut Tokenizer) -> (r: State)
    ensures
        (final(tokenizer)@, r) == spec_start(old(tokenizer)@),
{
    if tokenizer.current == Some(60) && tokenizer.parse_state.options.constructs.mdx_jsx_text {
        tokenizer.set_token_1(Name::MdxJsxTextTag);
        tokenizer.attempt(
            State::Next(StateName::MdxJsxTextAfter),
            State::Next(StateName::MdxJsxTextNok),
        );
        State::Retry(StateName::MdxJsxStart)
    } else {
        State::Nok
    }
}

/// After: reset the name and succeed.
pub open spec fn spec_after(t: TokenizerView) -> (TokenizerView, State) {
    (t.set_token_1(Name::Data), State::Okay)
}

/// After an MDX JSX (text) tag.
///
/// ```markdown
/// > | a <b> c
///          ^
/// ```
pub fn after(tokenizer: &mut Tokenizer) -> (r: State)
    ensures
        (final(tokenizer)@, r) == spec_after(old(tokenizer)@),
{
    tokenizer.set_token_1(Name::Data);
    State::Okay
}

/// Not a tag: reset the name and fail.
pub open spec fn spec_nok(t: TokenizerView) -> (TokenizerView, State) {
    (t.set_token_1(Name::Data), State::Nok)
}

/// At something that wasn’t an MDX JSX (text) tag.
///
/// ```markdown
/// > | a < b
///       ^
/// ```
pub fn nok(tokenizer: &mut Tokenizer) -> (r: State)
    ensures
        (final(tokenizer)@, r) == spec_nok(old(tokenizer)@),
{
    tokenizer.set_token_1(Name::Data);
    State::Nok
}

} // verus!

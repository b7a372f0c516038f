//! MDX expression (text) occurs in the text content type.
//!
//! ```bnf
//! mdx_expression_text ::= mdx_expression
//!
//! ; See the `partial_mdx_expression` construct for the BNF of that part.
//! ```

use vstd::prelude::*;
use crate::event::Name;
use crate::state::{Name as StateName, State};
use crate::tokenizer::{Tokenizer, TokenizerView};

verus! {

/// Start: at `{`, when turned on, an expression named as one in text.
pub open spec fn spec_start(t: TokenizerView) -> (TokenizerView, State) {
    if t.current == Some(123u8) && t.options.constructs.mdx_expression_text {
        (
            t.set_token_1(Name::MdxTextExpression).attempt(
                State::Next(StateName::MdxExpressionTextAfter),
                State::Nok,
            ),
            State::Retry(StateName::MdxExpressionStart),
        )
    } else {
        (t, State::Nok)
    }
}

/// Start of an MDX expression (text).
///
/// ```markdown
/// > | a {Math.PI} c
///       ^
/// ```
pub fn start(tokenizer: &mut Tokenizer) -> (r: State)
    ensures
        (final(tokenizer)@, r) == spec_start(old(tokenizer)@),
{
    if tokenizer.current == Some(123) && tokenizer.parse_state.options.constructs.mdx_expression_text {
        tokenizer.set_token_1(Name::MdxTextExpression);
        tokenizer.attempt(State::Next(StateName::MdxExpressionTextAfter), State::Nok);
        State::Retry(StateName::MdxExpressionStart)
    } else {
        State::Nok
    }
}

/// After: reset the name and succeed.
pub open spec fn spec_after(t: TokenizerView) -> (TokenizerView, State) {
    (t.set_token_1(Name::Data), State::Okay)
}

/// After an MDX expression (text) tag.
///
/// ```markdown
/// > | a {Math.PI} c
///                ^
/// ```
pub fn after(tokenizer: &mut Tokenizer) -> (r: State)
    ensures
        (final(tokenizer)@, r) == spec_after(old(tokenizer)@),
{
    tokenizer.set_token_1(Name::Data);
    State::Okay
}

} // verus!

//! MDX expression (flow) occurs in the flow content type.
//!
//! ```bnf
//! mdx_expression_flow ::= mdx_expression *space_or_tab
//!
//! ; See the `partial_mdx_expression` construct for the BNF of that part.
//! ```
//!
//! As this construct occurs in flow, like all flow constructs, it must be
//! followed by an eol (line ending) or eof (end of file).
//! A JSX tag may follow directly after the expression.

use vstd::prelude::*;
use crate::construct::partial_space_or_tab::{space_or_tab, space_or_tab_min_max, spec_min_max};
use crate::construct::thematic_break::flow_indent_max;
use crate::event::Name;
use crate::state::{Name as StateName, State};
use crate::tokenizer::{Tokenizer, TokenizerView};
use crate::util::constant::TAB_SIZE;

verus! {

/// Start: when turned on, name the expression as one in flow, and allow
/// whitespace before.
pub open spec fn spec_start(t: TokenizerView) -> (TokenizerView, State) {
    if t.options.constructs.mdx_expression_flow {
        let t1 = t.set_token_1(Name::MdxFlowExpression);
        if t.at_space_or_tab() {
            let t2 = t1.attempt(State::Next(StateName::MdxExpressionFlowBefore), State::Nok);
            (spec_min_max(t2, 0, flow_indent_max(t)), State::Retry(StateName::SpaceOrTabStart))
        } else {
            (t1, State::Retry(StateName::MdxExpressionFlowBefore))
        }
    } else {
        (t, State::Nok)
    }
}

/// Start of an MDX expression (flow).
///
/// ```markdown
/// > | {Math.PI}
///     ^
/// ```
pub fn start(tokenizer: &mut Tokenizer) -> (r: State)
    ensures
        (final(tokenizer)@, r) == spec_start(old(tokenizer)@),
{
    if tokenizer.parse_state.options.constructs.mdx_expression_flow {
        tokenizer.set_token_1(Name::MdxFlowExpression);
        if matches!(tokenizer.current, Some(9 | 32)) {
            tokenizer.attempt(State::Next(StateName::MdxExpressionFlowBefore), State::Nok);
            let max = if tokenizer.parse_state.options.constructs.code_indented {
                TAB_SIZE - 1
            } else {
                usize::MAX
            };
            State::Retry(space_or_tab_min_max(tokenizer, 0, max))
        } else {
            State::Retry(StateName::MdxExpressionFlowBefore)
        }
    } else {
        State::Nok
    }
}

/// Before the expression: at `{`, make the line concrete and parse it.
pub open spec fn spec_before(t: TokenizerView) -> (TokenizerView, State) {
    if t.current == Some(123u8) {
        (
            t.set_concrete(true).attempt(State::Next(StateName::MdxExpressionFlowAfter), State::Nok),
            State::Retry(StateName::MdxExpressionStart),
        )
    } else {
        (t, State::Nok)
    }
}

/// After optional whitespace, before expression.
///
/// ```markdown
/// > | {Math.PI}
///     ^
/// ```
pub fn before(tokenizer: &mut Tokenizer) -> (r: State)
    ensures
        (final(tokenizer)@, r) == spec_before(old(tokenizer)@),
{
    if tokenizer.current == Some(123) {
        tokenizer.set_concrete(true);
        tokenizer.attempt(State::Next(StateName::MdxExpressionFlowAfter), State::Nok);
        State::Retry(StateName::MdxExpressionStart)
    } else {
        State::Nok
    }
}

/// After the expression: optional whitespace, then the end.
pub open spec fn spec_after(t: TokenizerView) -> (TokenizerView, State) {
    if t.at_space_or_tab() {
        (
            spec_min_max(
                t.attempt(State::Next(StateName::MdxExpressionFlowEnd), State::Nok),
                1,
                usize::MAX,
            ),
            State::Retry(StateName::SpaceOrTabStart),
        )
    } else {
        (t, State::Retry(StateName::MdxExpressionFlowEnd))
    }
}

/// After expression.
///
/// ```markdown
/// > | {Math.PI}
///              ^
/// ```
pub fn after(tokenizer: &mut Tokenizer) -> (r: State)
    ensures
        (final(tokenizer)@, r) == spec_after(old(tokenizer)@),
{
    if matches!(tokenizer.current, Some(9 | 32)) {
        tokenizer.attempt(State::Next(StateName::MdxExpressionFlowEnd), State::Nok);
        State::Retry(space_or_tab(tokenizer))
    } else {
        State::Retry(StateName::MdxExpressionFlowEnd)
    }
}

/// The tokenizer back out of this construct: not concrete, names reset.
pub open spec fn reset(t: TokenizerView) -> TokenizerView {
    t.set_concrete(false).set_token_1(Name::Data)
}

/// At the end of a line: done; at a JSX tag when those are on: a tag;
/// otherwise not this construct.
pub open spec fn spec_end(t: TokenizerView) -> (TokenizerView, State) {
    if t.at_eol_or_eof() {
        (reset(t), State::Okay)
    } else if t.current == Some(60u8) && t.options.constructs.mdx_jsx_flow {
        (
            t.set_token_1(Name::MdxJsxFlowTag).attempt(
                State::Next(StateName::MdxJsxFlowAfter),
                State::Next(StateName::MdxJsxFlowNok),
            ),
            State::Retry(StateName::MdxJsxStart),
        )
    } else {
        (reset(t), State::Nok)
    }
}

fn reset_state(tokenizer: &mut Tokenizer)
    ensures
        final(tokenizer)@ == reset(old(tokenizer)@),
{
    tokenizer.set_concrete(false);
    tokenizer.set_token_1(Name::Data);
}

/// After expression, after optional whitespace.
///
/// ```markdown
/// > | {Math.PI}␠␊
///               ^
/// ```
pub fn end(tokenizer: &mut Tokenizer) -> (r: State)
    ensures
        (final(tokenizer)@, r) == spec_end(old(tokenizer)@),
{
    // A tag may directly follow an expression; the only construct that can
    // start at `<` here is MDX JSX (flow).
    if matches!(tokenizer.current, None | Some(10)) {
        reset_state(tokenizer);
        State::Okay
    } else if tokenizer.current == Some(60) && tokenizer.parse_state.options.constructs.mdx_jsx_flow {
        tokenizer.set_token_1(Name::MdxJsxFlowTag);
        tokenizer.attempt(
            State::Next(StateName::MdxJsxFlowAfter),
            State::Next(StateName::MdxJsxFlowNok),
        );
        State::Retry(StateName::MdxJsxStart)
    } else {
        reset_state(tokenizer);
        State::Nok
    }
}

} // verus!

//! MDX JSX (flow) occurs in the flow content type.
//!
//! ```bnf
//! mdx_jsx_flow ::= mdx_jsx *space_or_tab [mdx_jsx *space_or_tab]
//!
//! ; See the `partial_mdx_jsx` construct for the BNF of that part.
//! ```
//!
//! As this construct occurs in flow, like all flow constructs, it must be
//! followed by an eol (line ending) or eof (end of file).
//! It is allowed to use multiple tags after each other, optionally with
//! whitespace between them, and expressions directly after tags.

use vstd::prelude::*;
use crate::construct::partial_space_or_tab::{space_or_tab, space_or_tab_min_max, spec_min_max};
use crate::construct::thematic_break::flow_indent_max;
use crate::event::Name;
use crate::state::{Name as StateName, State};
use crate::tokenizer::{Tokenizer, TokenizerView};
use crate::util::constant::TAB_SIZE;

verus! {

/// Start: when turned on, name the tags as ones in flow, make the line
/// concrete, and allow whitespace before.
pub open spec fn spec_start(t: TokenizerView) -> (TokenizerView, State) {
    if t.options.constructs.mdx_jsx_flow {
        let t1 = t.set_token_1(Name::MdxJsxFlowTag).set_concrete(true);
        if t.at_space_or_tab() {
            let t2 = t1.attempt(State::Next(StateName::MdxJsxFlowBefore), State::Nok);
            (spec_min_max(t2, 0, flow_indent_max(t)), State::Retry(StateName::SpaceOrTabStart))
        } else {
            (t1, State::Retry(StateName::MdxJsxFlowBefore))
        }
    } else {
        (t, State::Nok)
    }
}

/// Start of MDX: JSX (flow).
///
/// ```markdown
/// > | <A />
///     ^
/// ```
pub fn start(tokenizer: &mut Tokenizer) -> (r: State)
    ensures
        (final(tokenizer)@, r) == spec_start(old(tokenizer)@),
{
    if tokenizer.parse_state.options.constructs.mdx_jsx_flow {
        tokenizer.set_token_1(Name::MdxJsxFlowTag);
        tokenizer.set_concrete(true);
        if matches!(tokenizer.current, Some(9 | 32)) {
            tokenizer.attempt(State::Next(StateName::MdxJsxFlowBefore), State::Nok);
            let max = if tokenizer.parse_state.options.constructs.code_indented {
                TAB_SIZE - 1
            } else {
                usize::MAX
            };
            State::Retry(space_or_tab_min_max(tokenizer, 0, max))
        } else {
            State::Retry(StateName::MdxJsxFlowBefore)
        }
    } else {
        State::Nok
    }
}

/// Before a tag: a tag at `<`, otherwise not this construct.
pub open spec fn spec_before(t: TokenizerView) -> (TokenizerView, State) {
    if t.current == Some(60u8) {
        (
            t.attempt(
                State::Next(StateName::MdxJsxFlowAfter),
                State::Next(StateName::MdxJsxFlowNok),
            ),
            State::Retry(StateName::MdxJsxStart),
        )
    } else {
        (t, State::Retry(StateName::MdxJsxFlowNok))
    }
}

/// After optional whitespace, before of MDX JSX (flow).
///
/// ```markdown
/// > | <A />
///     ^
/// ```
pub fn before(tokenizer: &mut Tokenizer) -> (r: State)
    ensures
        (final(tokenizer)@, r) == spec_before(old(tokenizer)@),
{
    if tokenizer.current == Some(60) {
        tokenizer.attempt(
            State::Next(StateName::MdxJsxFlowAfter),
            State::Next(StateName::MdxJsxFlowNok),
        );
        State::Retry(StateName::MdxJsxStart)
    } else {
        State::Retry(StateName::MdxJsxFlowNok)
    }
}

/// After a tag: optional whitespace, then the end.
pub open spec fn spec_after(t: TokenizerView) -> (TokenizerView, State) {
    if t.at_space_or_tab() {
        (
            spec_min_max(
                t.attempt(State::Next(StateName::MdxJsxFlowEnd), State::Nok),
                1,
                usize::MAX,
            ),
            State::Retry(StateName::SpaceOrTabStart),
        )
    } else {
        (t, State::Retry(StateName::MdxJsxFlowEnd))
    }
}

/// After an MDX JSX (flow) tag.
///
/// ```markdown
/// > | <A>
///        ^
/// ```
pub fn after(tokenizer: &mut Tokenizer) -> (r: State)
    ensures
        (final(tokenizer)@, r) == spec_after(old(tokenizer)@),
{
    if matches!(tokenizer.current, Some(9 | 32)) {
        tokenizer.attempt(State::Next(StateName::MdxJsxFlowEnd), State::Nok);
        State::Retry(space_or_tab(tokenizer))
    } else {
        State::Retry(StateName::MdxJsxFlowEnd)
    }
}

/// The tokenizer back out of this construct: not concrete, names reset.
pub open spec fn reset(t: TokenizerView) -> TokenizerView {
    t.set_concrete(false).set_token_1(Name::Data)
}

/// At the end of a line: done; at another tag, or an expression when those
/// are on: more; otherwise not this construct.
pub open spec fn spec_end(t: TokenizerView) -> (TokenizerView, State) {
    if t.at_eol_or_eof() {
        (reset(t), State::Okay)
    } else if t.current == Some(60u8) {
        (
            t.attempt(
                State::Next(StateName::MdxJsxFlowAfter),
                State::Next(StateName::MdxJsxFlowNok),
            ),
            State::Retry(StateName::MdxJsxStart),
        )
    } else if t.current == Some(123u8) && t.options.constructs.mdx_expression_flow {
        (
            t.attempt(
                State::Next(StateName::MdxJsxFlowAfter),
                State::Next(StateName::MdxJsxFlowNok),
            ),
            State::Retry(StateName::MdxExpressionFlowStart),
        )
    } else {
        (reset(t), State::Nok)
    }
}

fn reset_state(tokenizer: &mut Tokenizer)
    ensures
        final(tokenizer)@ == reset(old(tokenizer)@),
{
    tokenizer.set_concrete(false);
    tokenizer.set_token_1(Name::Data);
}

/// After an MDX JSX (flow) tag, after optional whitespace.
///
/// ```markdown
/// > | <A> <B>
///         ^
/// ```
pub fn end(tokenizer: &mut Tokenizer) -> (r: State)
    ensures
        (final(tokenizer)@, r) == spec_end(old(tokenizer)@),
{
    // Expressions are allowed directly after tags; the only construct that
    // can start at `{` here is MDX expression (flow).
    if matches!(tokenizer.current, None | Some(10)) {
        reset_state(tokenizer);
        State::Okay
    } else if tokenizer.current == Some(60) {
        tokenizer.attempt(
            State::Next(StateName::MdxJsxFlowAfter),
            State::Next(StateName::MdxJsxFlowNok),
        );
        State::Retry(StateName::MdxJsxStart)
    } else if tokenizer.current == Some(123)
        && tokenizer.parse_state.options.constructs.mdx_expression_flow {
        tokenizer.attempt(
            State::Next(StateName::MdxJsxFlowAfter),
            State::Next(StateName::MdxJsxFlowNok),
        );
        State::Retry(StateName::MdxExpressionFlowStart)
    } else {
        reset_state(tokenizer);
        State::Nok
    }
}

/// Not a tag: reset and fail.
pub open spec fn spec_nok(t: TokenizerView) -> (TokenizerView, State) {
    (reset(t), State::Nok)
}

/// At something that wasn’t an MDX JSX (flow) tag.
///
/// ```markdown
/// > | <A> x
///     ^
/// ```
pub fn nok(tokenizer: &mut Tokenizer) -> (r: State)
    ensures
        (final(tokenizer)@, r) == spec_nok(old(tokenizer)@),
{
    reset_state(tokenizer);
    State::Nok
}

} // verus!

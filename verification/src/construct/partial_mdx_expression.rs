//! MDX expression occurs in MDX expression (flow) and MDX expression (text).
//!
//! ```bnf
//! mdx_expression ::= '{' *(expression_text | expression) '}'
//! expression_text ::= char - '{' - '}'
//! ```
//!
//! The states here open the expression, and take the indent of its
//! continuation lines.

use vstd::prelude::*;
use crate::event::Name;
use crate::state::{Name as StateName, State};
use crate::tokenizer::{Tokenizer, TokenizerView};

verus! {

/// Start: open the expression (named by the construct that uses it) and
/// take the opening marker; remember where the expression starts.
pub open spec fn spec_start(t: TokenizerView) -> (TokenizerView, State) {
    let t1 = t.enter(t.ts.token_1).enter(Name::MdxExpressionMarker).consume().exit(
        Name::MdxExpressionMarker,
    );
    (
        t1.set_start((t1.events.len() - 1) as usize),
        State::Next(StateName::MdxExpressionBefore),
    )
}

/// Start of an MDX expression.
///
/// ```markdown
/// > | a {Math.PI} c
///       ^
/// ```
pub fn start(tokenizer: &mut Tokenizer) -> (r: State)
    ensures
        (final(tokenizer)@, r) == spec_start(old(tokenizer)@),
{
    let name = tokenizer.tokenize_state.token_1;
    tokenizer.enter(name);
    tokenizer.enter(Name::MdxExpressionMarker);
    tokenizer.consume();
    tokenizer.exit(Name::MdxExpressionMarker);
    let last = tokenizer.events.len() - 1;
    tokenizer.set_start(last);
    State::Next(StateName::MdxExpressionBefore)
}

/// In the indent of a continuation line: take up to two spaces or tabs,
/// then close the prefix.
pub open spec fn spec_prefix(t: TokenizerView) -> (TokenizerView, State) {
    if t.at_space_or_tab() && t.ts.size_c < 2 {
        (
            t.set_size_c((t.ts.size_c + 1) as usize).consume(),
            State::Next(StateName::MdxExpressionPrefix),
        )
    } else {
        (t.exit(Name::LinePrefix).set_size_c(0), State::Retry(StateName::MdxExpressionBefore))
    }
}

/// Before data, in a line prefix.
///
/// ```markdown
///   | a {b
/// > |   c}
///     ^
/// ```
pub fn prefix(tokenizer: &mut Tokenizer) -> (r: State)
    ensures
        (final(tokenizer)@, r) == spec_prefix(old(tokenizer)@),
{
    if matches!(tokenizer.current, Some(9 | 32)) && tokenizer.tokenize_state.size_c < 2 {
        let size = tokenizer.tokenize_state.size_c + 1;
        tokenizer.set_size_c(size);
        tokenizer.consume();
        return State::Next(StateName::MdxExpressionPrefix);
    }
    tokenizer.exit(Name::LinePrefix);
    tokenizer.set_size_c(0);
    State::Retry(StateName::MdxExpressionBefore)
}

/// What `inside` needs: counting an opening brace does not overflow.
pub open spec fn pre_inside(t: TokenizerView) -> bool {
    (t.current == Some(123u8) && !t.options.mdx_expression_parse) ==> t.ts.size < usize::MAX
}

/// In data: at the end of the line, the end, or the closing brace, close
/// the data; otherwise take the byte, counting braces when no parser is
/// configured (a parser decides where the expression ends).
pub open spec fn spec_inside(t: TokenizerView) -> (TokenizerView, State) {
    if t.at_eol_or_eof() || (t.current == Some(125u8) && t.ts.size == 0) {
        (t.exit(Name::MdxExpressionData), State::Retry(StateName::MdxExpressionBefore))
    } else {
        let t1 = if t.current == Some(123u8) && !t.options.mdx_expression_parse {
            t.set_size((t.ts.size + 1) as usize)
        } else if t.current == Some(125u8) {
            t.set_size((t.ts.size - 1) as usize)
        } else {
            t
        };
        (t1.consume(), State::Next(StateName::MdxExpressionInside))
    }
}

/// In data.
///
/// ```markdown
/// > | a {b} c
///        ^
/// ```
pub fn inside(tokenizer: &mut Tokenizer) -> (r: State)
    requires
        pre_inside(old(tokenizer)@),
    ensures
        (final(tokenizer)@, r) == spec_inside(old(tokenizer)@),
{
    if matches!(tokenizer.current, None | Some(10)) || (tokenizer.current == Some(125)
        && tokenizer.tokenize_state.size == 0) {
        tokenizer.exit(Name::MdxExpressionData);
        State::Retry(StateName::MdxExpressionBefore)
    } else {
        if tokenizer.current == Some(123) && !tokenizer.parse_state.options.mdx_expression_parse {
            let size = tokenizer.tokenize_state.size + 1;
            tokenizer.set_size(size);
        } else if tokenizer.current == Some(125) {
            let size = tokenizer.tokenize_state.size - 1;
            tokenizer.set_size(size);
        }
        tokenizer.consume();
        State::Next(StateName::MdxExpressionInside)
    }
}

/// Whether `inside` can run.
pub fn can_inside(tokenizer: &Tokenizer) -> (r: bool)
    ensures
        r == pre_inside(tokenizer@),
{
    !(tokenizer.current == Some(123) && !tokenizer.parse_state.options.mdx_expression_parse)
        || tokenizer.tokenize_state.size < usize::MAX
}

} // verus!

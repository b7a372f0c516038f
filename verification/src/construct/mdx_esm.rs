//! MDX ESM occurs in the flow content type.
//!
//! ```bnf
//! mdx_esm ::= word *line *(eol *line)
//!
//! word ::= 'e' 'x' 'p' 'o' 'r' 't' | 'i' 'm' 'p' 'o' 'r' 't'
//! ```
//!
//! This construct must be followed by a blank line or eof (end of file).
//! The states here take the keyword and the lines after it; the code itself
//! is handed to the parser that the user configures.

use vstd::prelude::*;
use crate::event::Name;
use crate::state::{Name as StateName, State};
use crate::tokenizer::{Tokenizer, TokenizerView};

verus! {

/// Start: when turned on, with a parser, not interrupting, at the start of
/// a line, and at `e` or `i`: open the construct and its data, and take the
/// first letter of the keyword.
pub open spec fn spec_start(t: TokenizerView) -> (TokenizerView, State) {
    if t.options.constructs.mdx_esm && t.options.mdx_esm_parse && !t.interrupt && t.point.column
        == 1 && (t.current == Some(101u8) || t.current == Some(105u8)) {
        (
            t.set_start(t.point.index).enter(Name::MdxEsm).enter(Name::MdxEsmData).consume(),
            State::Next(StateName::MdxEsmWord),
        )
    } else {
        (t, State::Nok)
    }
}

/// Start of MDX ESM.
///
/// ```markdown
/// > | import a from 'b'
///     ^
/// ```
pub fn start(tokenizer: &mut Tokenizer) -> (r: State)
    ensures
        (final(tokenizer)@, r) == spec_start(old(tokenizer)@),
{
    if tokenizer.parse_state.options.constructs.mdx_esm && tokenizer.parse_state.options.mdx_esm_parse
        && !tokenizer.interrupt && tokenizer.point.column == 1 && matches!(
        tokenizer.current,
        Some(101 | 105)
    ) {
        let index = tokenizer.point.index;
        tokenizer.set_start(index);
        tokenizer.enter(Name::MdxEsm);
        tokenizer.enter(Name::MdxEsmData);
        tokenizer.consume();
        State::Next(StateName::MdxEsmWord)
    } else {
        State::Nok
    }
}

/// Whether a byte is an ASCII lowercase letter.
pub open spec fn is_lower(b: u8) -> bool {
    97 <= b <= 122
}

/// The bytes of `export`.
pub open spec fn export_bytes() -> Seq<u8> {
    seq![101u8, 120u8, 112u8, 111u8, 114u8, 116u8]
}

/// The bytes of `import`.
pub open spec fn import_bytes() -> Seq<u8> {
    seq![105u8, 109u8, 112u8, 111u8, 114u8, 116u8]
}

/// The word from where the construct started up to here is a keyword.
#[verifier::opaque]
pub open spec fn at_keyword(t: TokenizerView) -> bool {
    let word = t.bytes.subrange(t.ts.start as int, t.point.index as int);
    word == export_bytes() || word == import_bytes()
}

/// What `word` needs when it ends: the word lies inside the document, and,
/// for a keyword followed by a space, there is an event to start from.
pub open spec fn pre_word(t: TokenizerView) -> bool {
    !(t.current matches Some(b) && is_lower(b)) ==> {
        &&& t.ts.start <= t.point.index <= t.bytes.len()
        &&& (at_keyword(t) && t.current == Some(32u8)) ==> t.events.len() > 0
    }
}

/// In the keyword: take letters; then `export` or `import` followed by a
/// space starts the code, anything else is not this construct.
pub open spec fn spec_word(t: TokenizerView) -> (TokenizerView, State) {
    if t.current matches Some(b) && is_lower(b) {
        (t.consume(), State::Next(StateName::MdxEsmWord))
    } else if at_keyword(t) && t.current == Some(32u8) {
        (
            t.set_concrete(true).set_start((t.events.len() - 1) as usize).consume(),
            State::Next(StateName::MdxEsmInside),
        )
    } else {
        (t.set_start(0), State::Nok)
    }
}

/// Whether `bytes[start..end]` is `export` or `import`.
fn is_keyword(bytes: &Vec<u8>, start: usize, end: usize) -> (r: bool)
    requires
        start <= end <= bytes.len(),
    ensures
        r == (bytes@.subrange(start as int, end as int) == export_bytes()
            || bytes@.subrange(start as int, end as int) == import_bytes()),
{
    let ghost word = bytes@.subrange(start as int, end as int);
    if end - start != 6 {
        assert(word.len() != export_bytes().len());
        return false;
    }
    let export = bytes[start] == 101 && bytes[start + 1] == 120 && bytes[start + 2] == 112
        && bytes[start + 3] == 111 && bytes[start + 4] == 114 && bytes[start + 5] == 116;
    let import = bytes[start] == 105 && bytes[start + 1] == 109 && bytes[start + 2] == 112
        && bytes[start + 3] == 111 && bytes[start + 4] == 114 && bytes[start + 5] == 116;
    proof {
        if export {
            assert(word =~= export_bytes());
        } else {
            assert(word[0] != export_bytes()[0] || word[1] != export_bytes()[1] || word[2]
                != export_bytes()[2] || word[3] != export_bytes()[3] || word[4]
                != export_bytes()[4] || word[5] != export_bytes()[5]);
        }
        if import {
            assert(word =~= import_bytes());
        } else {
            assert(word[0] != import_bytes()[0] || word[1] != import_bytes()[1] || word[2]
                != import_bytes()[2] || word[3] != import_bytes()[3] || word[4]
                != import_bytes()[4] || word[5] != import_bytes()[5]);
        }
    }
    export || import
}

/// After the keyword: the line cannot form containers; remember the last
/// event, and take the space.
fn start_code(tokenizer: &mut Tokenizer)
    requires
        old(tokenizer)@.events.len() > 0,
    ensures
        final(tokenizer)@ == old(tokenizer)@.set_concrete(true).set_start(
            (old(tokenizer)@.events.len() - 1) as usize,
        ).consume(),
{
    tokenizer.set_concrete(true);
    let last = tokenizer.events.len() - 1;
    tokenizer.set_start(last);
    tokenizer.consume();
}

fn at_lower(current: Option<u8>) -> (r: bool)
    ensures
        r == (current matches Some(b) && is_lower(b)),
{
    matches!(current, Some(97..=122))
}

/// In keyword.
///
/// ```markdown
/// > | import a from 'b'
///     ^^^^^^
/// ```
pub fn word(tokenizer: &mut Tokenizer) -> (r: State)
    requires
        pre_word(old(tokenizer)@),
    ensures
        (final(tokenizer)@, r) == spec_word(old(tokenizer)@),
{
    let ghost t = tokenizer@;
    if at_lower(tokenizer.current) {
        tokenizer.consume();
        return State::Next(StateName::MdxEsmWord);
    }
    let keyword = is_keyword(
        &tokenizer.parse_state.bytes,
        tokenizer.tokenize_state.start,
        tokenizer.point.index,
    );
    assert(keyword == at_keyword(t)) by {
        reveal(at_keyword);
    }
    if keyword && tokenizer.current == Some(32) {
        start_code(tokenizer);
        State::Next(StateName::MdxEsmInside)
    } else {
        tokenizer.set_start(0);
        State::Nok
    }
}

/// In data: at the end of the line, close the data; otherwise take it.
pub open spec fn spec_inside(t: TokenizerView) -> (TokenizerView, State) {
    if t.at_eol_or_eof() {
        (t.exit(Name::MdxEsmData), State::Retry(StateName::MdxEsmLineStart))
    } else {
        (t.consume(), State::Next(StateName::MdxEsmInside))
    }
}

/// In data.
///
/// ```markdown
/// > | import a from 'b'
///           ^
/// ```
pub fn inside(tokenizer: &mut Tokenizer) -> (r: State)
    ensures
        (final(tokenizer)@, r) == spec_inside(old(tokenizer)@),
{
    if matches!(tokenizer.current, None | Some(10)) {
        tokenizer.exit(Name::MdxEsmData);
        State::Retry(StateName::MdxEsmLineStart)
    } else {
        tokenizer.consume();
        State::Next(StateName::MdxEsmInside)
    }
}

/// At the start of a line: the end, a line ending (the code ends at a blank
/// line), or more data.
pub open spec fn spec_line_start(t: TokenizerView) -> (TokenizerView, State) {
    match t.current {
        None => (t, State::Retry(StateName::MdxEsmAtEnd)),
        Some(b) => if b == 10 {
            (
                t.check(
                    State::Next(StateName::MdxEsmAtEnd),
                    State::Next(StateName::MdxEsmContinuationStart),
                ),
                State::Retry(StateName::MdxEsmBlankLineBefore),
            )
        } else {
            (
                t.enter(Name::MdxEsmData).consume(),
                State::Next(StateName::MdxEsmInside),
            )
        },
    }
}

/// At start of line.
///
/// ```markdown
///   | import a from 'b'
/// > | export {a}
///     ^
/// ```
pub fn line_start(tokenizer: &mut Tokenizer) -> (r: State)
    ensures
        (final(tokenizer)@, r) == spec_line_start(old(tokenizer)@),
{
    match tokenizer.current {
        None => State::Retry(StateName::MdxEsmAtEnd),
        Some(10) => {
            tokenizer.check(
                State::Next(StateName::MdxEsmAtEnd),
                State::Next(StateName::MdxEsmContinuationStart),
            );
            State::Retry(StateName::MdxEsmBlankLineBefore)
        },
        _ => {
            tokenizer.enter(Name::MdxEsmData);
            tokenizer.consume();
            State::Next(StateName::MdxEsmInside)
        },
    }
}

/// At a line ending that continues the code: take it.
pub open spec fn spec_continuation_start(t: TokenizerView) -> (TokenizerView, State) {
    (
        t.enter(Name::LineEnding).consume().exit(Name::LineEnding),
        State::Next(StateName::MdxEsmLineStart),
    )
}

/// At start of line that continues.
///
/// ```markdown
///   | import a from 'b'
/// > | export {a}
///     ^
/// ```
pub fn continuation_start(tokenizer: &mut Tokenizer) -> (r: State)
    ensures
        (final(tokenizer)@, r) == spec_continuation_start(old(tokenizer)@),
{
    tokenizer.enter(Name::LineEnding);
    tokenizer.consume();
    tokenizer.exit(Name::LineEnding);
    State::Next(StateName::MdxEsmLineStart)
}

/// At a line ending before a line that may be blank: take it, then check
/// for a blank line.
pub open spec fn spec_blank_line_before(t: TokenizerView) -> (TokenizerView, State) {
    (
        t.enter(Name::LineEnding).consume().exit(Name::LineEnding),
        State::Next(StateName::BlankLineStart),
    )
}

/// At start of a potentially blank line.
///
/// ```markdown
///   | import a from 'b'
/// > | export {a}
///     ^
/// ```
pub fn blank_line_before(tokenizer: &mut Tokenizer) -> (r: State)
    ensures
        (final(tokenizer)@, r) == spec_blank_line_before(old(tokenizer)@),
{
    tokenizer.enter(Name::LineEnding);
    tokenizer.consume();
    tokenizer.exit(Name::LineEnding);
    State::Next(StateName::BlankLineStart)
}

/// Whether `word` can run.
pub fn can_word(tokenizer: &Tokenizer) -> (r: bool)
    ensures
        r == pre_word(tokenizer@),
{
    if at_lower(tokenizer.current) {
        return true;
    }
    let start = tokenizer.tokenize_state.start;
    let index = tokenizer.point.index;
    if !(start <= index && index <= tokenizer.parse_state.bytes.len()) {
        return false;
    }
    let keyword = is_keyword(&tokenizer.parse_state.bytes, start, index);
    proof {
        reveal(at_keyword);
    }
    !(keyword && tokenizer.current == Some(32)) || tokenizer.events.len() > 0
}

} // verus!

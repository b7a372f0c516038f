//! Paragraph occurs in the content content type.
//!
//! ```bnf
//! ; Restriction: lines cannot start other flow constructs.
//! ; Restriction: lines cannot be blank.
//! paragraph ::= 1*line *(eol 1*line)
//! ```

use vstd::prelude::*;
use crate::event::{Content, Link, Name};
use crate::state::{Name as StateName, State};
use crate::tokenizer::{Tokenizer, TokenizerView, TokenizeStateView};

verus! {

/// Start: enter the paragraph.
pub open spec fn spec_start(t: TokenizerView) -> (TokenizerView, State) {
    (t.enter(Name::Paragraph), State::Retry(StateName::ParagraphLineStart))
}

/// Paragraph start.
///
/// ```markdown
/// > | abc
///     ^
///   | def
/// ```
pub fn start(tokenizer: &mut Tokenizer) -> (r: State)
    ensures
        (final(tokenizer)@, r) == spec_start(old(tokenizer)@),
{
    tokenizer.enter(Name::Paragraph);
    State::Retry(StateName::ParagraphLineStart)
}

/// The link that a line of a paragraph carries: to text.
pub open spec fn text_link() -> Link {
    Link { previous: None, next: None, content: Content::Text }
}

/// What `line_start` needs: when it connects, the event two before the new
/// one carries a link.
pub open spec fn pre_line_start(t: TokenizerView) -> bool {
    t.ts.connect ==> (t.events.len() >= 2 && t.events[t.events.len() - 2].link is Some)
}

/// Start of a line: enter linked data.
pub open spec fn spec_line_start(t: TokenizerView) -> (TokenizerView, State) {
    let t1 = t.enter_link(Name::Data, text_link());
    let t2 = if t.ts.connect {
        t1.link_last()
    } else {
        t1.with_ts(TokenizeStateView { connect: true, ..t1.ts })
    };
    (t2, State::Retry(StateName::ParagraphInside))
}

/// Start of a line in a paragraph.
///
/// ```markdown
/// > | abc
///     ^
/// > | def
///     ^
/// ```
pub fn line_start(tokenizer: &mut Tokenizer) -> (r: State)
    requires
        pre_line_start(old(tokenizer)@),
    ensures
        (final(tokenizer)@, r) == spec_line_start(old(tokenizer)@),
{
    let ghost t = tokenizer@;
    tokenizer.enter_link(Name::Data, Link { previous: None, next: None, content: Content::Text });
    if tokenizer.tokenize_state.connect {
        assert(tokenizer@.events[tokenizer@.events.len() - 3] == t.events[t.events.len() - 2]);
        tokenizer.link_last();
    } else {
        tokenizer.tokenize_state.connect = true;
    }
    State::Retry(StateName::ParagraphInside)
}

/// In a paragraph: take bytes; a line ending ends the line, the end ends
/// the paragraph.
pub open spec fn spec_inside(t: TokenizerView) -> (TokenizerView, State) {
    match t.current {
        None => (
            t.with_ts(TokenizeStateView { connect: false, ..t.ts }).exit(Name::Data).exit(
                Name::Paragraph,
            ),
            State::Okay,
        ),
        Some(b) => if b == 10 {
            (t.consume().exit(Name::Data), State::Next(StateName::ParagraphLineStart))
        } else {
            (t.consume(), State::Next(StateName::ParagraphInside))
        },
    }
}

/// In paragraph.
///
/// ```markdown
/// > | abc
///     ^^^
/// ```
pub fn inside(tokenizer: &mut Tokenizer) -> (r: State)
    ensures
        (final(tokenizer)@, r) == spec_inside(old(tokenizer)@),
{
    match tokenizer.current {
        None => {
            tokenizer.tokenize_state.connect = false;
            tokenizer.exit(Name::Data);
            tokenizer.exit(Name::Paragraph);
            State::Okay
        },
        Some(10) => {
            tokenizer.consume();
            tokenizer.exit(Name::Data);
            State::Next(StateName::ParagraphLineStart)
        },
        _ => {
            tokenizer.consume();
            State::Next(StateName::ParagraphInside)
        },
    }
}

/// Whether `line_start` can run.
pub fn can_line_start(tokenizer: &Tokenizer) -> (r: bool)
    ensures
        r == pre_line_start(tokenizer@),
{
    !tokenizer.tokenize_state.connect || tokenizer.can_link_back()
}

} // verus!

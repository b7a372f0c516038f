//! Label occurs in definitions, full references, and GFM footnotes.
//!
//! ```bnf
//! label ::= '[' 0*999(label_byte | label_escape) ']'
//! label_byte ::= code - '[' - '\\' - ']'
//! label_escape ::= '\\' ['[' | '\\' | ']']
//! ```
//!
//! The names of the events are set by the construct that uses a label:
//! `token_1` for the whole, `token_2` for the markers, `token_3` for the
//! string.

use vstd::prelude::*;
use crate::construct::partial_space_or_tab_eol::{
    space_or_tab_eol_with_options, spec_with_eol_options, Options as EolOptions,
};
use crate::event::{Content, Link, Name};
use crate::state::{Name as StateName, State};
use crate::tokenizer::{Tokenizer, TokenizerView};
use crate::util::constant::LINK_REFERENCE_SIZE_MAX;

verus! {

/// Start: `[`.
pub open spec fn spec_start(t: TokenizerView) -> (TokenizerView, State) {
    if t.current == Some(91u8) {
        (
            t.enter(t.ts.token_1).enter(t.ts.token_2).consume().exit(t.ts.token_2).enter(
                t.ts.token_3,
            ),
            State::Next(StateName::LabelAtBreak),
        )
    } else {
        (t, State::Nok)
    }
}

/// Start of label.
///
/// ```markdown
/// > | [a]
///     ^
/// ```
pub fn start(tokenizer: &mut Tokenizer) -> (r: State)
    ensures
        (final(tokenizer)@, r) == spec_start(old(tokenizer)@),
{
    match tokenizer.current {
        Some(91) => {
            let (token_1, token_2, token_3) = (
                tokenizer.tokenize_state.token_1,
                tokenizer.tokenize_state.token_2,
                tokenizer.tokenize_state.token_3,
            );
            tokenizer.enter(token_1);
            tokenizer.enter(token_2);
            tokenizer.consume();
            tokenizer.exit(token_2);
            tokenizer.enter(token_3);
            State::Next(StateName::LabelAtBreak)
        },
        _ => State::Nok,
    }
}

/// Whether the label fails here: too long, the end, `[`, or `]` before
/// anything but whitespace was seen.
pub open spec fn fails(t: TokenizerView) -> bool {
    t.ts.size > LINK_REFERENCE_SIZE_MAX || t.current is None || t.current == Some(91u8) || (
    t.current == Some(93u8) && !t.ts.seen)
}

/// What `at_break` needs: when it connects data, the event two before the
/// new one carries a link.
pub open spec fn pre_at_break(t: TokenizerView) -> bool {
    (!fails(t) && t.current != Some(10u8) && t.current != Some(93u8) && t.ts.connect) ==> (
    t.events.len() >= 2 && t.events[t.events.len() - 2].link is Some)
}

/// The link that the data of a label carries: to string.
pub open spec fn string_link() -> Link {
    Link { previous: None, next: None, content: Content::String }
}

/// In a label, at something: fail, an eol, the end (`]`), or data.
pub open spec fn spec_at_break(t: TokenizerView) -> (TokenizerView, State) {
    if fails(t) {
        (t.set_connect(false).set_seen(false).set_size(0), State::Nok)
    } else if t.current == Some(10u8) {
        let t1 = t.attempt(
            State::Next(StateName::LabelEolAfter),
            State::Next(StateName::LabelAtBlankLine),
        );
        (
            spec_with_eol_options(
                t1,
                EolOptions { content: Some(Content::String), connect: t.ts.connect },
            ),
            State::Retry(StateName::SpaceOrTabEolStart),
        )
    } else if t.current == Some(93u8) {
        (
            t.exit(t.ts.token_3).enter(t.ts.token_2).consume().exit(t.ts.token_2).exit(
                t.ts.token_1,
            ).set_connect(false).set_seen(false).set_size(0),
            State::Okay,
        )
    } else {
        let t1 = t.enter_link(Name::Data, string_link());
        let t2 = if t.ts.connect {
            t1.link_last()
        } else {
            t1.set_connect(true)
        };
        (t2, State::Retry(StateName::LabelInside))
    }
}

/// In label, at something, before something else.
///
/// ```markdown
/// > | [a]
///      ^
/// ```
pub fn at_break(tokenizer: &mut Tokenizer) -> (r: State)
    requires
        pre_at_break(old(tokenizer)@),
    ensures
        (final(tokenizer)@, r) == spec_at_break(old(tokenizer)@),
{
    let ghost t = tokenizer@;
    if at_fail(tokenizer) {
        tokenizer.set_connect(false);
        tokenizer.set_seen(false);
        tokenizer.set_size(0);
        State::Nok
    } else if tokenizer.current == Some(10) {
        tokenizer.attempt(
            State::Next(StateName::LabelEolAfter),
            State::Next(StateName::LabelAtBlankLine),
        );
        let connect = tokenizer.tokenize_state.connect;
        State::Retry(
            space_or_tab_eol_with_options(
                tokenizer,
                EolOptions { content: Some(Content::String), connect },
            ),
        )
    } else if tokenizer.current == Some(93) {
        close(tokenizer)
    } else {
        tokenizer.enter_link(Name::Data, Link { previous: None, next: None, content: Content::String });
        if tokenizer.tokenize_state.connect {
            assert(tokenizer@.events[tokenizer@.events.len() - 3] == t.events[t.events.len() - 2]);
            tokenizer.link_last();
        } else {
            tokenizer.set_connect(true);
        }
        State::Retry(StateName::LabelInside)
    }
}

/// Whether the label fails here.
fn at_fail(tokenizer: &Tokenizer) -> (r: bool)
    ensures
        r == fails(tokenizer@),
{
    tokenizer.tokenize_state.size > LINK_REFERENCE_SIZE_MAX || tokenizer.current.is_none()
        || tokenizer.current == Some(91) || (tokenizer.current == Some(93)
        && !tokenizer.tokenize_state.seen)
}

/// At `]`: close the label.
fn close(tokenizer: &mut Tokenizer) -> (r: State)
    requires
        !fails(old(tokenizer)@),
        old(tokenizer)@.current == Some(93u8),
    ensures
        (final(tokenizer)@, r) == spec_at_break(old(tokenizer)@),
{
        let (token_1, token_2, token_3) = (
            tokenizer.tokenize_state.token_1,
            tokenizer.tokenize_state.token_2,
            tokenizer.tokenize_state.token_3,
        );
        tokenizer.exit(token_3);
        tokenizer.enter(token_2);
        tokenizer.consume();
        tokenizer.exit(token_2);
        tokenizer.exit(token_1);
        tokenizer.set_connect(false);
        tokenizer.set_seen(false);
        tokenizer.set_size(0);
        State::Okay
}

/// After eol: connect what follows.
pub open spec fn spec_eol_after(t: TokenizerView) -> (TokenizerView, State) {
    (t.set_connect(true), State::Retry(StateName::LabelAtBreak))
}

/// In label, after whitespace.
///
/// ```markdown
///   | [a␊
/// > | b]
///     ^
/// ```
pub fn eol_after(tokenizer: &mut Tokenizer) -> (r: State)
    ensures
        (final(tokenizer)@, r) == spec_eol_after(old(tokenizer)@),
{
    tokenizer.set_connect(true);
    State::Retry(StateName::LabelAtBreak)
}

/// At a blank line: fail.
pub open spec fn spec_at_blank_line(t: TokenizerView) -> (TokenizerView, State) {
    (t.set_marker(0).set_connect(false), State::Nok)
}

/// In label, at blank line.
///
/// ```markdown
///   | [a␊
/// > | ␊
///     ^
///   | b]
/// ```
pub fn at_blank_line(tokenizer: &mut Tokenizer) -> (r: State)
    ensures
        (final(tokenizer)@, r) == spec_at_blank_line(old(tokenizer)@),
{
    tokenizer.set_marker(0);
    tokenizer.set_connect(false);
    State::Nok
}

/// In label text: take bytes up to an eol, `[`, `]`, or the end.
pub open spec fn spec_inside(t: TokenizerView) -> (TokenizerView, State) {
    match t.current {
        None => (t.exit(Name::Data), State::Retry(StateName::LabelAtBreak)),
        Some(b) => if b == 10 || b == 91 || b == 93 || t.ts.size > LINK_REFERENCE_SIZE_MAX {
            (t.exit(Name::Data), State::Retry(StateName::LabelAtBreak))
        } else {
            let t1 = t.consume().set_size((t.ts.size + 1) as usize);
            let t2 = if !t.ts.seen && b != 9 && b != 32 {
                t1.set_seen(true)
            } else {
                t1
            };
            (
                t2,
                State::Next(
                    if b == 92 {
                        StateName::LabelEscape
                    } else {
                        StateName::LabelInside
                    },
                ),
            )
        },
    }
}

/// In label, in text.
///
/// ```markdown
/// > | [a]
///      ^
/// ```
pub fn inside(tokenizer: &mut Tokenizer) -> (r: State)
    ensures
        (final(tokenizer)@, r) == spec_inside(old(tokenizer)@),
{
    match tokenizer.current {
        None | Some(10 | 91 | 93) => {
            tokenizer.exit(Name::Data);
            State::Retry(StateName::LabelAtBreak)
        },
        Some(byte) => {
            if tokenizer.tokenize_state.size > LINK_REFERENCE_SIZE_MAX {
                tokenizer.exit(Name::Data);
                State::Retry(StateName::LabelAtBreak)
            } else {
                let size = tokenizer.tokenize_state.size;
                tokenizer.consume();
                tokenizer.set_size(size + 1);
                if !tokenizer.tokenize_state.seen && byte != 9 && byte != 32 {
                    tokenizer.set_seen(true);
                }
                State::Next(
                    if byte == 92 {
                        StateName::LabelEscape
                    } else {
                        StateName::LabelInside
                    },
                )
            }
        },
    }
}

/// What `escape` needs: the count does not overflow.
pub open spec fn pre_escape(t: TokenizerView) -> bool {
    t.ts.size < usize::MAX
}

/// After `\`: take an escaped `[`, `\`, or `]`.
pub open spec fn spec_escape(t: TokenizerView) -> (TokenizerView, State) {
    if t.current == Some(91u8) || t.current == Some(92u8) || t.current == Some(93u8) {
        (t.consume().set_size((t.ts.size + 1) as usize), State::Next(StateName::LabelInside))
    } else {
        (t, State::Retry(StateName::LabelInside))
    }
}

/// After `\`, at a special character.
///
/// ```markdown
/// > | [a\*a]
///        ^
/// ```
pub fn escape(tokenizer: &mut Tokenizer) -> (r: State)
    requires
        pre_escape(old(tokenizer)@),
    ensures
        (final(tokenizer)@, r) == spec_escape(old(tokenizer)@),
{
    match tokenizer.current {
        Some(91 | 92 | 93) => {
            let size = tokenizer.tokenize_state.size;
            tokenizer.consume();
            tokenizer.set_size(size + 1);
            State::Next(StateName::LabelInside)
        },
        _ => State::Retry(StateName::LabelInside),
    }
}

/// Whether `at_break` can run.
pub fn can_at_break(tokenizer: &Tokenizer) -> (r: bool)
    ensures
        r == pre_at_break(tokenizer@),
{
    !(!at_fail(tokenizer) && tokenizer.current != Some(10) && tokenizer.current != Some(93)
        && tokenizer.tokenize_state.connect) || tokenizer.can_link_back()
}

/// Whether `escape` can run.
pub fn can_escape(tokenizer: &Tokenizer) -> (r: bool)
    ensures
        r == pre_escape(tokenizer@),
{
    tokenizer.tokenize_state.size < usize::MAX
}

} // verus!

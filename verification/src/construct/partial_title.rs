//! Title occurs in definitions and resources.
//!
//! ```bnf
//! ; Restriction: no blank lines.
//! ; Restriction: markers must match (in case of `(` with `)`).
//! title ::= marker *(title_byte | title_escape) marker
//! title_byte ::= code - '\\' - marker
//! title_escape ::= '\\' ['\\' | marker]
//! marker ::= '"' | '\'' | '('
//! ```
//!
//! The names of the events are set by the construct that uses a title:
//! `token_1` for the whole, `token_2` for the markers, `token_3` for the
//! string.

use vstd::prelude::*;
use crate::construct::partial_space_or_tab_eol::{
    space_or_tab_eol_with_options, spec_with_eol_options, Options,
};
use crate::event::{Content, Link, Name};
use crate::state::{Name as StateName, State};
use crate::tokenizer::{Tokenizer, TokenizerView};

verus! {

/// The link that the data of a title carries: to string.
pub open spec fn string_link() -> Link {
    Link { previous: None, next: None, content: Content::String }
}

/// Start: `"`, `'`, or `(` (closed by `)`).
pub open spec fn spec_start(t: TokenizerView) -> (TokenizerView, State) {
    if t.current == Some(34u8) || t.current == Some(39u8) || t.current == Some(40u8) {
        let b = t.current.unwrap();
        let marker: u8 = if b == 40 {
            41
        } else {
            b
        };
        let t1 = t.set_marker(marker);
        (
            t1.enter(t.ts.token_1).enter(t.ts.token_2).consume().exit(t.ts.token_2),
            State::Next(StateName::TitleBegin),
        )
    } else {
        (t, State::Nok)
    }
}

/// Start of title.
///
/// ```markdown
/// > | "a"
///     ^
/// ```
pub fn start(tokenizer: &mut Tokenizer) -> (r: State)
    ensures
        (final(tokenizer)@, r) == spec_start(old(tokenizer)@),
{
    match tokenizer.current {
        Some(34 | 39 | 40) => {
            let b = tokenizer.current.unwrap();
            let marker: u8 = if b == 40 {
                41
            } else {
                b
            };
            tokenizer.set_marker(marker);
            let (token_1, token_2) = (tokenizer.tokenize_state.token_1, tokenizer.tokenize_state.token_2);
            tokenizer.enter(token_1);
            tokenizer.enter(token_2);
            tokenizer.consume();
            tokenizer.exit(token_2);
            State::Next(StateName::TitleBegin)
        },
        _ => State::Nok,
    }
}

/// After the opening marker, or after the string: the closing marker, or
/// the string.
pub open spec fn spec_begin(t: TokenizerView) -> (TokenizerView, State) {
    if t.current == Some(t.ts.marker) {
        (
            t.enter(t.ts.token_2).consume().exit(t.ts.token_2).exit(t.ts.token_1).set_marker(
                0,
            ).set_connect(false),
            State::Okay,
        )
    } else {
        (t.enter(t.ts.token_3), State::Retry(StateName::TitleAtBreak))
    }
}

/// After opening marker.
///
/// This is also used at the closing marker.
///
/// ```markdown
/// > | "a"
///      ^
/// ```
pub fn begin(tokenizer: &mut Tokenizer) -> (r: State)
    ensures
        (final(tokenizer)@, r) == spec_begin(old(tokenizer)@),
{
    if tokenizer.current == Some(tokenizer.tokenize_state.marker) {
        let (token_1, token_2) = (tokenizer.tokenize_state.token_1, tokenizer.tokenize_state.token_2);
        tokenizer.enter(token_2);
        tokenizer.consume();
        tokenizer.exit(token_2);
        tokenizer.exit(token_1);
        tokenizer.set_marker(0);
        tokenizer.set_connect(false);
        State::Okay
    } else {
        let token_3 = tokenizer.tokenize_state.token_3;
        tokenizer.enter(token_3);
        State::Retry(StateName::TitleAtBreak)
    }
}

/// What `at_break` needs: when it connects data, the event two before the
/// new one carries a link.
pub open spec fn pre_at_break(t: TokenizerView) -> bool {
    (t.current is Some && t.current != Some(t.ts.marker) && t.current != Some(10u8)
        && t.ts.connect) ==> (t.events.len() >= 2 && t.events[t.events.len() - 2].link is Some)
}

/// At something: the closing marker, an eol, data, or (at the end) fail.
pub open spec fn spec_at_break(t: TokenizerView) -> (TokenizerView, State) {
    match t.current {
        None => (t, State::Retry(StateName::TitleNok)),
        Some(b) => if b == t.ts.marker {
            (t.exit(t.ts.token_3), State::Retry(StateName::TitleBegin))
        } else if b == 10 {
            let t1 = t.attempt(
                State::Next(StateName::TitleAfterEol),
                State::Next(StateName::TitleNok),
            );
            (
                spec_with_eol_options(
                    t1,
                    Options { content: Some(Content::String), connect: t.ts.connect },
                ),
                State::Retry(StateName::SpaceOrTabEolStart),
            )
        } else {
            let t1 = t.enter_link(Name::Data, string_link());
            let t2 = if t.ts.connect {
                t1.link_last()
            } else {
                t1.set_connect(true)
            };
            (t2, State::Retry(StateName::TitleInside))
        },
    }
}

/// At something, before something else.
///
/// ```markdown
/// > | "a"
///      ^
/// ```
pub fn at_break(tokenizer: &mut Tokenizer) -> (r: State)
    requires
        pre_at_break(old(tokenizer)@),
    ensures
        (final(tokenizer)@, r) == spec_at_break(old(tokenizer)@),
{
    let ghost t = tokenizer@;
    if let Some(byte) = tokenizer.current {
        if byte == tokenizer.tokenize_state.marker {
            let token_3 = tokenizer.tokenize_state.token_3;
            tokenizer.exit(token_3);
            State::Retry(StateName::TitleBegin)
        } else if byte == 10 {
            tokenizer.attempt(State::Next(StateName::TitleAfterEol), State::Next(StateName::TitleNok));
            let connect = tokenizer.tokenize_state.connect;
            State::Retry(
                space_or_tab_eol_with_options(
                    tokenizer,
                    Options { content: Some(Content::String), connect },
                ),
            )
        } else {
            tokenizer.enter_link(
                Name::Data,
                Link { previous: None, next: None, content: Content::String },
            );
            if tokenizer.tokenize_state.connect {
                assert(tokenizer@.events[tokenizer@.events.len() - 3] == t.events[t.events.len()
                    - 2]);
                tokenizer.link_last();
            } else {
                tokenizer.set_connect(true);
            }
            State::Retry(StateName::TitleInside)
        }
    } else {
        State::Retry(StateName::TitleNok)
    }
}

/// After eol: connect what follows.
pub open spec fn spec_after_eol(t: TokenizerView) -> (TokenizerView, State) {
    (t.set_connect(true), State::Retry(StateName::TitleAtBreak))
}

/// In title, after whitespace.
///
/// ```markdown
///   | "a␊
/// > | b"
///     ^
/// ```
pub fn after_eol(tokenizer: &mut Tokenizer) -> (r: State)
    ensures
        (final(tokenizer)@, r) == spec_after_eol(old(tokenizer)@),
{
    tokenizer.set_connect(true);
    State::Retry(StateName::TitleAtBreak)
}

/// Fail, resetting the marker.
pub open spec fn spec_nok(t: TokenizerView) -> (TokenizerView, State) {
    (t.set_marker(0).set_connect(false), State::Nok)
}

/// In title, at something that isn’t allowed.
///
/// ```markdown
/// > | "a
///       ^
/// ```
pub fn nok(tokenizer: &mut Tokenizer) -> (r: State)
    ensures
        (final(tokenizer)@, r) == spec_nok(old(tokenizer)@),
{
    tokenizer.set_marker(0);
    tokenizer.set_connect(false);
    State::Nok
}

/// In text: up to the marker, an eol, or the end.
pub open spec fn spec_inside(t: TokenizerView) -> (TokenizerView, State) {
    if t.current == Some(t.ts.marker) || t.at_eol_or_eof() {
        (t.exit(Name::Data), State::Retry(StateName::TitleAtBreak))
    } else {
        (
            t.consume(),
            State::Next(
                if t.current == Some(92u8) {
                    StateName::TitleEscape
                } else {
                    StateName::TitleInside
                },
            ),
        )
    }
}

/// In text.
///
/// ```markdown
/// > | "a"
///      ^
/// ```
pub fn inside(tokenizer: &mut Tokenizer) -> (r: State)
    ensures
        (final(tokenizer)@, r) == spec_inside(old(tokenizer)@),
{
    if tokenizer.current == Some(tokenizer.tokenize_state.marker) || matches!(
        tokenizer.current,
        None | Some(10)
    ) {
        tokenizer.exit(Name::Data);
        State::Retry(StateName::TitleAtBreak)
    } else {
        let name = if tokenizer.current == Some(92) {
            StateName::TitleEscape
        } else {
            StateName::TitleInside
        };
        tokenizer.consume();
        State::Next(name)
    }
}

/// After `\`: take an escaped `"`, `'`, `)`, or `\`.
pub open spec fn spec_escape(t: TokenizerView) -> (TokenizerView, State) {
    if t.current == Some(34u8) || t.current == Some(39u8) || t.current == Some(41u8)
        || t.current == Some(92u8) {
        (t.consume(), State::Next(StateName::TitleInside))
    } else {
        (t, State::Retry(StateName::TitleInside))
    }
}

/// After `\`, at a special character.
///
/// ```markdown
/// > | "a\*b"
///       ^
/// ```
pub fn escape(tokenizer: &mut Tokenizer) -> (r: State)
    ensures
        (final(tokenizer)@, r) == spec_escape(old(tokenizer)@),
{
    match tokenizer.current {
        Some(34 | 39 | 41 | 92) => {
            tokenizer.consume();
            State::Next(StateName::TitleInside)
        },
        _ => State::Retry(StateName::TitleInside),
    }
}

/// Whether `at_break` can run.
pub fn can_at_break(tokenizer: &Tokenizer) -> (r: bool)
    ensures
        r == pre_at_break(tokenizer@),
{
    !(tokenizer.current.is_some() && tokenizer.current != Some(tokenizer.tokenize_state.marker)
        && tokenizer.current != Some(10) && tokenizer.tokenize_state.connect)
        || tokenizer.can_link_back()
}


/// A title is closed by the marker that matches its opening one: `"` by
/// `"`, `'` by `'`, and `(` by `)`. After the start on an opening marker,
/// the matching closing marker ends the title, and for `(` another `(`
/// does not.
pub proof fn lemma_title_closed_by_matching_marker(t: TokenizerView, t2: TokenizerView)
    requires
        t.current == Some(34u8) || t.current == Some(39u8) || t.current == Some(40u8),
        t2.ts == spec_start(t).0.ts,
    ensures
        spec_start(t).1 == State::Next(StateName::TitleBegin),
        t2.current == Some(
            if t.current == Some(40u8) {
                41u8
            } else {
                t.current.unwrap()
            },
        ) ==> spec_begin(t2).1 == State::Okay,
        t.current == Some(40u8) && t2.current == Some(40u8) ==> spec_begin(t2).1 != State::Okay,
{
}

} // verus!

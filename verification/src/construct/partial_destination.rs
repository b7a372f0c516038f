//! Destination occurs in definitions and resources.
//!
//! ```bnf
//! destination ::= destination_enclosed | destination_raw
//!
//! destination_enclosed ::= '<' *(destination_enclosed_byte | destination_enclosed_escape) '>'
//! destination_enclosed_byte ::= line - '<' - '\\' - '>'
//! destination_enclosed_escape ::= '\\' ['<' | '\\' | '>']
//!
//! destination_raw ::= 1*(destination_raw_byte | destination_raw_escape)
//! ; Restriction: unbalanced `)` characters are not allowed.
//! destination_raw_byte ::= text - '\\' - ascii_control
//! destination_raw_escape ::= '\\' ['(' | ')' | '\\']
//! ```
//!
//! The names of the events are set by the construct that uses a destination:
//! `token_1` for the whole, `token_2` for the enclosed form, `token_3` for
//! its markers, `token_4` for the raw form, and `token_5` for the string.

use vstd::prelude::*;
use crate::event::{Content, Link, Name};
use crate::state::{Name as StateName, State};
use crate::tokenizer::{Tokenizer, TokenizerView};

verus! {

/// The link that the data of a destination carries: to string.
pub open spec fn string_link() -> Link {
    Link { previous: None, next: None, content: Content::String }
}

/// ASCII control (but not `\0`), space, or closing paren.
pub open spec fn stops_raw_start(b: u8) -> bool {
    (1 <= b <= 31) || b == 32 || b == 41 || b == 127
}

/// Start: enclosed (`<`) or raw.
pub open spec fn spec_start(t: TokenizerView) -> (TokenizerView, State) {
    match t.current {
        None => (t, State::Nok),
        Some(b) => if b == 60 {
            (
                t.enter(t.ts.token_1).enter(t.ts.token_2).enter(t.ts.token_3).consume().exit(
                    t.ts.token_3,
                ),
                State::Next(StateName::DestinationEnclosedBefore),
            )
        } else if stops_raw_start(b) {
            (t, State::Nok)
        } else {
            (
                t.enter(t.ts.token_1).enter(t.ts.token_4).enter(t.ts.token_5).enter_link(
                    Name::Data,
                    string_link(),
                ),
                State::Retry(StateName::DestinationRaw),
            )
        },
    }
}

/// Start of destination.
///
/// ```markdown
/// > | <aa>
///     ^
/// > | aa
///     ^
/// ```
pub fn start(tokenizer: &mut Tokenizer) -> (r: State)
    ensures
        (final(tokenizer)@, r) == spec_start(old(tokenizer)@),
{
    match tokenizer.current {
        Some(60) => {
            let (token_1, token_2, token_3) = (
                tokenizer.tokenize_state.token_1,
                tokenizer.tokenize_state.token_2,
                tokenizer.tokenize_state.token_3,
            );
            tokenizer.enter(token_1);
            tokenizer.enter(token_2);
            tokenizer.enter(token_3);
            tokenizer.consume();
            tokenizer.exit(token_3);
            State::Next(StateName::DestinationEnclosedBefore)
        },
        // ASCII control, space, closing paren, but *not* `\0`.
        None | Some(1..=31 | 32 | 41 | 127) => State::Nok,
        Some(_) => {
            let (token_1, token_4, token_5) = (
                tokenizer.tokenize_state.token_1,
                tokenizer.tokenize_state.token_4,
                tokenizer.tokenize_state.token_5,
            );
            tokenizer.enter(token_1);
            tokenizer.enter(token_4);
            tokenizer.enter(token_5);
            tokenizer.enter_link(
                Name::Data,
                Link { previous: None, next: None, content: Content::String },
            );
            State::Retry(StateName::DestinationRaw)
        },
    }
}

/// After `<`: the end (`>`), or the string.
pub open spec fn spec_enclosed_before(t: TokenizerView) -> (TokenizerView, State) {
    if t.current == Some(62u8) {
        (
            t.enter(t.ts.token_3).consume().exit(t.ts.token_3).exit(t.ts.token_2).exit(
                t.ts.token_1,
            ),
            State::Okay,
        )
    } else {
        (
            t.enter(t.ts.token_5).enter_link(Name::Data, string_link()),
            State::Retry(StateName::DestinationEnclosed),
        )
    }
}

/// After `<`, at an enclosed destination.
///
/// ```markdown
/// > | <aa>
///      ^
/// ```
pub fn enclosed_before(tokenizer: &mut Tokenizer) -> (r: State)
    ensures
        (final(tokenizer)@, r) == spec_enclosed_before(old(tokenizer)@),
{
    if let Some(62) = tokenizer.current {
        let (token_1, token_2, token_3) = (
            tokenizer.tokenize_state.token_1,
            tokenizer.tokenize_state.token_2,
            tokenizer.tokenize_state.token_3,
        );
        tokenizer.enter(token_3);
        tokenizer.consume();
        tokenizer.exit(token_3);
        tokenizer.exit(token_2);
        tokenizer.exit(token_1);
        State::Okay
    } else {
        let token_5 = tokenizer.tokenize_state.token_5;
        tokenizer.enter(token_5);
        tokenizer.enter_link(Name::Data, Link { previous: None, next: None, content: Content::String });
        State::Retry(StateName::DestinationEnclosed)
    }
}

/// In an enclosed destination.
pub open spec fn spec_enclosed(t: TokenizerView) -> (TokenizerView, State) {
    match t.current {
        None => (t, State::Nok),
        Some(b) => if b == 10 || b == 60 {
            (t, State::Nok)
        } else if b == 62 {
            (
                t.exit(Name::Data).exit(t.ts.token_5),
                State::Retry(StateName::DestinationEnclosedBefore),
            )
        } else if b == 92 {
            (t.consume(), State::Next(StateName::DestinationEnclosedEscape))
        } else {
            (t.consume(), State::Next(StateName::DestinationEnclosed))
        },
    }
}

/// In enclosed destination.
///
/// ```markdown
/// > | <aa>
///      ^
/// ```
pub fn enclosed(tokenizer: &mut Tokenizer) -> (r: State)
    ensures
        (final(tokenizer)@, r) == spec_enclosed(old(tokenizer)@),
{
    match tokenizer.current {
        None | Some(10 | 60) => State::Nok,
        Some(62) => {
            tokenizer.exit(Name::Data);
            let token_5 = tokenizer.tokenize_state.token_5;
            tokenizer.exit(token_5);
            State::Retry(StateName::DestinationEnclosedBefore)
        },
        Some(92) => {
            tokenizer.consume();
            State::Next(StateName::DestinationEnclosedEscape)
        },
        _ => {
            tokenizer.consume();
            State::Next(StateName::DestinationEnclosed)
        },
    }
}

/// After `\`: take an escaped `<`, `>`, or `\`.
pub open spec fn spec_enclosed_escape(t: TokenizerView) -> (TokenizerView, State) {
    if t.current == Some(60u8) || t.current == Some(62u8) || t.current == Some(92u8) {
        (t.consume(), State::Next(StateName::DestinationEnclosed))
    } else {
        (t, State::Retry(StateName::DestinationEnclosed))
    }
}

/// After `\`, at a special character.
///
/// ```markdown
/// > | <a\*a>
///        ^
/// ```
pub fn enclosed_escape(tokenizer: &mut Tokenizer) -> (r: State)
    ensures
        (final(tokenizer)@, r) == spec_enclosed_escape(old(tokenizer)@),
{
    match tokenizer.current {
        Some(60 | 62 | 92) => {
            tokenizer.consume();
            State::Next(StateName::DestinationEnclosed)
        },
        _ => State::Retry(StateName::DestinationEnclosed),
    }
}

/// Whether the current byte ends a raw destination (when parens are
/// balanced): the end, tab, eol, space, or `)`.
pub open spec fn ends_raw(t: TokenizerView) -> bool {
    t.current is None || t.current == Some(9u8) || t.current == Some(10u8) || t.current == Some(
        32u8,
    ) || t.current == Some(41u8)
}

/// Whether the current byte is not allowed in a raw destination: the end,
/// an ASCII control (but not `\0`), space, or `(`.
pub open spec fn invalid_raw(t: TokenizerView) -> bool {
    match t.current {
        None => true,
        Some(b) => (1 <= b <= 31) || b == 32 || b == 40 || b == 127,
    }
}

/// In a raw destination: track balance of parens (up to `size_b` deep).
pub open spec fn spec_raw(t: TokenizerView) -> (TokenizerView, State) {
    if t.ts.size == 0 && ends_raw(t) {
        (
            t.exit(Name::Data).exit(t.ts.token_5).exit(t.ts.token_4).exit(t.ts.token_1).set_size(
                0,
            ),
            State::Okay,
        )
    } else if t.ts.size < t.ts.size_b && t.current == Some(40u8) {
        (t.consume().set_size((t.ts.size + 1) as usize), State::Next(StateName::DestinationRaw))
    } else if t.current == Some(41u8) {
        (t.consume().set_size((t.ts.size - 1) as usize), State::Next(StateName::DestinationRaw))
    } else if invalid_raw(t) {
        (t.set_size(0), State::Nok)
    } else if t.current == Some(92u8) {
        (t.consume(), State::Next(StateName::DestinationRawEscape))
    } else {
        (t.consume(), State::Next(StateName::DestinationRaw))
    }
}

/// In raw destination.
///
/// ```markdown
/// > | aa
///     ^
/// ```
pub fn raw(tokenizer: &mut Tokenizer) -> (r: State)
    ensures
        (final(tokenizer)@, r) == spec_raw(old(tokenizer)@),
{
    let ends = at_raw_end(tokenizer);
    let invalid = at_raw_invalid(tokenizer);
    if tokenizer.tokenize_state.size == 0 && ends {
        let (token_1, token_4, token_5) = (
            tokenizer.tokenize_state.token_1,
            tokenizer.tokenize_state.token_4,
            tokenizer.tokenize_state.token_5,
        );
        tokenizer.exit(Name::Data);
        tokenizer.exit(token_5);
        tokenizer.exit(token_4);
        tokenizer.exit(token_1);
        tokenizer.set_size(0);
        State::Okay
    } else if (tokenizer.tokenize_state.size < tokenizer.tokenize_state.size_b
        && tokenizer.current == Some(40)) || tokenizer.current == Some(41) {
        raw_paren(tokenizer)
    } else if invalid {
        // ASCII control (but *not* `\0`) and space and `(`.
        tokenizer.set_size(0);
        State::Nok
    } else if tokenizer.current == Some(92) {
        tokenizer.consume();
        State::Next(StateName::DestinationRawEscape)
    } else {
        tokenizer.consume();
        State::Next(StateName::DestinationRaw)
    }
}

/// Whether the current byte ends a raw destination.
fn at_raw_end(tokenizer: &Tokenizer) -> (r: bool)
    ensures
        r == ends_raw(tokenizer@),
{
    matches!(tokenizer.current, None | Some(9 | 10 | 32 | 41))
}

/// Whether the current byte is not allowed in a raw destination.
fn at_raw_invalid(tokenizer: &Tokenizer) -> (r: bool)
    ensures
        r == invalid_raw(tokenizer@),
{
    matches!(tokenizer.current, None | Some(1..=31 | 32 | 40 | 127))
}

/// In a raw destination, at a paren that is allowed: track the balance.
fn raw_paren(tokenizer: &mut Tokenizer) -> (r: State)
    requires
        !(old(tokenizer)@.ts.size == 0 && ends_raw(old(tokenizer)@)),
        (old(tokenizer)@.ts.size < old(tokenizer)@.ts.size_b && old(tokenizer)@.current == Some(
            40u8,
        )) || old(tokenizer)@.current == Some(41u8),
    ensures
        (final(tokenizer)@, r) == spec_raw(old(tokenizer)@),
{
    let ghost t = tokenizer@;
    let size = tokenizer.tokenize_state.size;
    if tokenizer.current == Some(40) {
        tokenizer.consume();
        tokenizer.set_size(size + 1);
    } else {
        tokenizer.consume();
        tokenizer.set_size(size - 1);
    }
    State::Next(StateName::DestinationRaw)
}

/// After `\`: take an escaped `(`, `)`, or `\`.
pub open spec fn spec_raw_escape(t: TokenizerView) -> (TokenizerView, State) {
    if t.current == Some(40u8) || t.current == Some(41u8) || t.current == Some(92u8) {
        (t.consume(), State::Next(StateName::DestinationRaw))
    } else {
        (t, State::Retry(StateName::DestinationRaw))
    }
}

/// After `\`, at special character.
///
/// ```markdown
/// > | a\*a
///       ^
/// ```
pub fn raw_escape(tokenizer: &mut Tokenizer) -> (r: State)
    ensures
        (final(tokenizer)@, r) == spec_raw_escape(old(tokenizer)@),
{
    match tokenizer.current {
        Some(40 | 41 | 92) => {
            tokenizer.consume();
            State::Next(StateName::DestinationRaw)
        },
        _ => State::Retry(StateName::DestinationRaw),
    }
}

} // verus!

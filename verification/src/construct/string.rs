//! The string content type.
//!
//! **String** is a limited text like content type which only allows
//! character escapes and character references.
//! It exists in things such as identifiers (media references, definitions),
//! titles, URLs, code (fenced) info and meta parts.
//!
//! The constructs found in string are character escape and character
//! reference.

use vstd::prelude::*;
use crate::construct::partial_whitespace::{pre_resolve_whitespace, resolve_whitespace, spec_resolve_whitespace};
use crate::resolve::Name as ResolveName;
use crate::state::{Name as StateName, State};
use crate::tokenizer::{Tokenizer, TokenizerView, TokenizeStateView};

verus! {

/// Characters that can start something in string: `&` and `\`.
pub open spec fn markers() -> Seq<u8> {
    seq![38u8, 92u8]
}

/// Start of string: register the resolver of whitespace in string, and set
/// the markers.
pub open spec fn spec_start(t: TokenizerView) -> (TokenizerView, State) {
    (
        t.register_resolver(ResolveName::String).with_ts(
            TokenizeStateView { markers: markers(), ..t.register_resolver(ResolveName::String).ts },
        ),
        State::Retry(StateName::StringBefore),
    )
}

/// Start of string.
pub fn start(tokenizer: &mut Tokenizer) -> (r: State)
    ensures
        (final(tokenizer)@, r) == spec_start(old(tokenizer)@),
{
    tokenizer.register_resolver(ResolveName::String);
    tokenizer.tokenize_state.markers = vec![38, 92];
    proof {
        assert(tokenizer.tokenize_state.markers@ =~= markers());
    }
    State::Retry(StateName::StringBefore)
}

/// Before string: at the end, done; at `&` or `\`, try a character
/// reference or escape; otherwise data.
pub open spec fn spec_before(t: TokenizerView) -> (TokenizerView, State) {
    if t.current is None {
        (t, State::Okay)
    } else if t.current == Some(38u8) {
        (
            t.attempt(State::Next(StateName::StringBefore), State::Next(StateName::StringBeforeData)),
            State::Retry(StateName::CharacterReferenceStart),
        )
    } else if t.current == Some(92u8) {
        (
            t.attempt(State::Next(StateName::StringBefore), State::Next(StateName::StringBeforeData)),
            State::Retry(StateName::CharacterEscapeStart),
        )
    } else {
        (t, State::Retry(StateName::StringBeforeData))
    }
}

/// Before string.
pub fn before(tokenizer: &mut Tokenizer) -> (r: State)
    ensures
        (final(tokenizer)@, r) == spec_before(old(tokenizer)@),
{
    match tokenizer.current {
        None => State::Okay,
        Some(38) => {
            tokenizer.attempt(
                State::Next(StateName::StringBefore),
                State::Next(StateName::StringBeforeData),
            );
            State::Retry(StateName::CharacterReferenceStart)
        },
        Some(92) => {
            tokenizer.attempt(
                State::Next(StateName::StringBefore),
                State::Next(StateName::StringBeforeData),
            );
            State::Retry(StateName::CharacterEscapeStart)
        },
        _ => State::Retry(StateName::StringBeforeData),
    }
}

/// Before data: data must succeed, then back to string.
pub open spec fn spec_before_data(t: TokenizerView) -> (TokenizerView, State) {
    (
        t.attempt(State::Next(StateName::StringBefore), State::Nok),
        State::Retry(StateName::DataStart),
    )
}

/// At data.
pub fn before_data(tokenizer: &mut Tokenizer) -> (r: State)
    ensures
        (final(tokenizer)@, r) == spec_before_data(old(tokenizer)@),
{
    tokenizer.attempt(State::Next(StateName::StringBefore), State::Nok);
    State::Retry(StateName::DataStart)
}

/// Resolve whitespace in string: trim data at the start and end of lines.
pub fn resolve(tokenizer: &mut Tokenizer)
    requires
        pre_resolve_whitespace(old(tokenizer)@, false, false),
    ensures
        final(tokenizer)@ == spec_resolve_whitespace(old(tokenizer)@, false, false),
{
    resolve_whitespace(tokenizer, false, false);
}

} // verus!

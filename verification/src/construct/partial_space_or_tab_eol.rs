//! Space or tab (eol) occurs in destinations and titles.
//!
//! ```bnf
//! space_or_tab_eol ::= 1*space_or_tab | *space_or_tab eol *space_or_tab
//! ```
//!
//! Importantly, this allows one line ending, but not blank lines.

use vstd::prelude::*;
use crate::construct::partial_space_or_tab::{
    space_or_tab_with_options, spec_with_options, Options as SpaceOrTabOptions,
};
use crate::event::{Content, Link, Name};
use crate::state::{Name as StateName, State};
use crate::tokenizer::{Tokenizer, TokenizerView, TokenizeStateView};

verus! {

/// Configuration.
#[derive(Clone, Copy, Debug, PartialEq, Eq, Structural)]
pub struct Options {
    /// Connect this whitespace to the previous.
    pub connect: bool,
    /// Embedded content type to use.
    pub content: Option<Content>,
}

/// The tokenizer, configured for `space_or_tab_eol` with `options`.
pub open spec fn spec_with_eol_options(t: TokenizerView, options: Options) -> TokenizerView {
    t.with_ts(
        TokenizeStateView {
            space_or_tab_eol_content: options.content,
            space_or_tab_eol_connect: options.connect,
            ..t.ts
        },
    )
}

/// The options of the `space_or_tab` inside `space_or_tab_eol`.
pub open spec fn inner_options(t: TokenizerView) -> SpaceOrTabOptions {
    SpaceOrTabOptions {
        kind: Name::SpaceOrTab,
        min: 1,
        max: usize::MAX,
        content: t.ts.space_or_tab_eol_content,
        connect: t.ts.space_or_tab_eol_connect,
    }
}

/// `space_or_tab_eol`
pub fn space_or_tab_eol(tokenizer: &mut Tokenizer) -> (r: StateName)
    ensures
        r == StateName::SpaceOrTabEolStart,
        final(tokenizer)@ == spec_with_eol_options(
            old(tokenizer)@,
            Options { content: None, connect: false },
        ),
{
    space_or_tab_eol_with_options(tokenizer, Options { content: None, connect: false })
}

/// `space_or_tab_eol`, with the given options.
pub fn space_or_tab_eol_with_options(tokenizer: &mut Tokenizer, options: Options) -> (r: StateName)
    ensures
        r == StateName::SpaceOrTabEolStart,
        final(tokenizer)@ == spec_with_eol_options(old(tokenizer)@, options),
{
    tokenizer.tokenize_state.space_or_tab_eol_content = options.content;
    tokenizer.tokenize_state.space_or_tab_eol_connect = options.connect;
    StateName::SpaceOrTabEolStart
}

/// Start of whitespace with at most one eol: try whitespace first.
pub open spec fn spec_start(t: TokenizerView) -> (TokenizerView, State) {
    if t.at_space_or_tab() {
        let t1 = t.attempt(
            State::Next(StateName::SpaceOrTabEolAfterFirst),
            State::Next(StateName::SpaceOrTabEolAtEol),
        );
        (spec_with_options(t1, inner_options(t)), State::Retry(StateName::SpaceOrTabStart))
    } else {
        (t, State::Retry(StateName::SpaceOrTabEolAtEol))
    }
}

/// Start of whitespace with at most one eol.
///
/// ```markdown
/// > | a␠␠b
///      ^
/// > | a␠␠␊
///      ^
///   | ␠␠b
/// ```
pub fn start(tokenizer: &mut Tokenizer) -> (r: State)
    ensures
        (final(tokenizer)@, r) == spec_start(old(tokenizer)@),
{
    if matches!(tokenizer.current, Some(9 | 32)) {
        tokenizer.attempt(
            State::Next(StateName::SpaceOrTabEolAfterFirst),
            State::Next(StateName::SpaceOrTabEolAtEol),
        );
        let options = SpaceOrTabOptions {
            kind: Name::SpaceOrTab,
            min: 1,
            max: usize::MAX,
            content: tokenizer.tokenize_state.space_or_tab_eol_content,
            connect: tokenizer.tokenize_state.space_or_tab_eol_connect,
        };
        State::Retry(space_or_tab_with_options(tokenizer, options))
    } else {
        State::Retry(StateName::SpaceOrTabEolAtEol)
    }
}

/// After initial whitespace: remember that there was whitespace.
pub open spec fn spec_after_first(t: TokenizerView) -> (TokenizerView, State) {
    (
        t.with_ts(TokenizeStateView { space_or_tab_eol_ok: true, ..t.ts }),
        State::Retry(StateName::SpaceOrTabEolAtEol),
    )
}

/// After initial whitespace, at optional eol.
///
/// ```markdown
/// > | a␠␠b
///        ^
/// > | a␠␠␊
///        ^
///   | ␠␠b
/// ```
pub fn after_first(tokenizer: &mut Tokenizer) -> (r: State)
    ensures
        (final(tokenizer)@, r) == spec_after_first(old(tokenizer)@),
{
    tokenizer.tokenize_state.space_or_tab_eol_ok = true;
    State::Retry(StateName::SpaceOrTabEolAtEol)
}

/// What `at_eol` needs: when it connects, the line ending carries a link and
/// so does the event two before it.
pub open spec fn pre_at_eol(t: TokenizerView) -> bool {
    (t.current == Some(10u8) && t.ts.space_or_tab_eol_connect) ==> (
    t.ts.space_or_tab_eol_content is Some && t.events.len() >= 2 && t.events[t.events.len()
        - 2].link is Some)
}

/// Open the line ending, linked when a content type is set.
pub open spec fn spec_eol_enter(t: TokenizerView) -> TokenizerView {
    match t.ts.space_or_tab_eol_content {
        Some(content) => t.enter_link(Name::LineEnding, Link { previous: None, next: None, content }),
        None => t.enter(Name::LineEnding),
    }
}

/// Connect the line ending to the whitespace before it, or mark that later
/// events connect to it.
pub open spec fn spec_eol_connect(t1: TokenizerView, t: TokenizerView) -> TokenizerView {
    if t.ts.space_or_tab_eol_connect {
        t1.link_last()
    } else if t.ts.space_or_tab_eol_content is Some {
        t1.with_ts(TokenizeStateView { space_or_tab_eol_connect: true, ..t1.ts })
    } else {
        t1
    }
}

/// At eol: take the line ending, or end (ok when there was whitespace).
pub open spec fn spec_at_eol(t: TokenizerView) -> (TokenizerView, State) {
    if t.current == Some(10u8) {
        let t2 = spec_eol_connect(spec_eol_enter(t), t);
        (t2.consume().exit(Name::LineEnding), State::Next(StateName::SpaceOrTabEolAfterEol))
    } else {
        (
            t.with_ts(
                TokenizeStateView {
                    space_or_tab_eol_content: None,
                    space_or_tab_eol_connect: false,
                    space_or_tab_eol_ok: false,
                    ..t.ts
                },
            ),
            if t.ts.space_or_tab_eol_ok {
                State::Okay
            } else {
                State::Nok
            },
        )
    }
}

fn eol_enter(tokenizer: &mut Tokenizer)
    ensures
        final(tokenizer)@ == spec_eol_enter(old(tokenizer)@),
{
    if let Some(content) = tokenizer.tokenize_state.space_or_tab_eol_content {
        tokenizer.enter_link(Name::LineEnding, Link { previous: None, next: None, content });
    } else {
        tokenizer.enter(Name::LineEnding);
    }
}

fn eol_connect(tokenizer: &mut Tokenizer, Ghost(t): Ghost<TokenizerView>)
    requires
        old(tokenizer)@ == spec_eol_enter(t),
        pre_at_eol(t),
        t.current == Some(10u8),
    ensures
        final(tokenizer)@ == spec_eol_connect(old(tokenizer)@, t),
{
    if tokenizer.tokenize_state.space_or_tab_eol_connect {
        let ghost t1 = tokenizer@;
        assert(t1.events[t1.events.len() - 3] == t.events[t.events.len() - 2]);
        tokenizer.link_last();
    } else if tokenizer.tokenize_state.space_or_tab_eol_content.is_some() {
        tokenizer.tokenize_state.space_or_tab_eol_connect = true;
    }
}

/// After optional whitespace, at eol.
///
/// ```markdown
/// > | a␠␠b
///        ^
/// > | a␠␠␊
///        ^
///   | ␠␠b
/// > | a␊
///      ^
///   | ␠␠b
/// ```
pub fn at_eol(tokenizer: &mut Tokenizer) -> (r: State)
    requires
        pre_at_eol(old(tokenizer)@),
    ensures
        (final(tokenizer)@, r) == spec_at_eol(old(tokenizer)@),
{
    let ghost t = tokenizer@;
    if tokenizer.current == Some(10) {
        eol_enter(tokenizer);
        eol_connect(tokenizer, Ghost(t));
        tokenizer.consume();
        tokenizer.exit(Name::LineEnding);
        State::Next(StateName::SpaceOrTabEolAfterEol)
    } else {
        let ok = tokenizer.tokenize_state.space_or_tab_eol_ok;
        tokenizer.tokenize_state.space_or_tab_eol_content = None;
        tokenizer.tokenize_state.space_or_tab_eol_connect = false;
        tokenizer.tokenize_state.space_or_tab_eol_ok = false;
        if ok {
            State::Okay
        } else {
            State::Nok
        }
    }
}

/// After eol: optional whitespace on the next line.
pub open spec fn spec_after_eol(t: TokenizerView) -> (TokenizerView, State) {
    if t.at_space_or_tab() {
        let t1 = t.attempt(State::Next(StateName::SpaceOrTabEolAfterMore), State::Nok);
        (spec_with_options(t1, inner_options(t)), State::Retry(StateName::SpaceOrTabStart))
    } else {
        (t, State::Retry(StateName::SpaceOrTabEolAfterMore))
    }
}

/// After eol.
///
/// ```markdown
///   | a␠␠␊
/// > | ␠␠b
///     ^
///   | a␊
/// > | ␠␠b
///     ^
/// ```
pub fn after_eol(tokenizer: &mut Tokenizer) -> (r: State)
    ensures
        (final(tokenizer)@, r) == spec_after_eol(old(tokenizer)@),
{
    if matches!(tokenizer.current, Some(9 | 32)) {
        tokenizer.attempt(State::Next(StateName::SpaceOrTabEolAfterMore), State::Nok);
        let options = SpaceOrTabOptions {
            kind: Name::SpaceOrTab,
            min: 1,
            max: usize::MAX,
            content: tokenizer.tokenize_state.space_or_tab_eol_content,
            connect: tokenizer.tokenize_state.space_or_tab_eol_connect,
        };
        State::Retry(space_or_tab_with_options(tokenizer, options))
    } else {
        State::Retry(StateName::SpaceOrTabEolAfterMore)
    }
}

/// After optional final whitespace: reset and succeed.
pub open spec fn spec_after_more(t: TokenizerView) -> (TokenizerView, State) {
    (
        t.with_ts(
            TokenizeStateView {
                space_or_tab_eol_content: None,
                space_or_tab_eol_connect: false,
                space_or_tab_eol_ok: false,
                ..t.ts
            },
        ),
        State::Okay,
    )
}

/// After optional final whitespace.
///
/// ```markdown
///   | a␠␠␊
/// > | ␠␠b
///       ^
///   | a␊
/// > | ␠␠b
///       ^
/// ```
pub fn after_more(tokenizer: &mut Tokenizer) -> (r: State)
    ensures
        (final(tokenizer)@, r) == spec_after_more(old(tokenizer)@),
{
    tokenizer.tokenize_state.space_or_tab_eol_content = None;
    tokenizer.tokenize_state.space_or_tab_eol_connect = false;
    tokenizer.tokenize_state.space_or_tab_eol_ok = false;
    State::Okay
}

/// Whether `at_eol` can run.
pub fn can_at_eol(tokenizer: &Tokenizer) -> (r: bool)
    ensures
        r == pre_at_eol(tokenizer@),
{
    !(tokenizer.current == Some(10) && tokenizer.tokenize_state.space_or_tab_eol_connect) || (
    tokenizer.tokenize_state.space_or_tab_eol_content.is_some() && tokenizer.can_link_back())
}

} // verus!

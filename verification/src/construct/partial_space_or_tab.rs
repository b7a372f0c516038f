//! Space or tab occurs in tons of places.
//!
//! ```bnf
//! space_or_tab ::= 1*('\t' | ' ')
//! ```

use vstd::prelude::*;
use crate::event::{Content, Link, Name};
use crate::state::{Name as StateName, State};
use crate::tokenizer::{Tokenizer, TokenizerView, TokenizeStateView};

verus! {

/// Configuration.
#[derive(Clone, Copy, Debug, PartialEq, Eq, Structural)]
pub struct Options {
    /// Minimum allowed bytes (inclusive).
    pub min: usize,
    /// Maximum allowed bytes (inclusive).
    pub max: usize,
    /// Name to use for events.
    pub kind: Name,
    /// Connect this event to the previous.
    pub connect: bool,
    /// Embedded content type to use.
    pub content: Option<Content>,
}

/// The tokenizer, configured for `space_or_tab` with `options`.
pub open spec fn spec_with_options(t: TokenizerView, options: Options) -> TokenizerView {
    t.with_ts(
        TokenizeStateView {
            space_or_tab_connect: options.connect,
            space_or_tab_content: options.content,
            space_or_tab_min: options.min,
            space_or_tab_max: options.max,
            space_or_tab_token: options.kind,
            ..t.ts
        },
    )
}

/// The tokenizer, configured for `space_or_tab` between `min` and `max`.
pub open spec fn spec_min_max(t: TokenizerView, min: usize, max: usize) -> TokenizerView {
    spec_with_options(
        t,
        Options { kind: Name::SpaceOrTab, min, max, content: None, connect: false },
    )
}

/// One or more `space_or_tab`.
///
/// ```bnf
/// space_or_tab ::= 1*( ' ' '\t' )
/// ```
pub fn space_or_tab(tokenizer: &mut Tokenizer) -> (r: StateName)
    ensures
        r == StateName::SpaceOrTabStart,
        final(tokenizer)@ == spec_min_max(old(tokenizer)@, 1, usize::MAX),
{
    space_or_tab_min_max(tokenizer, 1, usize::MAX)
}

/// Between `x` and `y` `space_or_tab`.
///
/// ```bnf
/// space_or_tab_min_max ::= x*y( ' ' '\t' )
/// ```
pub fn space_or_tab_min_max(tokenizer: &mut Tokenizer, min: usize, max: usize) -> (r: StateName)
    ensures
        r == StateName::SpaceOrTabStart,
        final(tokenizer)@ == spec_min_max(old(tokenizer)@, min, max),
{
    space_or_tab_with_options(
        tokenizer,
        Options { kind: Name::SpaceOrTab, min, max, content: None, connect: false },
    )
}

/// `space_or_tab`, with the given options.
pub fn space_or_tab_with_options(tokenizer: &mut Tokenizer, options: Options) -> (r: StateName)
    ensures
        r == StateName::SpaceOrTabStart,
        final(tokenizer)@ == spec_with_options(old(tokenizer)@, options),
{
    tokenizer.tokenize_state.space_or_tab_connect = options.connect;
    tokenizer.tokenize_state.space_or_tab_content = options.content;
    tokenizer.tokenize_state.space_or_tab_min = options.min;
    tokenizer.tokenize_state.space_or_tab_max = options.max;
    tokenizer.tokenize_state.space_or_tab_token = options.kind;
    StateName::SpaceOrTabStart
}

/// What `start` needs: when it connects, the new event carries a link and
/// so does the event two before it.
pub open spec fn pre_start(t: TokenizerView) -> bool {
    (t.ts.space_or_tab_max > 0 && t.at_space_or_tab() && t.ts.space_or_tab_connect) ==> (
    t.ts.space_or_tab_content is Some && t.events.len() >= 2 && t.events[t.events.len() - 2].link is Some)
}

/// Start of `space_or_tab`: enter the span when at whitespace.
pub open spec fn spec_start(t: TokenizerView) -> (TokenizerView, State) {
    if t.ts.space_or_tab_max > 0 && t.at_space_or_tab() {
        let t1 = match t.ts.space_or_tab_content {
            Some(content) => t.enter_link(
                t.ts.space_or_tab_token,
                Link { previous: None, next: None, content },
            ),
            None => t.enter(t.ts.space_or_tab_token),
        };
        let t2 = if t.ts.space_or_tab_connect {
            t1.link_last()
        } else {
            t1.with_ts(TokenizeStateView { space_or_tab_connect: true, ..t1.ts })
        };
        (t2, State::Retry(StateName::SpaceOrTabInside))
    } else {
        (t, State::Retry(StateName::SpaceOrTabAfter))
    }
}

/// Start of `space_or_tab`.
///
/// ```markdown
/// > | a␠␠b
///      ^
/// ```
pub fn start(tokenizer: &mut Tokenizer) -> (r: State)
    requires
        pre_start(old(tokenizer)@),
    ensures
        (final(tokenizer)@, r) == spec_start(old(tokenizer)@),
{
    let ghost t = tokenizer@;
    if tokenizer.tokenize_state.space_or_tab_max > 0 && matches!(tokenizer.current, Some(9 | 32)) {
        if let Some(content) = tokenizer.tokenize_state.space_or_tab_content {
            let name = tokenizer.tokenize_state.space_or_tab_token;
            tokenizer.enter_link(name, Link { previous: None, next: None, content });
        } else {
            let name = tokenizer.tokenize_state.space_or_tab_token;
            tokenizer.enter(name);
        }
        let ghost t1 = tokenizer@;
        assert(t1 == (match t.ts.space_or_tab_content {
            Some(content) => t.enter_link(
                t.ts.space_or_tab_token,
                Link { previous: None, next: None, content },
            ),
            None => t.enter(t.ts.space_or_tab_token),
        }));
        if tokenizer.tokenize_state.space_or_tab_connect {
            assert(t1.events[t1.events.len() - 3] == t.events[t.events.len() - 2]);
            assert(t1.can_link_last());
            tokenizer.link_last();
        } else {
            tokenizer.tokenize_state.space_or_tab_connect = true;
        }
        State::Retry(StateName::SpaceOrTabInside)
    } else {
        State::Retry(StateName::SpaceOrTabAfter)
    }
}

/// In `space_or_tab`: consume whitespace up to the maximum.
pub open spec fn spec_inside(t: TokenizerView) -> (TokenizerView, State) {
    if t.at_space_or_tab() && t.ts.space_or_tab_size < t.ts.space_or_tab_max {
        let t1 = t.consume();
        (
            t1.with_ts(
                TokenizeStateView { space_or_tab_size: (t.ts.space_or_tab_size + 1) as usize, ..t1.ts },
            ),
            State::Next(StateName::SpaceOrTabInside),
        )
    } else {
        (t.exit(t.ts.space_or_tab_token), State::Retry(StateName::SpaceOrTabAfter))
    }
}

/// In `space_or_tab`.
///
/// ```markdown
/// > | a␠␠b
///       ^
/// ```
pub fn inside(tokenizer: &mut Tokenizer) -> (r: State)
    ensures
        (final(tokenizer)@, r) == spec_inside(old(tokenizer)@),
{
    if matches!(tokenizer.current, Some(9 | 32)) && tokenizer.tokenize_state.space_or_tab_size
        < tokenizer.tokenize_state.space_or_tab_max {
        tokenizer.consume();
        tokenizer.tokenize_state.space_or_tab_size = tokenizer.tokenize_state.space_or_tab_size + 1;
        State::Next(StateName::SpaceOrTabInside)
    } else {
        let name = tokenizer.tokenize_state.space_or_tab_token;
        tokenizer.exit(name);
        State::Retry(StateName::SpaceOrTabAfter)
    }
}

/// After `space_or_tab`: ok when enough whitespace was seen; resets the
/// configuration.
pub open spec fn spec_after(t: TokenizerView) -> (TokenizerView, State) {
    let state = if t.ts.space_or_tab_size >= t.ts.space_or_tab_min {
        State::Okay
    } else {
        State::Nok
    };
    (
        t.with_ts(
            TokenizeStateView {
                space_or_tab_connect: false,
                space_or_tab_content: None,
                space_or_tab_size: 0,
                space_or_tab_max: 0,
                space_or_tab_min: 0,
                space_or_tab_token: Name::SpaceOrTab,
                ..t.ts
            },
        ),
        state,
    )
}

/// After `space_or_tab`.
///
/// ```markdown
/// > | a␠␠b
///        ^
/// ```
pub fn after(tokenizer: &mut Tokenizer) -> (r: State)
    ensures
        (final(tokenizer)@, r) == spec_after(old(tokenizer)@),
{
    let state = if tokenizer.tokenize_state.space_or_tab_size
        >= tokenizer.tokenize_state.space_or_tab_min {
        State::Okay
    } else {
        State::Nok
    };
    tokenizer.tokenize_state.space_or_tab_connect = false;
    tokenizer.tokenize_state.space_or_tab_content = None;
    tokenizer.tokenize_state.space_or_tab_size = 0;
    tokenizer.tokenize_state.space_or_tab_max = 0;
    tokenizer.tokenize_state.space_or_tab_min = 0;
    tokenizer.tokenize_state.space_or_tab_token = Name::SpaceOrTab;
    state
}

/// Whether `start` can run.
pub fn can_start(tokenizer: &Tokenizer) -> (r: bool)
    ensures
        r == pre_start(tokenizer@),
{
    !(tokenizer.tokenize_state.space_or_tab_max > 0 && matches!(tokenizer.current, Some(9 | 32))
        && tokenizer.tokenize_state.space_or_tab_connect) || (
    tokenizer.tokenize_state.space_or_tab_content.is_some() && tokenizer.can_link_back())
}

/// Inside `space_or_tab`, the count never passes the maximum: a byte is
/// counted only while the count is below it.
pub proof fn lemma_inside_within_max(t: TokenizerView)
    requires
        t.ts.space_or_tab_size <= t.ts.space_or_tab_max,
    ensures
        spec_inside(t).0.ts.space_or_tab_size <= spec_inside(t).0.ts.space_or_tab_max,
{
}

} // verus!

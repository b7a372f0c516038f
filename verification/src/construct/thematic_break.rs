//! Thematic break occurs in the flow content type.
//!
//! ```bnf
//! ; Restriction: all markers must be identical.
//! ; Restriction: at least 3 markers must be used.
//! thematic_break ::= *space_or_tab 1*(1*marker *space_or_tab)
//!
//! marker ::= '*' | '-' | '_'
//! ```
//!
//! As this construct occurs in flow, like all flow constructs, it must be
//! followed by an eol (line ending) or eof (end of file).

use vstd::prelude::*;
use crate::construct::partial_space_or_tab::{space_or_tab, space_or_tab_min_max, spec_min_max};
use crate::event::Name;
use crate::state::{Name as StateName, State};
use crate::tokenizer::{Tokenizer, TokenizerView, TokenizeStateView};
use crate::util::constant::{TAB_SIZE, THEMATIC_BREAK_MARKER_COUNT_MIN};

verus! {

/// The most whitespace allowed before a flow construct: less than a tab
/// stop when code (indented) is on, unbounded otherwise.
pub open spec fn flow_indent_max(t: TokenizerView) -> usize {
    if t.options.constructs.code_indented {
        (TAB_SIZE - 1) as usize
    } else {
        usize::MAX
    }
}

/// Start: when turned on, enter the break, after optional whitespace.
pub open spec fn spec_start(t: TokenizerView) -> (TokenizerView, State) {
    if t.options.constructs.thematic_break {
        let t1 = t.enter(Name::ThematicBreak);
        if t.at_space_or_tab() {
            let t2 = t1.attempt(State::Next(StateName::ThematicBreakBefore), State::Nok);
            (spec_min_max(t2, 0, flow_indent_max(t)), State::Retry(StateName::SpaceOrTabStart))
        } else {
            (t1, State::Retry(StateName::ThematicBreakBefore))
        }
    } else {
        (t, State::Nok)
    }
}

/// Start of thematic break.
///
/// ```markdown
/// > | ***
///     ^
/// ```
pub fn start(tokenizer: &mut Tokenizer) -> (r: State)
    ensures
        (final(tokenizer)@, r) == spec_start(old(tokenizer)@),
{
    if tokenizer.parse_state.options.constructs.thematic_break {
        tokenizer.enter(Name::ThematicBreak);
        if matches!(tokenizer.current, Some(9 | 32)) {
            tokenizer.attempt(State::Next(StateName::ThematicBreakBefore), State::Nok);
            let max = if tokenizer.parse_state.options.constructs.code_indented {
                TAB_SIZE - 1
            } else {
                usize::MAX
            };
            State::Retry(space_or_tab_min_max(tokenizer, 0, max))
        } else {
            State::Retry(StateName::ThematicBreakBefore)
        }
    } else {
        State::Nok
    }
}

/// Whether a byte is a thematic break marker (`*`, `-`, `_`).
pub open spec fn is_marker(b: u8) -> bool {
    b == 42 || b == 45 || b == 95
}

/// At marker: remember it.
pub open spec fn spec_before(t: TokenizerView) -> (TokenizerView, State) {
    match t.current {
        Some(b) => if is_marker(b) {
            (
                t.with_ts(TokenizeStateView { marker: b, ..t.ts }),
                State::Retry(StateName::ThematicBreakAtBreak),
            )
        } else {
            (t, State::Nok)
        },
        None => (t, State::Nok),
    }
}

/// After optional whitespace, at marker.
///
/// ```markdown
/// > | ***
///     ^
/// ```
pub fn before(tokenizer: &mut Tokenizer) -> (r: State)
    ensures
        (final(tokenizer)@, r) == spec_before(old(tokenizer)@),
{
    match tokenizer.current {
        Some(42 | 45 | 95) => {
            tokenizer.tokenize_state.marker = tokenizer.current.unwrap();
            State::Retry(StateName::ThematicBreakAtBreak)
        },
        _ => State::Nok,
    }
}

/// After something, before something else: more markers, or the end.
pub open spec fn spec_at_break(t: TokenizerView) -> (TokenizerView, State) {
    if t.current == Some(t.ts.marker) {
        (t.enter(Name::ThematicBreakSequence), State::Retry(StateName::ThematicBreakSequence))
    } else if t.ts.size >= THEMATIC_BREAK_MARKER_COUNT_MIN && t.at_eol_or_eof() {
        let t1 = t.with_ts(TokenizeStateView { marker: 0, size: 0, ..t.ts }).exit(
            Name::ThematicBreak,
        );
        (TokenizerView { interrupt: false, ..t1 }, State::Okay)
    } else {
        (t.with_ts(TokenizeStateView { marker: 0, size: 0, ..t.ts }), State::Nok)
    }
}

/// After something, before something else.
///
/// ```markdown
/// > | ***
///     ^
/// ```
pub fn at_break(tokenizer: &mut Tokenizer) -> (r: State)
    ensures
        (final(tokenizer)@, r) == spec_at_break(old(tokenizer)@),
{
    if tokenizer.current == Some(tokenizer.tokenize_state.marker) {
        tokenizer.enter(Name::ThematicBreakSequence);
        State::Retry(StateName::ThematicBreakSequence)
    } else if tokenizer.tokenize_state.size >= THEMATIC_BREAK_MARKER_COUNT_MIN && matches!(
        tokenizer.current,
        None | Some(10)
    ) {
        tokenizer.tokenize_state.marker = 0;
        tokenizer.tokenize_state.size = 0;
        tokenizer.exit(Name::ThematicBreak);
        // Feel free to interrupt.
        tokenizer.interrupt = false;
        State::Okay
    } else {
        tokenizer.tokenize_state.marker = 0;
        tokenizer.tokenize_state.size = 0;
        State::Nok
    }
}

/// What `sequence` needs: the count does not overflow.
pub open spec fn pre_sequence(t: TokenizerView) -> bool {
    t.ts.size < usize::MAX
}

/// In sequence: count markers, then whitespace or the next break.
pub open spec fn spec_sequence(t: TokenizerView) -> (TokenizerView, State) {
    if t.current == Some(t.ts.marker) {
        let t1 = t.consume();
        (
            t1.with_ts(TokenizeStateView { size: (t.ts.size + 1) as usize, ..t1.ts }),
            State::Next(StateName::ThematicBreakSequence),
        )
    } else if t.at_space_or_tab() {
        let t1 = t.exit(Name::ThematicBreakSequence).attempt(
            State::Next(StateName::ThematicBreakAtBreak),
            State::Nok,
        );
        (spec_min_max(t1, 1, usize::MAX), State::Retry(StateName::SpaceOrTabStart))
    } else {
        (t.exit(Name::ThematicBreakSequence), State::Retry(StateName::ThematicBreakAtBreak))
    }
}

/// In sequence.
///
/// ```markdown
/// > | ***
///     ^
/// ```
pub fn sequence(tokenizer: &mut Tokenizer) -> (r: State)
    requires
        pre_sequence(old(tokenizer)@),
    ensures
        (final(tokenizer)@, r) == spec_sequence(old(tokenizer)@),
{
    if tokenizer.current == Some(tokenizer.tokenize_state.marker) {
        tokenizer.consume();
        tokenizer.tokenize_state.size = tokenizer.tokenize_state.size + 1;
        State::Next(StateName::ThematicBreakSequence)
    } else if matches!(tokenizer.current, Some(9 | 32)) {
        tokenizer.exit(Name::ThematicBreakSequence);
        tokenizer.attempt(State::Next(StateName::ThematicBreakAtBreak), State::Nok);
        State::Retry(space_or_tab(tokenizer))
    } else {
        tokenizer.exit(Name::ThematicBreakSequence);
        State::Retry(StateName::ThematicBreakAtBreak)
    }
}

/// Whether `sequence` can run.
pub fn can_sequence(tokenizer: &Tokenizer) -> (r: bool)
    ensures
        r == pre_sequence(tokenizer@),
{
    tokenizer.tokenize_state.size < usize::MAX
}

} // verus!

//! Raw (text) occurs in the text content type: code (text) and math (text).
//!
//! ```bnf
//! ; Restriction: the number of markers in the closing sequence must be equal
//! ; to the number of markers in the opening sequence.
//! raw_text ::= sequence 1*byte sequence
//!
//! ; Restriction: not preceded or followed by the same marker.
//! sequence ::= 1*'`' | 1*'$'
//! ```

use vstd::prelude::*;
use crate::event::{Event, Name};
use crate::state::{Name as StateName, State};
use crate::tokenizer::{Tokenizer, TokenizerView};

verus! {

/// The construct state, reset.
pub open spec fn reset(t: TokenizerView) -> TokenizerView {
    t.set_marker(0).set_size(0).set_token_1(Name::Data).set_token_2(Name::Data).set_token_3(
        Name::Data,
    )
}

/// Whether raw (text) can start here: an enabled marker, not after the same
/// marker (unless that one was escaped).
pub open spec fn can_start(t: TokenizerView) -> bool {
    ((t.options.constructs.code_text && t.current == Some(96u8)) || (t.options.constructs.math_text
        && t.current == Some(36u8))) && (t.previous != t.current || (t.events.len() > 0
        && t.events.last().name == Name::CharacterEscape))
}

/// Start: remember the marker and its names, enter the sequence.
pub open spec fn spec_start(t: TokenizerView) -> (TokenizerView, State) {
    if can_start(t) {
        let marker = t.current.unwrap();
        let t1 = if marker == 96 {
            t.set_token_1(Name::CodeText).set_token_2(Name::CodeTextSequence).set_token_3(
                Name::CodeTextData,
            ).set_marker(marker)
        } else {
            t.set_token_1(Name::MathText).set_token_2(Name::MathTextSequence).set_token_3(
                Name::MathTextData,
            ).set_marker(marker)
        };
        (
            t1.enter(t1.ts.token_1).enter(t1.ts.token_2),
            State::Retry(StateName::RawTextSequenceOpen),
        )
    } else {
        (t, State::Nok)
    }
}

/// Start of raw (text).
///
/// ```markdown
/// > | `a`
///     ^
/// > | \`a`
///      ^
/// ```
pub fn start(tokenizer: &mut Tokenizer) -> (r: State)
    ensures
        (final(tokenizer)@, r) == spec_start(old(tokenizer)@),
{
    let ghost t = tokenizer@;
    let escaped = tokenizer.events.len() > 0 && tokenizer.events[tokenizer.events.len()
        - 1].name == Name::CharacterEscape;
    let code = tokenizer.parse_state.options.constructs.code_text && tokenizer.current == Some(96);
    let math = tokenizer.parse_state.options.constructs.math_text && tokenizer.current == Some(36);
    let not_same = tokenizer.previous != tokenizer.current;
    assert((code || math) && (not_same || escaped) <==> can_start(t));
    if (code || math) && (not_same || escaped) {
        let marker = tokenizer.current.unwrap();
        if marker == 96 {
            tokenizer.set_token_1(Name::CodeText);
            tokenizer.set_token_2(Name::CodeTextSequence);
            tokenizer.set_token_3(Name::CodeTextData);
        } else {
            tokenizer.set_token_1(Name::MathText);
            tokenizer.set_token_2(Name::MathTextSequence);
            tokenizer.set_token_3(Name::MathTextData);
        }
        tokenizer.set_marker(marker);
        let token_1 = tokenizer.tokenize_state.token_1;
        tokenizer.enter(token_1);
        let token_2 = tokenizer.tokenize_state.token_2;
        tokenizer.enter(token_2);
        State::Retry(StateName::RawTextSequenceOpen)
    } else {
        State::Nok
    }
}

/// What `sequence_open` needs: the count does not overflow.
pub open spec fn pre_sequence_open(t: TokenizerView) -> bool {
    t.ts.size < usize::MAX
}

/// In the opening sequence: count markers.
pub open spec fn spec_sequence_open(t: TokenizerView) -> (TokenizerView, State) {
    if t.current == Some(t.ts.marker) {
        (
            t.set_size((t.ts.size + 1) as usize).consume(),
            State::Next(StateName::RawTextSequenceOpen),
        )
    } else if t.ts.marker == 36 && t.ts.size == 1 && !t.options.math_text_single_dollar {
        (reset(t), State::Nok)
    } else {
        (t.exit(t.ts.token_2), State::Retry(StateName::RawTextBetween))
    }
}

/// In opening sequence.
///
/// ```markdown
/// > | `a`
///     ^
/// ```
pub fn sequence_open(tokenizer: &mut Tokenizer) -> (r: State)
    requires
        pre_sequence_open(old(tokenizer)@),
    ensures
        (final(tokenizer)@, r) == spec_sequence_open(old(tokenizer)@),
{
    if tokenizer.current == Some(tokenizer.tokenize_state.marker) {
        tokenizer.set_size(tokenizer.tokenize_state.size + 1);
        tokenizer.consume();
        State::Next(StateName::RawTextSequenceOpen)
    } else if tokenizer.tokenize_state.marker == 36 && tokenizer.tokenize_state.size == 1
        && !tokenizer.parse_state.options.math_text_single_dollar {
        // Not enough markers in the sequence.
        tokenizer.set_marker(0);
        tokenizer.set_size(0);
        tokenizer.set_token_1(Name::Data);
        tokenizer.set_token_2(Name::Data);
        tokenizer.set_token_3(Name::Data);
        State::Nok
    } else {
        let token_2 = tokenizer.tokenize_state.token_2;
        tokenizer.exit(token_2);
        State::Retry(StateName::RawTextBetween)
    }
}

/// Between something and something else.
pub open spec fn spec_between(t: TokenizerView) -> (TokenizerView, State) {
    match t.current {
        None => (reset(t), State::Nok),
        Some(b) => if b == 10 {
            (
                t.enter(Name::LineEnding).consume().exit(Name::LineEnding),
                State::Next(StateName::RawTextBetween),
            )
        } else if b == t.ts.marker {
            (t.enter(t.ts.token_2), State::Retry(StateName::RawTextSequenceClose))
        } else {
            (t.enter(t.ts.token_3), State::Retry(StateName::RawTextData))
        },
    }
}

/// Between something and something else.
///
/// ```markdown
/// > | `a`
///      ^^
/// ```
pub fn between(tokenizer: &mut Tokenizer) -> (r: State)
    ensures
        (final(tokenizer)@, r) == spec_between(old(tokenizer)@),
{
    match tokenizer.current {
        None => {
            tokenizer.set_marker(0);
            tokenizer.set_size(0);
            tokenizer.set_token_1(Name::Data);
            tokenizer.set_token_2(Name::Data);
            tokenizer.set_token_3(Name::Data);
            State::Nok
        },
        Some(10) => {
            tokenizer.enter(Name::LineEnding);
            tokenizer.consume();
            tokenizer.exit(Name::LineEnding);
            State::Next(StateName::RawTextBetween)
        },
        _ => {
            if tokenizer.current == Some(tokenizer.tokenize_state.marker) {
                let token_2 = tokenizer.tokenize_state.token_2;
                tokenizer.enter(token_2);
                State::Retry(StateName::RawTextSequenceClose)
            } else {
                let token_3 = tokenizer.tokenize_state.token_3;
                tokenizer.enter(token_3);
                State::Retry(StateName::RawTextData)
            }
        },
    }
}

/// In data: up to a line ending, a marker, or the end.
pub open spec fn spec_data(t: TokenizerView) -> (TokenizerView, State) {
    if t.at_eol_or_eof() || t.current == Some(t.ts.marker) {
        (t.exit(t.ts.token_3), State::Retry(StateName::RawTextBetween))
    } else {
        (t.consume(), State::Next(StateName::RawTextData))
    }
}

/// In data.
///
/// ```markdown
/// > | `a`
///      ^
/// ```
pub fn data(tokenizer: &mut Tokenizer) -> (r: State)
    ensures
        (final(tokenizer)@, r) == spec_data(old(tokenizer)@),
{
    if matches!(tokenizer.current, None | Some(10)) || tokenizer.current == Some(
        tokenizer.tokenize_state.marker,
    ) {
        let token_3 = tokenizer.tokenize_state.token_3;
        tokenizer.exit(token_3);
        State::Retry(StateName::RawTextBetween)
    } else {
        tokenizer.consume();
        State::Next(StateName::RawTextData)
    }
}

/// What `sequence_close` needs: the count does not overflow, and there is
/// an event before the sequence that it may turn into data.
pub open spec fn pre_sequence_close(t: TokenizerView) -> bool {
    t.ts.size_b < usize::MAX && t.events.len() > 0
}

/// The events with the two last renamed.
pub open spec fn rename_last_two(events: Seq<Event>, name: Name) -> Seq<Event> {
    let len = events.len();
    events.update(len - 2, Event { name, ..events[len - 2] }).update(
        len - 1,
        Event { name, ..events[len - 1] },
    )
}

/// In the closing sequence: count markers; when the count matches the
/// opening, done; otherwise the sequence is data.
pub open spec fn spec_sequence_close(t: TokenizerView) -> (TokenizerView, State) {
    if t.current == Some(t.ts.marker) {
        (
            t.set_size_b((t.ts.size_b + 1) as usize).consume(),
            State::Next(StateName::RawTextSequenceClose),
        )
    } else {
        let t1 = t.exit(t.ts.token_2);
        if t.ts.size == t.ts.size_b {
            let t2 = t1.exit(t.ts.token_1);
            (
                t2.set_marker(0).set_size(0).set_size_b(0).set_token_1(Name::Data).set_token_2(
                    Name::Data,
                ).set_token_3(Name::Data),
                State::Okay,
            )
        } else {
            (
                TokenizerView { events: rename_last_two(t1.events, t.ts.token_3), ..t1 }.set_size_b(0),
                State::Retry(StateName::RawTextBetween),
            )
        }
    }
}

/// In closing sequence.
///
/// ```markdown
/// > | `a`
///       ^
/// ```
pub fn sequence_close(tokenizer: &mut Tokenizer) -> (r: State)
    requires
        pre_sequence_close(old(tokenizer)@),
    ensures
        (final(tokenizer)@, r) == spec_sequence_close(old(tokenizer)@),
{
    if tokenizer.current == Some(tokenizer.tokenize_state.marker) {
        tokenizer.set_size_b(tokenizer.tokenize_state.size_b + 1);
        tokenizer.consume();
        State::Next(StateName::RawTextSequenceClose)
    } else {
        let token_2 = tokenizer.tokenize_state.token_2;
        tokenizer.exit(token_2);
        if tokenizer.tokenize_state.size == tokenizer.tokenize_state.size_b {
            let token_1 = tokenizer.tokenize_state.token_1;
            tokenizer.exit(token_1);
            tokenizer.set_marker(0);
            tokenizer.set_size(0);
            tokenizer.set_size_b(0);
            tokenizer.set_token_1(Name::Data);
            tokenizer.set_token_2(Name::Data);
            tokenizer.set_token_3(Name::Data);
            State::Okay
        } else {
            // More or less accents: mark as data.
            let len = tokenizer.events.len();
            let token_3 = tokenizer.tokenize_state.token_3;
            let mut before = tokenizer.events[len - 2];
            before.name = token_3;
            tokenizer.events.set(len - 2, before);
            let mut last = tokenizer.events[len - 1];
            last.name = token_3;
            tokenizer.events.set(len - 1, last);
            tokenizer.set_size_b(0);
            State::Retry(StateName::RawTextBetween)
        }
    }
}

/// Whether `sequence_open` can run.
pub fn can_sequence_open(tokenizer: &Tokenizer) -> (r: bool)
    ensures
        r == pre_sequence_open(tokenizer@),
{
    tokenizer.tokenize_state.size < usize::MAX
}

/// Whether `sequence_close` can run.
pub fn can_sequence_close(tokenizer: &Tokenizer) -> (r: bool)
    ensures
        r == pre_sequence_close(tokenizer@),
{
    tokenizer.tokenize_state.size_b < usize::MAX && tokenizer.events.len() > 0
}


/// Once a closing sequence is being read, code (text) does not fail there:
/// after the sequence, the span ends exactly when the sequence is as long
/// as the opening one; a sequence of another size becomes data (its enter
/// and exit renamed to the data name) and the span goes on.
pub proof fn lemma_sequence_close_other_size_is_data(t: TokenizerView)
    requires
        pre_sequence_close(t),
    ensures
        spec_sequence_close(t).1 != State::Nok,
        t.current != Some(t.ts.marker) ==> (spec_sequence_close(t).1 == State::Okay <==> t.ts.size
            == t.ts.size_b),
        t.current != Some(t.ts.marker) && t.ts.size != t.ts.size_b ==> {
            let r = spec_sequence_close(t).0;
            &&& spec_sequence_close(t).1 == State::Retry(StateName::RawTextBetween)
            &&& r.events.len() == t.events.len() + 1
            &&& r.events[r.events.len() - 1].name == t.ts.token_3
            &&& r.events[r.events.len() - 1].kind == crate::event::Kind::Exit
            &&& r.events[r.events.len() - 2].name == t.ts.token_3
            &&& r.point == t.point
            &&& r.ts.size == t.ts.size
            &&& r.ts.marker == t.ts.marker
            &&& r.ts.size_b == 0
        },
{
}

} // verus!

//! Raw (flow) occurs in the flow content type: code (fenced) and math (flow).
//!
//! ```bnf
//! raw_flow ::= fence_open *( eol *byte ) [ eol fence_close ]
//!
//! ; Restriction: math (flow) does not support the `info` part.
//! fence_open ::= sequence [1*space_or_tab info [1*space_or_tab meta]] *space_or_tab
//! ; Restriction: the number of markers in the closing fence sequence must be
//! ; equal to or greater than the number of markers in the opening fence
//! ; sequence.
//! ; Restriction: the marker in the closing fence sequence must match the
//! ; marker in the opening fence sequence
//! fence_close ::= sequence *space_or_tab
//! sequence ::= 3*'`' | 3*'~' | 2*'$'
//! ; Restriction: the marker cannot occur in `info` if it is the `$` or `` ` `` character.
//! info ::= 1*text
//! ; Restriction: the marker cannot occur in `meta` if it is the `$` or `` ` `` character.
//! meta ::= 1*text *(*space_or_tab 1*text)
//! ```

use vstd::prelude::*;
use crate::construct::list_item::{check_fits, fits, measure_prefix, prefix_size};
use crate::construct::partial_space_or_tab::{space_or_tab, space_or_tab_min_max, spec_min_max};
use crate::construct::thematic_break::flow_indent_max;
use crate::event::{Content, Event, Kind, Link, Name};
use crate::state::{Name as StateName, State};
use crate::tokenizer::{Tokenizer, TokenizerView};
use crate::util::constant::{CODE_FENCED_SEQUENCE_SIZE_MIN, MATH_FLOW_SEQUENCE_SIZE_MIN, TAB_SIZE};

verus! {

/// The link that info and meta carry: to string.
pub open spec fn string_link() -> Link {
    Link { previous: None, next: None, content: Content::String }
}

/// The construct state, reset.
pub open spec fn reset(t: TokenizerView) -> TokenizerView {
    t.set_marker(0).set_size_c(0).set_size(0).set_token_1(Name::Data).set_token_2(
        Name::Data,
    ).set_token_3(Name::Data).set_token_4(Name::Data).set_token_5(Name::Data).set_token_6(
        Name::Data,
    )
}

fn reset_state(tokenizer: &mut Tokenizer)
    ensures
        final(tokenizer)@ == reset(old(tokenizer)@),
{
    tokenizer.set_marker(0);
    tokenizer.set_size_c(0);
    tokenizer.set_size(0);
    tokenizer.set_token_1(Name::Data);
    tokenizer.set_token_2(Name::Data);
    tokenizer.set_token_3(Name::Data);
    tokenizer.set_token_4(Name::Data);
    tokenizer.set_token_5(Name::Data);
    tokenizer.set_token_6(Name::Data);
}

/// Whether a byte can start a fence (`$`, `` ` ``, `~`).
pub open spec fn is_fence_byte(b: u8) -> bool {
    b == 36 || b == 96 || b == 126
}

/// Start: when turned on, after optional whitespace, at a fence.
pub open spec fn spec_start(t: TokenizerView) -> (TokenizerView, State) {
    if t.options.constructs.code_fenced || t.options.constructs.math_flow {
        if t.at_space_or_tab() {
            let t1 = t.attempt(State::Next(StateName::RawFlowBeforeSequenceOpen), State::Nok);
            (spec_min_max(t1, 0, flow_indent_max(t)), State::Retry(StateName::SpaceOrTabStart))
        } else if t.current is Some && is_fence_byte(t.current.unwrap()) {
            (t, State::Retry(StateName::RawFlowBeforeSequenceOpen))
        } else {
            (t, State::Nok)
        }
    } else {
        (t, State::Nok)
    }
}

/// Start of raw.
///
/// ```markdown
/// > | ~~~js
///     ^
///   | console.log(1)
///   | ~~~
/// ```
pub fn start(tokenizer: &mut Tokenizer) -> (r: State)
    ensures
        (final(tokenizer)@, r) == spec_start(old(tokenizer)@),
{
    if tokenizer.parse_state.options.constructs.code_fenced
        || tokenizer.parse_state.options.constructs.math_flow {
        if matches!(tokenizer.current, Some(9 | 32)) {
            tokenizer.attempt(State::Next(StateName::RawFlowBeforeSequenceOpen), State::Nok);
            let max = if tokenizer.parse_state.options.constructs.code_indented {
                TAB_SIZE - 1
            } else {
                usize::MAX
            };
            return State::Retry(space_or_tab_min_max(tokenizer, 0, max));
        }
        if matches!(tokenizer.current, Some(36 | 96 | 126)) {
            return State::Retry(StateName::RawFlowBeforeSequenceOpen);
        }
    }
    State::Nok
}

/// The index of the last enter event named `name` at or before `index`.
pub open spec fn enter_before(events: Seq<Event>, name: Name, index: int) -> Option<int>
    decreases index + 1,
{
    if index < 0 {
        None
    } else if events[index].kind == Kind::Enter && events[index].name == name {
        Some(index)
    } else {
        enter_before(events, name, index - 1)
    }
}

/// The size, in columns, of the whitespace that the last event (a
/// `SpaceOrTab` exit) spans, counting the virtual spaces of tabs, when its
/// enter comes before it and the span lies in a document of `len` bytes.
pub open spec fn space_size(events: Seq<Event>, len: int) -> Option<usize> {
    let last = events.len() - 1;
    match enter_before(events, Name::SpaceOrTab, last - 1) {
        Some(i) => if fits(events[i].point, events[last].point, len, false) {
            Some(prefix_size(events[i].point, events[last].point, false) as usize)
        } else {
            None
        },
        None => None,
    }
}

/// What `before_sequence_open` needs: when the last event is whitespace,
/// its size can be measured.
pub open spec fn pre_before_sequence_open(t: TokenizerView) -> bool {
    (t.events.len() > 0 && t.events.last().name == Name::SpaceOrTab) ==> space_size(t.events, t.bytes.len() as int) is Some
}

/// The whitespace before the fence.
pub open spec fn prefix(t: TokenizerView) -> usize {
    if t.events.len() > 0 && t.events.last().name == Name::SpaceOrTab {
        space_size(t.events, t.bytes.len() as int).unwrap()
    } else {
        0
    }
}

/// The names of code (fenced) or math (flow), for a marker.
pub open spec fn with_tokens(t: TokenizerView, marker: u8) -> TokenizerView {
    if marker == 36 {
        t.set_token_1(Name::MathFlow).set_token_2(Name::MathFlowFence).set_token_3(
            Name::MathFlowFenceSequence,
        ).set_token_5(Name::MathFlowFenceMeta).set_token_6(Name::MathFlowChunk)
    } else {
        t.set_token_1(Name::CodeFenced).set_token_2(Name::CodeFencedFence).set_token_3(
            Name::CodeFencedFenceSequence,
        ).set_token_4(Name::CodeFencedFenceInfo).set_token_5(Name::CodeFencedFenceMeta).set_token_6(
            Name::CodeFlowChunk,
        )
    }
}

/// At the opening fence: remember the marker, the whitespace before, and
/// the names; enter the fence.
pub open spec fn spec_before_sequence_open(t: TokenizerView) -> (TokenizerView, State) {
    if (t.options.constructs.code_fenced && (t.current == Some(96u8) || t.current == Some(126u8)))
        || (t.options.constructs.math_flow && t.current == Some(36u8)) {
        let marker = t.current.unwrap();
        let t1 = with_tokens(t.set_marker(marker).set_size_c(prefix(t)), marker);
        (
            t1.enter(t1.ts.token_1).enter(t1.ts.token_2).enter(t1.ts.token_3),
            State::Retry(StateName::RawFlowSequenceOpen),
        )
    } else {
        (t, State::Nok)
    }
}

/// The size of the whitespace before the fence.
fn whitespace_prefix(tokenizer: &Tokenizer) -> (r: usize)
    requires
        pre_before_sequence_open(tokenizer@),
    ensures
        r == prefix(tokenizer@),
{
    let len = tokenizer.events.len();
    if len > 0 && tokenizer.events[len - 1].name == Name::SpaceOrTab {
        measure_space(&tokenizer.events, tokenizer.parse_state.bytes.len()).unwrap()
    } else {
        0
    }
}

/// At the opening fence, after optional whitespace.
///
/// ```markdown
/// > | ~~~js
///     ^
///   | console.log(1)
///   | ~~~
/// ```
pub fn before_sequence_open(tokenizer: &mut Tokenizer) -> (r: State)
    requires
        pre_before_sequence_open(old(tokenizer)@),
    ensures
        (final(tokenizer)@, r) == spec_before_sequence_open(old(tokenizer)@),
{
    let prefix = whitespace_prefix(tokenizer);
    if (tokenizer.parse_state.options.constructs.code_fenced && matches!(
        tokenizer.current,
        Some(96 | 126)
    )) || (tokenizer.parse_state.options.constructs.math_flow && tokenizer.current == Some(36)) {
        let marker = tokenizer.current.unwrap();
        tokenizer.set_marker(marker);
        tokenizer.set_size_c(prefix);
        if marker == 36 {
            tokenizer.set_token_1(Name::MathFlow);
            tokenizer.set_token_2(Name::MathFlowFence);
            tokenizer.set_token_3(Name::MathFlowFenceSequence);
            // Math (flow) does not support an `info` part: everything after the
            // opening sequence is the `meta` part.
            tokenizer.set_token_5(Name::MathFlowFenceMeta);
            tokenizer.set_token_6(Name::MathFlowChunk);
        } else {
            tokenizer.set_token_1(Name::CodeFenced);
            tokenizer.set_token_2(Name::CodeFencedFence);
            tokenizer.set_token_3(Name::CodeFencedFenceSequence);
            tokenizer.set_token_4(Name::CodeFencedFenceInfo);
            tokenizer.set_token_5(Name::CodeFencedFenceMeta);
            tokenizer.set_token_6(Name::CodeFlowChunk);
        }
        let (token_1, token_2, token_3) = (
            tokenizer.tokenize_state.token_1,
            tokenizer.tokenize_state.token_2,
            tokenizer.tokenize_state.token_3,
        );
        tokenizer.enter(token_1);
        tokenizer.enter(token_2);
        tokenizer.enter(token_3);
        State::Retry(StateName::RawFlowSequenceOpen)
    } else {
        State::Nok
    }
}

/// The fewest markers a fence needs.
pub open spec fn sequence_min(marker: u8) -> usize {
    if marker == 36 {
        MATH_FLOW_SEQUENCE_SIZE_MIN
    } else {
        CODE_FENCED_SEQUENCE_SIZE_MIN
    }
}

/// What `sequence_open` needs: the count does not overflow.
pub open spec fn pre_sequence_open(t: TokenizerView) -> bool {
    t.ts.size < usize::MAX
}

/// In the opening sequence: count markers; too few fail; then info (or,
/// for math, meta).
pub open spec fn spec_sequence_open(t: TokenizerView) -> (TokenizerView, State) {
    if t.current == Some(t.ts.marker) {
        (t.set_size((t.ts.size + 1) as usize).consume(), State::Next(StateName::RawFlowSequenceOpen))
    } else if t.ts.size < sequence_min(t.ts.marker) {
        (reset(t), State::Nok)
    } else {
        let next = if t.ts.marker == 36 {
            StateName::RawFlowMetaBefore
        } else {
            StateName::RawFlowInfoBefore
        };
        let t1 = t.exit(t.ts.token_3);
        if t.at_space_or_tab() {
            (
                spec_min_max(t1.attempt(State::Next(next), State::Nok), 1, usize::MAX),
                State::Retry(StateName::SpaceOrTabStart),
            )
        } else {
            (t1, State::Retry(next))
        }
    }
}

/// In opening fence sequence.
///
/// ```markdown
/// > | ~~~js
///      ^
///   | console.log(1)
///   | ~~~
/// ```
pub fn sequence_open(tokenizer: &mut Tokenizer) -> (r: State)
    requires
        pre_sequence_open(old(tokenizer)@),
    ensures
        (final(tokenizer)@, r) == spec_sequence_open(old(tokenizer)@),
{
    let min = if tokenizer.tokenize_state.marker == 36 {
        MATH_FLOW_SEQUENCE_SIZE_MIN
    } else {
        CODE_FENCED_SEQUENCE_SIZE_MIN
    };
    if tokenizer.current == Some(tokenizer.tokenize_state.marker) {
        let size = tokenizer.tokenize_state.size;
        tokenizer.set_size(size + 1);
        tokenizer.consume();
        State::Next(StateName::RawFlowSequenceOpen)
    } else if tokenizer.tokenize_state.size < min {
        reset_state(tokenizer);
        State::Nok
    } else {
        // Math (flow) does not support an `info` part: everything after the
        // opening sequence is the `meta` part.
        let next = if tokenizer.tokenize_state.marker == 36 {
            StateName::RawFlowMetaBefore
        } else {
            StateName::RawFlowInfoBefore
        };
        let token_3 = tokenizer.tokenize_state.token_3;
        if matches!(tokenizer.current, Some(9 | 32)) {
            tokenizer.exit(token_3);
            tokenizer.attempt(State::Next(next), State::Nok);
            State::Retry(space_or_tab(tokenizer))
        } else {
            tokenizer.exit(token_3);
            State::Retry(next)
        }
    }
}

/// At the end of the opening fence: check whether content follows (on a
/// non-lazy line); otherwise, info.
pub open spec fn spec_info_before(t: TokenizerView) -> (TokenizerView, State) {
    if t.at_eol_or_eof() {
        (
            t.exit(t.ts.token_2).set_concrete(true).check(
                State::Next(StateName::RawFlowAtNonLazyBreak),
                State::Next(StateName::RawFlowAfter),
            ),
            State::Retry(StateName::NonLazyContinuationStart),
        )
    } else {
        (
            t.enter(t.ts.token_4).enter_link(Name::Data, string_link()),
            State::Retry(StateName::RawFlowInfo),
        )
    }
}

/// In opening fence, after prefix, at sequence.
///
/// ```markdown
/// > | ~~~js
///        ^
///   | console.log(1)
///   | ~~~
/// ```
pub fn info_before(tokenizer: &mut Tokenizer) -> (r: State)
    ensures
        (final(tokenizer)@, r) == spec_info_before(old(tokenizer)@),
{
    match tokenizer.current {
        None | Some(10) => {
            let token_2 = tokenizer.tokenize_state.token_2;
            tokenizer.exit(token_2);
            // Do not form containers.
            tokenizer.set_concrete(true);
            tokenizer.check(
                State::Next(StateName::RawFlowAtNonLazyBreak),
                State::Next(StateName::RawFlowAfter),
            );
            State::Retry(StateName::NonLazyContinuationStart)
        },
        _ => {
            let token_4 = tokenizer.tokenize_state.token_4;
            tokenizer.enter(token_4);
            tokenizer.enter_link(
                Name::Data,
                Link { previous: None, next: None, content: Content::String },
            );
            State::Retry(StateName::RawFlowInfo)
        },
    }
}

/// Whether a byte, the marker, cannot occur in info or meta (`$`, `` ` ``).
pub open spec fn marker_in_text(t: TokenizerView, b: u8) -> bool {
    t.ts.marker == b && (b == 36 || b == 96)
}

/// In info: up to whitespace (then meta) or the eol; the marker fails.
pub open spec fn spec_info(t: TokenizerView) -> (TokenizerView, State) {
    match t.current {
        None => (t.exit(Name::Data).exit(t.ts.token_4), State::Retry(StateName::RawFlowInfoBefore)),
        Some(b) => if b == 10 {
            (t.exit(Name::Data).exit(t.ts.token_4), State::Retry(StateName::RawFlowInfoBefore))
        } else if b == 9 || b == 32 {
            (
                spec_min_max(
                    t.exit(Name::Data).exit(t.ts.token_4).attempt(
                        State::Next(StateName::RawFlowMetaBefore),
                        State::Nok,
                    ),
                    1,
                    usize::MAX,
                ),
                State::Retry(StateName::SpaceOrTabStart),
            )
        } else if marker_in_text(t, b) {
            (reset(t.set_concrete(false)), State::Nok)
        } else {
            (t.consume(), State::Next(StateName::RawFlowInfo))
        },
    }
}

/// In info.
///
/// ```markdown
/// > | ~~~js
///        ^
///   | console.log(1)
///   | ~~~
/// ```
pub fn info(tokenizer: &mut Tokenizer) -> (r: State)
    ensures
        (final(tokenizer)@, r) == spec_info(old(tokenizer)@),
{
    match tokenizer.current {
        None | Some(10) => {
            let token_4 = tokenizer.tokenize_state.token_4;
            tokenizer.exit(Name::Data);
            tokenizer.exit(token_4);
            State::Retry(StateName::RawFlowInfoBefore)
        },
        Some(9 | 32) => {
            let token_4 = tokenizer.tokenize_state.token_4;
            tokenizer.exit(Name::Data);
            tokenizer.exit(token_4);
            tokenizer.attempt(State::Next(StateName::RawFlowMetaBefore), State::Nok);
            State::Retry(space_or_tab(tokenizer))
        },
        Some(byte) => {
            // This looks like code (text) / math (text).
            // Note: no reason to check for `~`, because 3 of them can‘t be
            // used as strikethrough in text.
            if tokenizer.tokenize_state.marker == byte && (byte == 36 || byte == 96) {
                tokenizer.set_concrete(false);
                reset_state(tokenizer);
                State::Nok
            } else {
                tokenizer.consume();
                State::Next(StateName::RawFlowInfo)
            }
        },
    }
}

/// Before meta: at the eol, back to info-before; otherwise enter meta.
pub open spec fn spec_meta_before(t: TokenizerView) -> (TokenizerView, State) {
    if t.at_eol_or_eof() {
        (t, State::Retry(StateName::RawFlowInfoBefore))
    } else {
        (
            t.enter(t.ts.token_5).enter_link(Name::Data, string_link()),
            State::Retry(StateName::RawFlowMeta),
        )
    }
}

/// In opening fence, after info and whitespace, at meta.
///
/// ```markdown
/// > | ~~~js eval
///           ^
///   | console.log(1)
///   | ~~~
/// ```
pub fn meta_before(tokenizer: &mut Tokenizer) -> (r: State)
    ensures
        (final(tokenizer)@, r) == spec_meta_before(old(tokenizer)@),
{
    match tokenizer.current {
        None | Some(10) => State::Retry(StateName::RawFlowInfoBefore),
        _ => {
            let token_5 = tokenizer.tokenize_state.token_5;
            tokenizer.enter(token_5);
            tokenizer.enter_link(
                Name::Data,
                Link { previous: None, next: None, content: Content::String },
            );
            State::Retry(StateName::RawFlowMeta)
        },
    }
}

/// In meta: up to the eol; the marker fails.
pub open spec fn spec_meta(t: TokenizerView) -> (TokenizerView, State) {
    match t.current {
        None => (t.exit(Name::Data).exit(t.ts.token_5), State::Retry(StateName::RawFlowInfoBefore)),
        Some(b) => if b == 10 {
            (t.exit(Name::Data).exit(t.ts.token_5), State::Retry(StateName::RawFlowInfoBefore))
        } else if marker_in_text(t, b) {
            (reset(t.set_concrete(false)), State::Nok)
        } else {
            (t.consume(), State::Next(StateName::RawFlowMeta))
        },
    }
}

/// In meta.
///
/// ```markdown
/// > | ~~~js eval
///           ^
///   | console.log(1)
///   | ~~~
/// ```
pub fn meta(tokenizer: &mut Tokenizer) -> (r: State)
    ensures
        (final(tokenizer)@, r) == spec_meta(old(tokenizer)@),
{
    match tokenizer.current {
        None | Some(10) => {
            let token_5 = tokenizer.tokenize_state.token_5;
            tokenizer.exit(Name::Data);
            tokenizer.exit(token_5);
            State::Retry(StateName::RawFlowInfoBefore)
        },
        Some(byte) => {
            // This looks like code (text) / math (text).
            if tokenizer.tokenize_state.marker == byte && (byte == 36 || byte == 96) {
                tokenizer.set_concrete(false);
                reset_state(tokenizer);
                State::Nok
            } else {
                tokenizer.consume();
                State::Next(StateName::RawFlowMeta)
            }
        },
    }
}

/// At an eol that is followed by a non-lazy line: try a closing fence, and
/// otherwise content.
pub open spec fn spec_at_non_lazy_break(t: TokenizerView) -> (TokenizerView, State) {
    (
        t.attempt(State::Next(StateName::RawFlowAfter), State::Next(StateName::RawFlowContentBefore)).enter(
            Name::LineEnding,
        ).consume().exit(Name::LineEnding),
        State::Next(StateName::RawFlowCloseStart),
    )
}

/// At eol, trying to parse another line.
///
/// ```markdown
/// > | ~~~js
///          ^
/// > | console.log(1)
///   | ~~~
/// ```
pub fn at_non_lazy_break(tokenizer: &mut Tokenizer) -> (r: State)
    ensures
        (final(tokenizer)@, r) == spec_at_non_lazy_break(old(tokenizer)@),
{
    tokenizer.attempt(State::Next(StateName::RawFlowAfter), State::Next(StateName::RawFlowContentBefore));
    tokenizer.enter(Name::LineEnding);
    tokenizer.consume();
    tokenizer.exit(Name::LineEnding);
    State::Next(StateName::RawFlowCloseStart)
}

/// Before a closing fence: enter it, after optional whitespace.
pub open spec fn spec_close_start(t: TokenizerView) -> (TokenizerView, State) {
    let t1 = t.enter(t.ts.token_2);
    if t.at_space_or_tab() {
        (
            spec_min_max(
                t1.attempt(State::Next(StateName::RawFlowBeforeSequenceClose), State::Nok),
                0,
                flow_indent_max(t),
            ),
            State::Retry(StateName::SpaceOrTabStart),
        )
    } else {
        (t1, State::Retry(StateName::RawFlowBeforeSequenceClose))
    }
}

/// Before closing fence, at optional whitespace.
///
/// ```markdown
///   | ~~~js
///   | console.log(1)
/// > | ~~~
///     ^
/// ```
pub fn close_start(tokenizer: &mut Tokenizer) -> (r: State)
    ensures
        (final(tokenizer)@, r) == spec_close_start(old(tokenizer)@),
{
    let token_2 = tokenizer.tokenize_state.token_2;
    tokenizer.enter(token_2);
    if matches!(tokenizer.current, Some(9 | 32)) {
        tokenizer.attempt(State::Next(StateName::RawFlowBeforeSequenceClose), State::Nok);
        let max = if tokenizer.parse_state.options.constructs.code_indented {
            TAB_SIZE - 1
        } else {
            usize::MAX
        };
        State::Retry(space_or_tab_min_max(tokenizer, 0, max))
    } else {
        State::Retry(StateName::RawFlowBeforeSequenceClose)
    }
}

/// At the closing sequence: enter it at the marker.
pub open spec fn spec_before_sequence_close(t: TokenizerView) -> (TokenizerView, State) {
    if t.current == Some(t.ts.marker) {
        (t.enter(t.ts.token_3), State::Retry(StateName::RawFlowSequenceClose))
    } else {
        (t, State::Nok)
    }
}

/// In closing fence, after optional whitespace, at sequence.
///
/// ```markdown
///   | ~~~js
///   | console.log(1)
/// > | ~~~
///     ^
/// ```
pub fn before_sequence_close(tokenizer: &mut Tokenizer) -> (r: State)
    ensures
        (final(tokenizer)@, r) == spec_before_sequence_close(old(tokenizer)@),
{
    if tokenizer.current == Some(tokenizer.tokenize_state.marker) {
        let token_3 = tokenizer.tokenize_state.token_3;
        tokenizer.enter(token_3);
        State::Retry(StateName::RawFlowSequenceClose)
    } else {
        State::Nok
    }
}

/// What `sequence_close` needs: the count does not overflow.
pub open spec fn pre_sequence_close(t: TokenizerView) -> bool {
    t.ts.size_b < usize::MAX
}

/// In the closing sequence: count markers; at least as many as the opening
/// are needed.
pub open spec fn spec_sequence_close(t: TokenizerView) -> (TokenizerView, State) {
    if t.current == Some(t.ts.marker) {
        (
            t.set_size_b((t.ts.size_b + 1) as usize).consume(),
            State::Next(StateName::RawFlowSequenceClose),
        )
    } else if t.ts.size_b >= t.ts.size {
        let t1 = t.set_size_b(0).exit(t.ts.token_3);
        if t.at_space_or_tab() {
            (
                spec_min_max(
                    t1.attempt(State::Next(StateName::RawFlowAfterSequenceClose), State::Nok),
                    1,
                    usize::MAX,
                ),
                State::Retry(StateName::SpaceOrTabStart),
            )
        } else {
            (t1, State::Retry(StateName::RawFlowAfterSequenceClose))
        }
    } else {
        (t.set_size_b(0), State::Nok)
    }
}

/// In closing fence sequence.
///
/// ```markdown
///   | ~~~js
///   | console.log(1)
/// > | ~~~
///     ^
/// ```
pub fn sequence_close(tokenizer: &mut Tokenizer) -> (r: State)
    requires
        pre_sequence_close(old(tokenizer)@),
    ensures
        (final(tokenizer)@, r) == spec_sequence_close(old(tokenizer)@),
{
    if tokenizer.current == Some(tokenizer.tokenize_state.marker) {
        let size_b = tokenizer.tokenize_state.size_b;
        tokenizer.set_size_b(size_b + 1);
        tokenizer.consume();
        State::Next(StateName::RawFlowSequenceClose)
    } else if tokenizer.tokenize_state.size_b >= tokenizer.tokenize_state.size {
        tokenizer.set_size_b(0);
        let token_3 = tokenizer.tokenize_state.token_3;
        tokenizer.exit(token_3);
        if matches!(tokenizer.current, Some(9 | 32)) {
            tokenizer.attempt(State::Next(StateName::RawFlowAfterSequenceClose), State::Nok);
            State::Retry(space_or_tab(tokenizer))
        } else {
            State::Retry(StateName::RawFlowAfterSequenceClose)
        }
    } else {
        tokenizer.set_size_b(0);
        State::Nok
    }
}

/// After the closing sequence: the fence ends at an eol or the end.
pub open spec fn spec_sequence_close_after(t: TokenizerView) -> (TokenizerView, State) {
    if t.at_eol_or_eof() {
        (t.exit(t.ts.token_2), State::Okay)
    } else {
        (t, State::Nok)
    }
}

/// After closing fence sequence, after optional whitespace.
///
/// ```markdown
///   | ~~~js
///   | console.log(1)
/// > | ~~~
///        ^
/// ```
pub fn sequence_close_after(tokenizer: &mut Tokenizer) -> (r: State)
    ensures
        (final(tokenizer)@, r) == spec_sequence_close_after(old(tokenizer)@),
{
    match tokenizer.current {
        None | Some(10) => {
            let token_2 = tokenizer.tokenize_state.token_2;
            tokenizer.exit(token_2);
            State::Okay
        },
        _ => State::Nok,
    }
}

/// Before content: take the eol.
pub open spec fn spec_content_before(t: TokenizerView) -> (TokenizerView, State) {
    (
        t.enter(Name::LineEnding).consume().exit(Name::LineEnding),
        State::Next(StateName::RawFlowContentStart),
    )
}

/// Before raw content, not a closing fence, at eol.
///
/// ```markdown
///   | ~~~js
/// > | console.log(1)
///                   ^
///   | ~~~
/// ```
pub fn content_before(tokenizer: &mut Tokenizer) -> (r: State)
    ensures
        (final(tokenizer)@, r) == spec_content_before(old(tokenizer)@),
{
    tokenizer.enter(Name::LineEnding);
    tokenizer.consume();
    tokenizer.exit(Name::LineEnding);
    State::Next(StateName::RawFlowContentStart)
}

/// At the start of a content line: whitespace up to the prefix of the
/// opening fence.
pub open spec fn spec_content_start(t: TokenizerView) -> (TokenizerView, State) {
    if t.at_space_or_tab() {
        (
            spec_min_max(
                t.attempt(State::Next(StateName::RawFlowBeforeContentChunk), State::Nok),
                0,
                t.ts.size_c,
            ),
            State::Retry(StateName::SpaceOrTabStart),
        )
    } else {
        (t, State::Retry(StateName::RawFlowBeforeContentChunk))
    }
}

/// Before raw content, not a closing fence.
///
/// ```markdown
///   | ~~~js
/// > | console.log(1)
///     ^
///   | ~~~
/// ```
pub fn content_start(tokenizer: &mut Tokenizer) -> (r: State)
    ensures
        (final(tokenizer)@, r) == spec_content_start(old(tokenizer)@),
{
    if matches!(tokenizer.current, Some(9 | 32)) {
        tokenizer.attempt(State::Next(StateName::RawFlowBeforeContentChunk), State::Nok);
        let size_c = tokenizer.tokenize_state.size_c;
        State::Retry(space_or_tab_min_max(tokenizer, 0, size_c))
    } else {
        State::Retry(StateName::RawFlowBeforeContentChunk)
    }
}

/// Before a chunk: at the eol, check for a non-lazy line; otherwise enter
/// the chunk.
pub open spec fn spec_before_content_chunk(t: TokenizerView) -> (TokenizerView, State) {
    if t.at_eol_or_eof() {
        (
            t.check(State::Next(StateName::RawFlowAtNonLazyBreak), State::Next(StateName::RawFlowAfter)),
            State::Retry(StateName::NonLazyContinuationStart),
        )
    } else {
        (t.enter(t.ts.token_6), State::Retry(StateName::RawFlowContentChunk))
    }
}

/// Before raw content, after optional prefix.
///
/// ```markdown
///   | ~~~js
/// > | console.log(1)
///     ^
///   | ~~~
/// ```
pub fn before_content_chunk(tokenizer: &mut Tokenizer) -> (r: State)
    ensures
        (final(tokenizer)@, r) == spec_before_content_chunk(old(tokenizer)@),
{
    match tokenizer.current {
        None | Some(10) => {
            tokenizer.check(
                State::Next(StateName::RawFlowAtNonLazyBreak),
                State::Next(StateName::RawFlowAfter),
            );
            State::Retry(StateName::NonLazyContinuationStart)
        },
        _ => {
            let token_6 = tokenizer.tokenize_state.token_6;
            tokenizer.enter(token_6);
            State::Retry(StateName::RawFlowContentChunk)
        },
    }
}

/// In a chunk: up to the eol.
pub open spec fn spec_content_chunk(t: TokenizerView) -> (TokenizerView, State) {
    if t.at_eol_or_eof() {
        (t.exit(t.ts.token_6), State::Retry(StateName::RawFlowBeforeContentChunk))
    } else {
        (t.consume(), State::Next(StateName::RawFlowContentChunk))
    }
}

/// In raw content.
///
/// ```markdown
///   | ~~~js
/// > | console.log(1)
///     ^^^^^^^^^^^^^^
///   | ~~~
/// ```
pub fn content_chunk(tokenizer: &mut Tokenizer) -> (r: State)
    ensures
        (final(tokenizer)@, r) == spec_content_chunk(old(tokenizer)@),
{
    match tokenizer.current {
        None | Some(10) => {
            let token_6 = tokenizer.tokenize_state.token_6;
            tokenizer.exit(token_6);
            State::Retry(StateName::RawFlowBeforeContentChunk)
        },
        _ => {
            tokenizer.consume();
            State::Next(StateName::RawFlowContentChunk)
        },
    }
}

/// After raw: exit it, reset, and allow interrupting again.
pub open spec fn spec_after(t: TokenizerView) -> (TokenizerView, State) {
    (reset(t.exit(t.ts.token_1)).set_interrupt(false).set_concrete(false), State::Okay)
}

/// After raw.
///
/// ```markdown
///   | ~~~js
///   | console.log(1)
/// > | ~~~
///        ^
/// ```
pub fn after(tokenizer: &mut Tokenizer) -> (r: State)
    ensures
        (final(tokenizer)@, r) == spec_after(old(tokenizer)@),
{
    let token_1 = tokenizer.tokenize_state.token_1;
    tokenizer.exit(token_1);
    reset_state(tokenizer);
    // Feel free to interrupt.
    tokenizer.set_interrupt(false);
    // No longer concrete.
    tokenizer.set_concrete(false);
    State::Okay
}

/// The size of the whitespace that the last event spans, as `space_size`
/// says.
fn measure_space(events: &Vec<Event>, len: usize) -> (r: Option<usize>)
    requires
        events.len() > 0,
    ensures
        r == space_size(events@, len as int),
{
    let last = events.len() - 1;
    let mut index: usize = last;
    while index > 0
        invariant
            index <= last,
            last == events@.len() - 1,
            enter_before(events@, Name::SpaceOrTab, last - 1) == enter_before(
                events@,
                Name::SpaceOrTab,
                index - 1,
            ),
        decreases index,
    {
        let event = events[index - 1];
        if event.kind == Kind::Enter && event.name == Name::SpaceOrTab {
            let end = events[last].point;
            if check_fits(event.point, end, len, false) {
                return Some(measure_prefix(event.point, end, false, Ghost(len as int)));
            } else {
                return None;
            }
        }
        index = index - 1;
    }
    None
}

/// Whether `before_sequence_open` can run.
pub fn can_before_sequence_open(tokenizer: &Tokenizer) -> (r: bool)
    ensures
        r == pre_before_sequence_open(tokenizer@),
{
    let len = tokenizer.events.len();
    if len > 0 && tokenizer.events[len - 1].name == Name::SpaceOrTab {
        measure_space(&tokenizer.events, tokenizer.parse_state.bytes.len()).is_some()
    } else {
        true
    }
}

/// Whether `sequence_open` can run.
pub fn can_sequence_open(tokenizer: &Tokenizer) -> (r: bool)
    ensures
        r == pre_sequence_open(tokenizer@),
{
    tokenizer.tokenize_state.size < usize::MAX
}

/// Whether `sequence_close` can run.
pub fn can_sequence_close(tokenizer: &Tokenizer) -> (r: bool)
    ensures
        r == pre_sequence_close(tokenizer@),
{
    tokenizer.tokenize_state.size_b < usize::MAX
}


/// A fence may be made of tildes as well as of grave accents: at the start,
/// `~` goes where `` ` `` goes (only the byte that is current differs), and
/// with code (fenced) turned on, both go on to the opening sequence without
/// changing the tokenizer.
pub proof fn lemma_start_tilde_like_grave_accent(t: TokenizerView)
    requires
        t.current == Some(126u8),
    ensures
        spec_start(t).1 == spec_start(TokenizerView { current: Some(96u8), ..t }).1,
        spec_start(t).0 == (TokenizerView {
            current: Some(126u8),
            ..spec_start(TokenizerView { current: Some(96u8), ..t }).0
        }),
        t.options.constructs.code_fenced ==> spec_start(t) == (
            t,
            State::Retry(StateName::RawFlowBeforeSequenceOpen),
        ),
{
}


/// With code (fenced) turned on, a tilde opens a fence just as a grave
/// accent does: both go on to count the opening sequence, with the same
/// events (a code (fenced) span, its fence and its sequence), the marker to
/// match set to the byte itself, and the same least sequence size, three.
pub proof fn lemma_fence_tilde_like_grave_accent(t: TokenizerView)
    requires
        t.current == Some(126u8),
        t.options.constructs.code_fenced,
    ensures
        spec_before_sequence_open(t).1 == State::Retry(StateName::RawFlowSequenceOpen),
        spec_before_sequence_open(TokenizerView { current: Some(96u8), ..t }).1 == State::Retry(
            StateName::RawFlowSequenceOpen,
        ),
        spec_before_sequence_open(t).0.events == spec_before_sequence_open(
            TokenizerView { current: Some(96u8), ..t },
        ).0.events,
        spec_before_sequence_open(t).0.events.last().name == Name::CodeFencedFenceSequence,
        spec_before_sequence_open(t).0.ts.marker == 126,
        spec_before_sequence_open(TokenizerView { current: Some(96u8), ..t }).0.ts.marker == 96,
        sequence_min(126) == sequence_min(96) == 3,
{
}

} // verus!

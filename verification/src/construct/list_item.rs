//! List item occurs in the document content type.
//!
//! ```bnf
//! ; Restriction: if there is no space after the marker, the start must be followed by an `eol`.
//! ; Restriction: if the first line after the marker is not blank and starts with `5(space_or_tab)`,
//! ; only the first `space_or_tab` is part of the start.
//! list_item_start ::= '*' | '+' | '-' | 1*9(ascii_decimal) ('.' | ')') [1*4 space_or_tab]
//!
//! ; Restriction: blank line allowed, except when this is the first continuation after a blank start.
//! ; Restriction: if not blank, the line must be indented, exactly `n` times.
//! list_item_cont ::= [n(space_or_tab)]
//! ```
//!
//! Further lines that are not prefixed with `list_item_cont` cause the list
//! item to be exited, except when those lines are lazy continuation or blank.

use vstd::prelude::*;
use crate::util::edit_map::{adds_at, edits_within, find, out_len, spec_add, spec_consume, EditView};
use crate::util::skip::{lemma_span_close_after, opt, span_close, spec_opt, spec_to, to};
use crate::subtokenize::Subresult;
use crate::construct::partial_space_or_tab::{space_or_tab_min_max, spec_min_max};
use crate::construct::thematic_break::flow_indent_max;
use crate::event::{Event, Kind, Name, Point};
use crate::resolve::Name as ResolveName;
use crate::state::{Name as StateName, State};
use crate::tokenizer::{ContainerState, Tokenizer, TokenizerView};
use crate::util::constant::{LIST_ITEM_VALUE_SIZE_MAX, TAB_SIZE};

verus! {

/// Start: when turned on, enter the item, after optional whitespace.
pub open spec fn spec_start(t: TokenizerView) -> (TokenizerView, State) {
    if t.options.constructs.list_item {
        let t1 = t.enter(Name::ListItem);
        if t.at_space_or_tab() {
            let t2 = t1.attempt(State::Next(StateName::ListItemBefore), State::Nok);
            (spec_min_max(t2, 0, flow_indent_max(t)), State::Retry(StateName::SpaceOrTabStart))
        } else {
            (t1, State::Retry(StateName::ListItemBefore))
        }
    } else {
        (t, State::Nok)
    }
}

/// Start of list item.
///
/// ```markdown
/// > | * a
///     ^
/// ```
pub fn start(tokenizer: &mut Tokenizer) -> (r: State)
    ensures
        (final(tokenizer)@, r) == spec_start(old(tokenizer)@),
{
    if tokenizer.parse_state.options.constructs.list_item {
        tokenizer.enter(Name::ListItem);
        if matches!(tokenizer.current, Some(9 | 32)) {
            tokenizer.attempt(State::Next(StateName::ListItemBefore), State::Nok);
            let max = if tokenizer.parse_state.options.constructs.code_indented {
                TAB_SIZE - 1
            } else {
                usize::MAX
            };
            State::Retry(space_or_tab_min_max(tokenizer, 0, max))
        } else {
            State::Retry(StateName::ListItemBefore)
        }
    } else {
        State::Nok
    }
}

/// Whether a byte is an ASCII digit.
pub open spec fn is_digit(b: u8) -> bool {
    48 <= b <= 57
}

/// Before the marker: `*` and `-` only when the line is not a thematic
/// break, `+`, or a value (any digits at first, only `1` when interrupting).
pub open spec fn spec_before(t: TokenizerView) -> (TokenizerView, State) {
    if t.current == Some(42u8) || t.current == Some(45u8) {
        (
            t.check(State::Nok, State::Next(StateName::ListItemBeforeUnordered)),
            State::Retry(StateName::ThematicBreakStart),
        )
    } else if t.current == Some(43u8) {
        (t, State::Retry(StateName::ListItemBeforeUnordered))
    } else if t.current == Some(49u8) || (t.current matches Some(b) && is_digit(b)
        && !t.interrupt) {
        (t, State::Retry(StateName::ListItemBeforeOrdered))
    } else {
        (t, State::Nok)
    }
}

/// After optional whitespace, at list item prefix.
///
/// ```markdown
/// > | * a
///     ^
/// ```
pub fn before(tokenizer: &mut Tokenizer) -> (r: State)
    ensures
        (final(tokenizer)@, r) == spec_before(old(tokenizer)@),
{
    if matches!(tokenizer.current, Some(42 | 45)) {
        tokenizer.check(State::Nok, State::Next(StateName::ListItemBeforeUnordered));
        State::Retry(StateName::ThematicBreakStart)
    } else if tokenizer.current == Some(43) {
        State::Retry(StateName::ListItemBeforeUnordered)
    } else if tokenizer.current == Some(49) || (matches!(tokenizer.current, Some(48..=57))
        && !tokenizer.interrupt) {
        State::Retry(StateName::ListItemBeforeOrdered)
    } else {
        State::Nok
    }
}

/// At an unordered marker: open the prefix.
pub open spec fn spec_before_unordered(t: TokenizerView) -> (TokenizerView, State) {
    (t.enter(Name::ListItemPrefix), State::Retry(StateName::ListItemMarker))
}

/// At unordered list item marker.
///
/// The line is not a thematic break.
///
/// ```markdown
/// > | * a
///     ^
/// ```
pub fn before_unordered(tokenizer: &mut Tokenizer) -> (r: State)
    ensures
        (final(tokenizer)@, r) == spec_before_unordered(old(tokenizer)@),
{
    tokenizer.enter(Name::ListItemPrefix);
    State::Retry(StateName::ListItemMarker)
}

/// At an ordered value: open the prefix and the value.
pub open spec fn spec_before_ordered(t: TokenizerView) -> (TokenizerView, State) {
    (
        t.enter(Name::ListItemPrefix).enter(Name::ListItemValue),
        State::Retry(StateName::ListItemValue),
    )
}

/// At ordered list item value.
///
/// ```markdown
/// > | 1. a
///     ^
/// ```
pub fn before_ordered(tokenizer: &mut Tokenizer) -> (r: State)
    ensures
        (final(tokenizer)@, r) == spec_before_ordered(old(tokenizer)@),
{
    tokenizer.enter(Name::ListItemPrefix);
    tokenizer.enter(Name::ListItemValue);
    State::Retry(StateName::ListItemValue)
}

/// In a value: a `.` or `)` ends it (when interrupting, only after one
/// digit), a digit continues it while it stays short enough.
pub open spec fn spec_value(t: TokenizerView) -> (TokenizerView, State) {
    if (t.current == Some(46u8) || t.current == Some(41u8)) && (!t.interrupt || t.ts.size < 2) {
        (t.exit(Name::ListItemValue), State::Retry(StateName::ListItemMarker))
    } else if t.current matches Some(b) && is_digit(b) && t.ts.size + 1
        < LIST_ITEM_VALUE_SIZE_MAX {
        (t.set_size((t.ts.size + 1) as usize).consume(), State::Next(StateName::ListItemValue))
    } else {
        (t.set_size(0), State::Nok)
    }
}

/// In ordered list item value.
///
/// ```markdown
/// > | 1. a
///     ^
/// ```
pub fn value(tokenizer: &mut Tokenizer) -> (r: State)
    ensures
        (final(tokenizer)@, r) == spec_value(old(tokenizer)@),
{
    if matches!(tokenizer.current, Some(46 | 41)) && (!tokenizer.interrupt
        || tokenizer.tokenize_state.size < 2) {
        tokenizer.exit(Name::ListItemValue);
        State::Retry(StateName::ListItemMarker)
    } else if matches!(tokenizer.current, Some(48..=57)) && tokenizer.tokenize_state.size
        < LIST_ITEM_VALUE_SIZE_MAX - 1 {
        let size = tokenizer.tokenize_state.size + 1;
        tokenizer.set_size(size);
        tokenizer.consume();
        State::Next(StateName::ListItemValue)
    } else {
        tokenizer.set_size(0);
        State::Nok
    }
}

/// At the marker: take it.
pub open spec fn spec_marker(t: TokenizerView) -> (TokenizerView, State) {
    (
        t.enter(Name::ListItemMarker).consume().exit(Name::ListItemMarker),
        State::Next(StateName::ListItemMarkerAfter),
    )
}

/// At list item marker.
///
/// ```markdown
/// > | * a
///     ^
/// > | 1. b
///      ^
/// ```
pub fn marker(tokenizer: &mut Tokenizer) -> (r: State)
    ensures
        (final(tokenizer)@, r) == spec_marker(old(tokenizer)@),
{
    tokenizer.enter(Name::ListItemMarker);
    tokenizer.consume();
    tokenizer.exit(Name::ListItemMarker);
    State::Next(StateName::ListItemMarkerAfter)
}

/// After the marker: note a blank start, and check for a blank line.
pub open spec fn spec_marker_after(t: TokenizerView) -> (TokenizerView, State) {
    (
        t.set_size(1).check(
            State::Next(StateName::ListItemAfter),
            State::Next(StateName::ListItemMarkerAfterFilled),
        ),
        State::Retry(StateName::BlankLineStart),
    )
}

/// After list item marker.
///
/// ```markdown
/// > | * a
///      ^
/// > | 1. b
///       ^
/// ```
pub fn marker_after(tokenizer: &mut Tokenizer) -> (r: State)
    ensures
        (final(tokenizer)@, r) == spec_marker_after(old(tokenizer)@),
{
    tokenizer.set_size(1);
    tokenizer.check(
        State::Next(StateName::ListItemAfter),
        State::Next(StateName::ListItemMarkerAfterFilled),
    );
    State::Retry(StateName::BlankLineStart)
}

/// After the marker, not blank: try whitespace up to a tab stop.
pub open spec fn spec_marker_after_filled(t: TokenizerView) -> (TokenizerView, State) {
    (
        t.set_size(0).attempt(
            State::Next(StateName::ListItemAfter),
            State::Next(StateName::ListItemPrefixOther),
        ),
        State::Retry(StateName::ListItemWhitespace),
    )
}

/// After list item marker.
///
/// The marker is not followed by a blank line.
///
/// ```markdown
/// > | * a
///      ^
/// ```
pub fn marker_after_filled(tokenizer: &mut Tokenizer) -> (r: State)
    ensures
        (final(tokenizer)@, r) == spec_marker_after_filled(old(tokenizer)@),
{
    tokenizer.set_size(0);
    tokenizer.attempt(
        State::Next(StateName::ListItemAfter),
        State::Next(StateName::ListItemPrefixOther),
    );
    State::Retry(StateName::ListItemWhitespace)
}

/// At whitespace after the marker: one to four spaces or tabs.
pub open spec fn spec_whitespace(t: TokenizerView) -> (TokenizerView, State) {
    (
        spec_min_max(
            t.attempt(State::Next(StateName::ListItemWhitespaceAfter), State::Nok),
            1,
            TAB_SIZE,
        ),
        State::Retry(StateName::SpaceOrTabStart),
    )
}

/// After marker, at whitespace.
///
/// ```markdown
/// > | * a
///      ^
/// ```
pub fn whitespace(tokenizer: &mut Tokenizer) -> (r: State)
    ensures
        (final(tokenizer)@, r) == spec_whitespace(old(tokenizer)@),
{
    tokenizer.attempt(State::Next(StateName::ListItemWhitespaceAfter), State::Nok);
    State::Retry(space_or_tab_min_max(tokenizer, 1, TAB_SIZE))
}

/// After the whitespace: fine unless more whitespace follows.
pub open spec fn spec_whitespace_after(t: TokenizerView) -> (TokenizerView, State) {
    if t.at_space_or_tab() {
        (t, State::Nok)
    } else {
        (t, State::Okay)
    }
}

/// After acceptable whitespace.
///
/// ```markdown
/// > | * a
///      ^
/// ```
pub fn whitespace_after(tokenizer: &mut Tokenizer) -> (r: State)
    ensures
        (final(tokenizer)@, r) == spec_whitespace_after(old(tokenizer)@),
{
    if matches!(tokenizer.current, Some(9 | 32)) {
        State::Nok
    } else {
        State::Okay
    }
}

/// No whitespace, or too much: one space or tab is part of the prefix.
pub open spec fn spec_prefix_other(t: TokenizerView) -> (TokenizerView, State) {
    if t.at_space_or_tab() {
        (
            t.enter(Name::SpaceOrTab).consume().exit(Name::SpaceOrTab),
            State::Next(StateName::ListItemAfter),
        )
    } else {
        (t, State::Nok)
    }
}

/// After marker, followed by no indent or more indent that needed.
///
/// ```markdown
/// > | * a
///      ^
/// ```
pub fn prefix_other(tokenizer: &mut Tokenizer) -> (r: State)
    ensures
        (final(tokenizer)@, r) == spec_prefix_other(old(tokenizer)@),
{
    if matches!(tokenizer.current, Some(9 | 32)) {
        tokenizer.enter(Name::SpaceOrTab);
        tokenizer.consume();
        tokenizer.exit(Name::SpaceOrTab);
        State::Next(StateName::ListItemAfter)
    } else {
        State::Nok
    }
}

/// The index of the last event at or before `index` with the name `name`
/// (`0` when none is found before the first event).
pub open spec fn spec_to_back(events: Seq<Event>, index: int, name: Name) -> int
    decreases index,
{
    if index <= 0 {
        0
    } else if events[index].name == name {
        index
    } else {
        spec_to_back(events, index - 1, name)
    }
}

/// Some event at or before `index` has the name `name`.
pub open spec fn has_back(events: Seq<Event>, index: int, name: Name) -> bool {
    exists|j: int| 0 <= j <= index && #[trigger] events[j].name == name
}

proof fn lemma_to_back(events: Seq<Event>, index: int, name: Name)
    requires
        0 <= index < events.len(),
        has_back(events, index, name),
    ensures
        0 <= spec_to_back(events, index, name) <= index,
        events[spec_to_back(events, index, name)].name == name,
    decreases index,
{
    if index > 0 && events[index].name != name {
        let j = choose|j: int| 0 <= j <= index && #[trigger] events[j].name == name;
        assert(j <= index - 1);
        lemma_to_back(events, index - 1, name);
    }
}

/// Index of the event that opened the current list item.
fn to_back(events: &Vec<Event>, index: usize, name: Name) -> (r: usize)
    requires
        index < events.len(),
        has_back(events@, index as int, name),
    ensures
        r == spec_to_back(events@, index as int, name),
{
    let mut i = index;
    while i > 0 && events[i].name != name
        invariant
            i <= index < events.len(),
            spec_to_back(events@, i as int, name) == spec_to_back(events@, index as int, name),
        decreases i,
    {
        i = i - 1;
    }
    i
}

/// The index of the first byte at or after a point: a point inside a tab
/// (with virtual spaces) is past that tab.
pub open spec fn byte_after(p: Point) -> int {
    if p.vs > 0 {
        p.index + 1
    } else {
        p.index as int
    }
}

/// The number of columns between two points: the bytes between them, plus
/// the virtual spaces of a tab that the start is inside of, plus those of a
/// tab that the end is inside of.
pub open spec fn span_size(start: Point, end: Point) -> int {
    let before = if start.vs > 0 { TAB_SIZE - start.vs } else { 0 };
    let after = if end.vs > 0 { end.vs - 1 } else { 0 };
    byte_after(end) - byte_after(start) + before + after
}

/// The size of the prefix, for an item that opened at `start`.
pub open spec fn prefix_size(start: Point, end: Point, blank: bool) -> int {
    span_size(start, end) + if blank {
        1int
    } else {
        0
    }
}

/// The span from `start` to `end` lies in a document of `len` bytes, and
/// the size of the prefix fits in `usize`.
pub open spec fn fits(start: Point, end: Point, len: int, blank: bool) -> bool {
    &&& start.vs <= TAB_SIZE
    &&& byte_after(start) <= byte_after(end) <= len
    &&& prefix_size(start, end, blank) <= usize::MAX
}

/// What `after` needs when it records the prefix: a list item to measure
/// from, a span that lies inside the document and fits in `usize`, and an
/// open container to record it in.
pub open spec fn pre_after(t: TokenizerView) -> bool {
    !(t.ts.size == 1 && t.interrupt) ==> {
        &&& t.events.len() > 0
        &&& has_back(t.events, t.events.len() - 1, Name::ListItem)
        &&& fits(
            t.events[spec_to_back(t.events, t.events.len() - 1, Name::ListItem)].point,
            t.point,
            t.bytes.len() as int,
            t.ts.size == 1,
        )
        &&& t.ts.document_continued < t.ts.document_container_stack.len()
    }
}

/// After the prefix: a blank start cannot interrupt; otherwise record the
/// size of the prefix and whether the start was blank on the container,
/// close the prefix, and have the items joined into lists afterwards.
pub open spec fn spec_after(t: TokenizerView) -> (TokenizerView, State) {
    let blank = t.ts.size == 1;
    let t1 = t.set_size(0);
    if blank && t.interrupt {
        (t1, State::Nok)
    } else {
        let start = spec_to_back(t.events, t.events.len() - 1, Name::ListItem);
        let prefix = prefix_size(t.events[start].point, t.point, blank);
        let index = t.ts.document_continued;
        let container = t.ts.document_container_stack[index as int];
        (
            t1.set_container(
                index,
                ContainerState { blank_initial: blank, size: prefix as usize, ..container },
            ).exit(Name::ListItemPrefix).register_resolver_before(ResolveName::ListItem),
            State::Okay,
        )
    }
}

/// The size of the prefix of an item that opened at `start`.
pub(crate) fn measure_prefix(start: Point, end: Point, blank: bool, Ghost(len): Ghost<int>) -> (r: usize)
    requires
        fits(start, end, len, blank),
        len <= usize::MAX,
    ensures
        r == prefix_size(start, end, blank),
{
    let from = if start.vs > 0 { start.index + 1 } else { start.index };
    let to = if end.vs > 0 { end.index + 1 } else { end.index };
    let before = if start.vs > 0 { TAB_SIZE - start.vs } else { 0 };
    let after = if end.vs > 0 { end.vs - 1 } else { 0 };
    let mut size = to - from + before + after;
    if blank {
        size = size + 1;
    }
    size
}

/// After list item prefix.
///
/// ```markdown
/// > | * a
///       ^
/// ```
pub fn after(tokenizer: &mut Tokenizer) -> (r: State)
    requires
        pre_after(old(tokenizer)@),
    ensures
        (final(tokenizer)@, r) == spec_after(old(tokenizer)@),
{
    let ghost t = tokenizer@;
    let blank = tokenizer.tokenize_state.size == 1;
    tokenizer.set_size(0);
    if blank && tokenizer.interrupt {
        State::Nok
    } else {
        let last = tokenizer.events.len() - 1;
        let start = to_back(&tokenizer.events, last, Name::ListItem);
        proof {
            lemma_to_back(t.events, last as int, Name::ListItem);
        }
        assert(start == spec_to_back(t.events, t.events.len() - 1, Name::ListItem));
        let begin = tokenizer.events[start].point;
        let bytes_len: usize = tokenizer.parse_state.bytes.len();
        let prefix = measure_prefix(
            begin,
            tokenizer.point,
            blank,
            Ghost(bytes_len as int),
        );
        let index = tokenizer.tokenize_state.document_continued;
        let container = tokenizer.tokenize_state.document_container_stack[index];
        tokenizer.set_container(
            index,
            ContainerState { blank_initial: blank, size: prefix, ..container },
        );
        tokenizer.exit(Name::ListItemPrefix);
        tokenizer.register_resolver_before(ResolveName::ListItem);
        State::Okay
    }
}

/// Start of a continuation line: check whether it is blank.
pub open spec fn spec_cont_start(t: TokenizerView) -> (TokenizerView, State) {
    (
        t.check(
            State::Next(StateName::ListItemContBlank),
            State::Next(StateName::ListItemContFilled),
        ),
        State::Retry(StateName::BlankLineStart),
    )
}

/// Start of list item continuation.
///
/// ```markdown
///   | * a
/// > |   b
///     ^
/// ```
pub fn cont_start(tokenizer: &mut Tokenizer) -> (r: State)
    ensures
        (final(tokenizer)@, r) == spec_cont_start(old(tokenizer)@),
{
    tokenizer.check(
        State::Next(StateName::ListItemContBlank),
        State::Next(StateName::ListItemContFilled),
    );
    State::Retry(StateName::BlankLineStart)
}

/// There is a current container.
pub open spec fn pre_cont(t: TokenizerView) -> bool {
    t.ts.document_continued < t.ts.document_container_stack.len()
}

/// A blank continuation: not allowed right after a blank start; otherwise
/// at most the prefix size of whitespace is part of the item.
pub open spec fn spec_cont_blank(t: TokenizerView) -> (TokenizerView, State) {
    let container = t.ts.document_container_stack[t.ts.document_continued as int];
    if container.blank_initial {
        (t, State::Nok)
    } else if t.at_space_or_tab() {
        (spec_min_max(t, 0, container.size), State::Retry(StateName::SpaceOrTabStart))
    } else {
        (t, State::Okay)
    }
}

/// Start of blank list item continuation.
///
/// ```markdown
///   | * a
/// > |
///     ^
///   |   b
/// ```
pub fn cont_blank(tokenizer: &mut Tokenizer) -> (r: State)
    requires
        pre_cont(old(tokenizer)@),
    ensures
        (final(tokenizer)@, r) == spec_cont_blank(old(tokenizer)@),
{
    let container =
        tokenizer.tokenize_state.document_container_stack[tokenizer.tokenize_state.document_continued];
    let size = container.size;
    if container.blank_initial {
        State::Nok
    } else if matches!(tokenizer.current, Some(9 | 32)) {
        State::Retry(space_or_tab_min_max(tokenizer, 0, size))
    } else {
        State::Okay
    }
}

/// A filled continuation: the start is no longer blank, and exactly the
/// prefix size of whitespace must follow.
pub open spec fn spec_cont_filled(t: TokenizerView) -> (TokenizerView, State) {
    let index = t.ts.document_continued;
    let container = t.ts.document_container_stack[index as int];
    let t1 = t.set_container(index, ContainerState { blank_initial: false, ..container });
    if t.at_space_or_tab() {
        (spec_min_max(t1, container.size, container.size), State::Retry(StateName::SpaceOrTabStart))
    } else {
        (t1, State::Nok)
    }
}

/// Start of non-blank list item continuation.
///
/// ```markdown
///   | * a
/// > |   b
///     ^
/// ```
pub fn cont_filled(tokenizer: &mut Tokenizer) -> (r: State)
    requires
        pre_cont(old(tokenizer)@),
    ensures
        (final(tokenizer)@, r) == spec_cont_filled(old(tokenizer)@),
{
    let index = tokenizer.tokenize_state.document_continued;
    let container = tokenizer.tokenize_state.document_container_stack[index];
    let size = container.size;
    tokenizer.set_container(index, ContainerState { blank_initial: false, ..container });
    if matches!(tokenizer.current, Some(9 | 32)) {
        State::Retry(space_or_tab_min_max(tokenizer, size, size))
    } else {
        State::Nok
    }
}

/// Whether `cont_blank` and `cont_filled` can run.
pub fn can_cont(tokenizer: &Tokenizer) -> (r: bool)
    ensures
        r == pre_cont(tokenizer@),
{
    tokenizer.tokenize_state.document_continued < tokenizer.tokenize_state.document_container_stack.len()
}

/// The index of the last event at or before `index` with the name `name`,
/// if there is one.
fn find_back(events: &Vec<Event>, index: usize, name: Name) -> (r: Option<usize>)
    requires
        index < events.len(),
    ensures
        r is Some <==> has_back(events@, index as int, name),
        r is Some ==> r.unwrap() == spec_to_back(events@, index as int, name),
{
    let mut i = index;
    loop
        invariant
            i <= index < events.len(),
            spec_to_back(events@, i as int, name) == spec_to_back(events@, index as int, name),
            forall|j: int| i < j <= index ==> events@[j].name != name,
        decreases i,
    {
        if events[i].name == name {
            return Some(i);
        }
        if i == 0 {
            assert(!has_back(events@, index as int, name)) by {
                if has_back(events@, index as int, name) {
                    let j = choose|j: int| 0 <= j <= index && #[trigger] events@[j].name == name;
                    assert(events@[j].name != name);
                }
            }
            return None;
        }
        i = i - 1;
    }
}

/// Whether the span from `start` to `end` fits, as `fits` says.
pub(crate) fn check_fits(start: Point, end: Point, len: usize, blank: bool) -> (r: bool)
    ensures
        r == fits(start, end, len as int, blank),
{
    let from: u128 = if start.vs > 0 { start.index as u128 + 1 } else { start.index as u128 };
    let to: u128 = if end.vs > 0 { end.index as u128 + 1 } else { end.index as u128 };
    if start.vs > TAB_SIZE || from > to || to > len as u128 {
        return false;
    }
    let before: u128 = if start.vs > 0 { (TAB_SIZE - start.vs) as u128 } else { 0 };
    let after: u128 = if end.vs > 0 { (end.vs - 1) as u128 } else { 0 };
    let extra: u128 = if blank { 1 } else { 0 };
    to - from + before + after + extra <= usize::MAX as u128
}

/// Whether `after` can run.
pub fn can_after(tokenizer: &Tokenizer) -> (r: bool)
    ensures
        r == pre_after(tokenizer@),
{
    let blank = tokenizer.tokenize_state.size == 1;
    if blank && tokenizer.interrupt {
        return true;
    }
    let len = tokenizer.events.len();
    if len == 0 {
        return false;
    }
    match find_back(&tokenizer.events, len - 1, Name::ListItem) {
        None => false,
        Some(start) => {
            proof {
                lemma_to_back(tokenizer@.events, len - 1, Name::ListItem);
            }
            check_fits(
            tokenizer.events[start].point,
            tokenizer.point,
            tokenizer.parse_state.bytes.len(),
            blank,
        ) && tokenizer.tokenize_state.document_continued
            < tokenizer.tokenize_state.document_container_stack.len()
        },
    }
}

/// A list being formed: its marker, how deep it is, and the indices of the
/// enter of its first item and of the exit of its last item.
pub type ListEntry = (u8, usize, usize, usize);

/// What may sit between two items of one list.
pub open spec fn gap_names() -> Seq<Name> {
    seq![Name::SpaceOrTab, Name::LineEnding, Name::BlankLineEnding, Name::BlockQuotePrefix]
}

/// The list on the stack, at or below `k - 1`, that the item `current`
/// continues: same marker, same depth, and nothing but whitespace, line
/// endings and block quote prefixes between its last item and this one.
pub open spec fn continues(events: Seq<Event>, wip: Seq<ListEntry>, k: int, current: ListEntry) -> Option<int>
    decreases k,
{
    if k <= 0 {
        None
    } else {
        let previous = wip[k - 1];
        if previous.0 == current.0 && previous.1 == current.1 && spec_opt(
            events,
            previous.3 + 1,
            gap_names(),
        ) == Some(current.2 as int) {
            Some(k - 1)
        } else {
            continues(events, wip, k - 1, current)
        }
    }
}

/// Looking for that list is possible: the gap after each list looked at
/// can be skipped.
pub open spec fn continues_ok(events: Seq<Event>, wip: Seq<ListEntry>, k: int, current: ListEntry) -> bool
    decreases k,
{
    if k <= 0 {
        true
    } else {
        let previous = wip[k - 1];
        &&& previous.3 + 1 <= events.len()
        &&& spec_opt(events, previous.3 + 1, gap_names()) is Some
        &&& (previous.0 == current.0 && previous.1 == current.1 && spec_opt(
            events,
            previous.3 + 1,
            gap_names(),
        ) == Some(current.2 as int) || continues_ok(events, wip, k - 1, current))
    }
}

/// The lowest place on the stack from which all lists end before the item
/// `current` starts (looking down from `k - 1`, while that holds).
pub open spec fn ended_from(wip: Seq<ListEntry>, k: int, current: ListEntry, found: Option<int>) -> Option<int>
    decreases k,
{
    if k <= 0 {
        found
    } else if current.2 > wip[k - 1].3 {
        ended_from(wip, k - 1, current, Some(k - 1))
    } else {
        found
    }
}

/// The state of the scan: depth of list items, lists being formed, and
/// lists done.
pub type ListScan = (int, Seq<ListEntry>, Seq<ListEntry>);

/// The entry for the item whose enter is at `index`.
pub open spec fn entry_at(t: TokenizerView, index: int, balance: int) -> ListEntry {
    let end = spec_opt(t.events, index, seq![Name::ListItem]).unwrap() - 1;
    let marker = spec_to(t.events, index, seq![Name::ListItemMarker]);
    (t.bytes[t.events[marker].point.index as int], balance as usize, index as usize, end as usize)
}

/// The scan after the item whose enter is at `index`: it continues a list,
/// or it starts one (after the lists that ended before it are done).
pub open spec fn scan_enter(t: TokenizerView, index: int, st: ListScan) -> ListScan {
    let (balance, wip, lists) = st;
    let current = entry_at(t, index, balance);
    match continues(t.events, wip, wip.len() as int, current) {
        Some(k) => (
            balance + 1,
            wip.take(k + 1).update(k, (wip[k].0, wip[k].1, wip[k].2, current.3)),
            lists + wip.skip(k + 1),
        ),
        None => match ended_from(wip, wip.len() as int, current, None) {
            Some(e) => (balance + 1, wip.take(e).push(current), lists + wip.skip(e)),
            None => (balance + 1, wip.push(current), lists),
        },
    }
}

/// The scan over the events from `index` on.
pub open spec fn scan(t: TokenizerView, index: int, st: ListScan) -> ListScan
    decreases t.events.len() - index,
{
    if index < 0 || index >= t.events.len() {
        st
    } else {
        let next = if t.events[index].name == Name::ListItem {
            if t.events[index].kind == Kind::Enter {
                scan_enter(t, index, st)
            } else {
                (st.0 - 1, st.1, st.2)
            }
        } else {
            st
        };
        scan(t, index + 1, next)
    }
}

/// The scan from `index` on can be made: each item closes, has a marker in
/// the document, the list it may continue can be looked for, and the
/// depth stays in range.
pub open spec fn scan_ok(t: TokenizerView, index: int, st: ListScan) -> bool
    decreases t.events.len() - index,
{
    if index < 0 || index >= t.events.len() {
        true
    } else if t.events[index].name == Name::ListItem {
        if t.events[index].kind == Kind::Enter {
            let marker = spec_to(t.events, index, seq![Name::ListItemMarker]);
            &&& spec_opt(t.events, index, seq![Name::ListItem]) matches Some(n) && n >= 1
            &&& marker < t.events.len()
            &&& t.events[marker].point.index < t.bytes.len()
            &&& 0 <= st.0 < usize::MAX
            &&& continues_ok(t.events, st.1, st.1.len() as int, entry_at(t, index, st.0))
            &&& scan_ok(t, index + 1, scan_enter(t, index, st))
        } else {
            &&& st.0 >= 1
            &&& scan_ok(t, index + 1, (st.0 - 1, st.1, st.2))
        }
    } else {
        scan_ok(t, index + 1, st)
    }
}

/// All lists found: those done, then those still being formed.
pub open spec fn all_lists(t: TokenizerView) -> Seq<ListEntry> {
    let st = scan(t, 0, (0, Seq::empty(), Seq::empty()));
    st.2 + st.1
}

/// The name of a list, by its marker: ordered for `.` and `)`.
pub open spec fn list_name(marker: u8) -> Name {
    if marker == 46 || marker == 41 {
        Name::ListOrdered
    } else {
        Name::ListUnordered
    }
}

/// Add the enter and exit of one list: a copy of the enter of its first
/// item before it, and of the exit of its last item after that, renamed.
pub open spec fn add_list_spec(t: TokenizerView, item: ListEntry) -> TokenizerView {
    let name = list_name(item.0);
    let map1 = spec_add(t.map, item.2, 0, seq![Event { name, ..t.events[item.2 as int] }]);
    let map2 = spec_add(map1, (item.3 + 1) as usize, 0, seq![Event { name, ..t.events[item.3 as int] }]);
    TokenizerView { map: map2, ..t }
}

/// Add the enter and exit of the lists from `j` on: a copy of the enter of
/// its first item before it, and of the exit of its last item after that.
pub open spec fn inject(t: TokenizerView, lists: Seq<ListEntry>, j: int) -> TokenizerView
    decreases lists.len() - j,
{
    if j < 0 || j >= lists.len() {
        t
    } else {
        inject(add_list_spec(t, lists[j]), lists, j + 1)
    }
}

/// Wrapping list items into lists: items with the same marker at the same
/// depth that follow each other form a list, which gets an enter before its
/// first item and an exit after its last; then the edits are applied.
pub open spec fn spec_wrap_lists(t: TokenizerView) -> TokenizerView {
    let t1 = inject(t, all_lists(t), 0);
    TokenizerView { events: spec_consume(t1.events, t1.map), map: Seq::<EditView>::empty(), ..t1 }
}

/// What `resolve` needs: the scan can be made, every list lies inside the
/// events, and the edits that result fit the events and `usize`.
pub open spec fn pre_resolve(t: TokenizerView) -> bool {
    let len = t.events.len() as int;
    let lists = all_lists(t);
    let t1 = inject(t, lists, 0);
    &&& len < usize::MAX
    &&& scan_ok(t, 0, (0, Seq::empty(), Seq::empty()))
    &&& forall|j: int| 0 <= j < lists.len() ==> #[trigger] lists[j].2 < len && lists[j].3 < len
    &&& edits_within(t1.map, len)
    &&& out_len(t1.map, len) + adds_at(t1.map, len).len() <= usize::MAX
}

/// Skipping the spans of `names` from `index` moves forward and stays in
/// the events; past the enter of such a span, it moves past that enter.
proof fn lemma_opt_forward(events: Seq<Event>, index: int, names: Seq<Name>)
    requires
        0 <= index <= events.len(),
    ensures
        spec_opt(events, index, names) matches Some(r) ==> index <= r <= events.len() && (
        index < events.len() && names.contains(events[index].name) && events[index].kind
            == Kind::Enter ==> index < r),
    decreases events.len() - index,
{
    if index < events.len() && names.contains(events[index].name) && events[index].kind
        == Kind::Enter {
        lemma_span_close_after(events, index + 1, 1, events[index].name);
        match span_close(events, index + 1, 1, events[index].name) {
            Some(next) => {
                if index < next <= events.len() {
                    lemma_opt_forward(events, next, names);
                }
            },
            None => {},
        }
    }
}

/// A list that starts at the enter of a list item, and ends at or after it.
pub open spec fn wraps_item(events: Seq<Event>, list: ListEntry) -> bool {
    &&& (list.2 as int) < events.len()
    &&& events[list.2 as int].kind == Kind::Enter
    &&& events[list.2 as int].name == Name::ListItem
    &&& list.2 <= list.3
}

/// Each list being formed and each list done wraps a list item.
pub open spec fn scan_wraps_items(events: Seq<Event>, st: ListScan) -> bool {
    &&& forall|j: int| 0 <= j < st.1.len() ==> wraps_item(events, #[trigger] st.1[j])
    &&& forall|j: int| 0 <= j < st.2.len() ==> wraps_item(events, #[trigger] st.2[j])
}

proof fn lemma_continues_found(events: Seq<Event>, wip: Seq<ListEntry>, k: int, current: ListEntry)
    requires
        k <= wip.len(),
    ensures
        continues(events, wip, k, current) matches Some(i) ==> spec_opt(
            events,
            wip[i].3 + 1,
            gap_names(),
        ) == Some(current.2 as int),
    decreases k,
{
    if k > 0 {
        lemma_continues_found(events, wip, k - 1, current);
    }
}

proof fn lemma_ended_from_bound(wip: Seq<ListEntry>, k: int, current: ListEntry, found: Option<int>)
    requires
        k <= wip.len(),
        found matches Some(f) ==> 0 <= f <= wip.len(),
    ensures
        ended_from(wip, k, current, found) matches Some(e) ==> 0 <= e <= wip.len(),
    decreases k,
{
    if k > 0 && current.2 > wip[k - 1].3 {
        lemma_ended_from_bound(wip, k - 1, current, Some(k - 1));
    }
}

#[verifier::rlimit(40)]
proof fn lemma_scan_enter_wraps(t: TokenizerView, index: int, st: ListScan)
    requires
        0 <= index < t.events.len() <= usize::MAX,
        t.events[index].kind == Kind::Enter,
        t.events[index].name == Name::ListItem,
        spec_opt(t.events, index, seq![Name::ListItem]) matches Some(n) && n >= 1,
        continues_ok(t.events, st.1, st.1.len() as int, entry_at(t, index, st.0)),
        scan_wraps_items(t.events, st),
    ensures
        scan_wraps_items(t.events, scan_enter(t, index, st)),
{
    let (balance, wip, lists) = st;
    let current = entry_at(t, index, balance);
    assert(seq![Name::ListItem].contains(t.events[index].name)) by {
        assert(seq![Name::ListItem][0] == Name::ListItem);
    }
    lemma_opt_forward(t.events, index, seq![Name::ListItem]);
    assert(wraps_item(t.events, current));
    lemma_continues_bound(t.events, wip, wip.len() as int, current);
    lemma_continues_found(t.events, wip, wip.len() as int, current);
    lemma_ended_from_bound(wip, wip.len() as int, current, None);
    let next = scan_enter(t, index, st);
    match continues(t.events, wip, wip.len() as int, current) {
        Some(k) => {
            assert(wraps_item(t.events, wip[k]));
            lemma_opt_forward(t.events, wip[k].3 + 1, gap_names());
            assert(wraps_item(t.events, next.1[k]));
            assert forall|j: int| 0 <= j < next.1.len() implies wraps_item(
                t.events,
                #[trigger] next.1[j],
            ) by {
                if j != k {
                    assert(next.1[j] == wip[j]);
                }
            }
            assert forall|j: int| 0 <= j < next.2.len() implies wraps_item(
                t.events,
                #[trigger] next.2[j],
            ) by {
                if j < lists.len() {
                    assert(next.2[j] == lists[j]);
                } else {
                    assert(next.2[j] == wip[j - lists.len() + k + 1]);
                }
            }
        },
        None => match ended_from(wip, wip.len() as int, current, None) {
            Some(e) => {
                assert forall|j: int| 0 <= j < next.1.len() implies wraps_item(
                    t.events,
                    #[trigger] next.1[j],
                ) by {
                    if j < e {
                        assert(next.1[j] == wip[j]);
                    }
                }
                assert forall|j: int| 0 <= j < next.2.len() implies wraps_item(
                    t.events,
                    #[trigger] next.2[j],
                ) by {
                    if j < lists.len() {
                        assert(next.2[j] == lists[j]);
                    } else {
                        assert(next.2[j] == wip[j - lists.len() + e]);
                    }
                }
            },
            None => {
                assert forall|j: int| 0 <= j < next.1.len() implies wraps_item(
                    t.events,
                    #[trigger] next.1[j],
                ) by {
                    if j < wip.len() {
                        assert(next.1[j] == wip[j]);
                    }
                }
            },
        },
    }
}

proof fn lemma_scan_wraps(t: TokenizerView, index: int, st: ListScan)
    requires
        0 <= index,
        t.events.len() <= usize::MAX,
        scan_ok(t, index, st),
        scan_wraps_items(t.events, st),
    ensures
        scan_wraps_items(t.events, scan(t, index, st)),
    decreases t.events.len() - index,
{
    if index < t.events.len() {
        if t.events[index].name == Name::ListItem {
            if t.events[index].kind == Kind::Enter {
                lemma_scan_enter_wraps(t, index, st);
                lemma_scan_wraps(t, index + 1, scan_enter(t, index, st));
            } else {
                lemma_scan_wraps(t, index + 1, (st.0 - 1, st.1, st.2));
            }
        } else {
            lemma_scan_wraps(t, index + 1, st);
        }
    }
}

/// Every list that wrapping finds starts at the enter of a list item and
/// ends at or after it; the list it adds is ordered exactly when the
/// marker of its items is `.` or `)`.
pub proof fn lemma_lists_wrap_items(t: TokenizerView)
    requires
        pre_resolve(t),
    ensures
        forall|j: int| 0 <= j < all_lists(t).len() ==> wraps_item(t.events, #[trigger] all_lists(t)[j]),
        forall|j: int|
            0 <= j < all_lists(t).len() ==> (list_name(#[trigger] all_lists(t)[j].0)
                == Name::ListOrdered <==> (all_lists(t)[j].0 == 46 || all_lists(t)[j].0 == 41)),
{
    let st = scan(t, 0, (0, Seq::empty(), Seq::empty()));
    lemma_scan_wraps(t, 0, (0, Seq::empty(), Seq::empty()));
    assert forall|j: int| 0 <= j < all_lists(t).len() implies wraps_item(
        t.events,
        #[trigger] all_lists(t)[j],
    ) by {
        if j < st.2.len() {
            assert(all_lists(t)[j] == st.2[j]);
        } else {
            assert(all_lists(t)[j] == st.1[j - st.2.len()]);
        }
    }
}

proof fn lemma_continues_bound(events: Seq<Event>, wip: Seq<ListEntry>, k: int, current: ListEntry)
    requires
        k <= wip.len(),
    ensures
        continues(events, wip, k, current) matches Some(i) ==> 0 <= i < k,
    decreases k,
{
    if k > 0 {
        lemma_continues_bound(events, wip, k - 1, current);
    }
}

/// The list on the stack that the item `current` continues.
fn find_continued(events: &Vec<Event>, wip: &Vec<ListEntry>, current: ListEntry) -> (r: Option<usize>)
    requires
        continues_ok(events@, wip@, wip@.len() as int, current),
    ensures
        r matches Some(k) ==> continues(events@, wip@, wip@.len() as int, current) == Some(k as int),
        r is None ==> continues(events@, wip@, wip@.len() as int, current) is None,
        r matches Some(k) ==> k < wip@.len(),
{
    proof {
        lemma_continues_bound(events@, wip@, wip@.len() as int, current);
    }
    let gap = [Name::SpaceOrTab, Name::LineEnding, Name::BlankLineEnding, Name::BlockQuotePrefix];
    assert(gap@ =~= gap_names());
    let mut k = wip.len();
    while k > 0
        invariant
            k <= wip@.len(),
            gap@ == gap_names(),
            continues(events@, wip@, k as int, current) == continues(events@, wip@, wip@.len() as int, current),
            continues_ok(events@, wip@, k as int, current),
        decreases k,
    {
        let previous = wip[k - 1];
        let len = events.len();
        assert(previous == wip@[k - 1]);
        assert(previous.3 + 1 <= len);
        let before = opt(events, previous.3 + 1, &gap);
        if previous.0 == current.0 && previous.1 == current.1 && before == current.2 {
            return Some(k - 1);
        }
        k = k - 1;
    }
    None
}

/// The lowest place on the stack from which all lists end before `current`.
fn find_ended(wip: &Vec<ListEntry>, current: ListEntry) -> (r: Option<usize>)
    ensures
        r matches Some(e) ==> ended_from(wip@, wip@.len() as int, current, None) == Some(e as int),
        r is None ==> ended_from(wip@, wip@.len() as int, current, None) is None,
        r matches Some(e) ==> e < wip@.len(),
{
    let mut k = wip.len();
    let mut found: Option<usize> = None;
    while k > 0 && current.2 > wip[k - 1].3
        invariant
            k <= wip@.len(),
            ended_from(wip@, k as int, current, match found {
                Some(e) => Some(e as int),
                None => None,
            }) == ended_from(wip@, wip@.len() as int, current, None),
            found matches Some(e) ==> e < wip@.len(),
        decreases k,
    {
        found = Some(k - 1);
        k = k - 1;
    }
    found
}

/// The state of the scan, as values.
pub open spec fn scan_state(balance: usize, wip: Seq<ListEntry>, lists: Seq<ListEntry>) -> ListScan {
    (balance as int, wip, lists)
}

/// Scan the item whose enter is at `index`.
fn scan_item(
    tokenizer: &Tokenizer,
    index: usize,
    balance: usize,
    wip: &mut Vec<ListEntry>,
    lists: &mut Vec<ListEntry>,
)
    requires
        index < tokenizer@.events.len(),
        tokenizer@.events[index as int].name == Name::ListItem,
        tokenizer@.events[index as int].kind == Kind::Enter,
        scan_ok(tokenizer@, index as int, scan_state(balance, old(wip)@, old(lists)@)),
    ensures
        scan_state((balance + 1) as usize, final(wip)@, final(lists)@) == scan_enter(
            tokenizer@,
            index as int,
            scan_state(balance, old(wip)@, old(lists)@),
        ),
{
    let ghost t = tokenizer@;
    let events = &tokenizer.events;
    let items = [Name::ListItem];
    let markers = [Name::ListItemMarker];
    assert(items@ =~= seq![Name::ListItem]);
    assert(markers@ =~= seq![Name::ListItemMarker]);
    let end = opt(events, index, &items) - 1;
    let marker = to(events, index, &markers);
    let byte = tokenizer.parse_state.bytes[events[marker].point.index];
    let current: ListEntry = (byte, balance, index, end);
    assert(current == entry_at(t, index as int, balance as int));
    match find_continued(events, wip, current) {
        Some(k) => {
            let wip_len = wip.len();
            assert(k < wip_len);
            let previous = wip[k];
            wip.set(k, (previous.0, previous.1, previous.2, current.3));
            let mut rest = wip.split_off(k + 1);
            lists.append(&mut rest);
            assert(wip@ =~= old(wip)@.take(k + 1).update(k as int, (previous.0, previous.1, previous.2, current.3)));
            assert(lists@ =~= old(lists)@ + old(wip)@.skip(k + 1));
        },
        None => {
            match find_ended(wip, current) {
                Some(e) => {
                    let mut rest = wip.split_off(e);
                    lists.append(&mut rest);
                    assert(lists@ =~= old(lists)@ + old(wip)@.skip(e as int));
                    assert(wip@ =~= old(wip)@.take(e as int));
                },
                None => {},
            }
            wip.push(current);
        },
    }
}

/// Add the enter and exit of one list.
fn add_list(tokenizer: &mut Tokenizer, item: ListEntry)
    requires
        item.2 < old(tokenizer)@.events.len(),
        item.3 < old(tokenizer)@.events.len(),
        old(tokenizer)@.events.len() < usize::MAX,
    ensures
        final(tokenizer)@ == add_list_spec(old(tokenizer)@, item),
{
    let ghost t = tokenizer@;
    let name = if item.0 == 46 || item.0 == 41 {
        Name::ListOrdered
    } else {
        Name::ListUnordered
    };
    let start = tokenizer.events[item.2];
    let end = tokenizer.events[item.3];
    let opening = vec![Event { name, ..start }];
    assert(opening@ =~= seq![Event { name: list_name(item.0), ..t.events[item.2 as int] }]);
    tokenizer.map.add(item.2, 0, opening);
    let closing = vec![Event { name, ..end }];
    assert(closing@ =~= seq![Event { name: list_name(item.0), ..t.events[item.3 as int] }]);
    tokenizer.map.add(item.3 + 1, 0, closing);
}

/// Find adjacent list items with the same marker, and wrap them into lists.
pub fn resolve(tokenizer: &mut Tokenizer) -> (r: Option<Subresult>)
    requires
        pre_resolve(old(tokenizer)@),
    ensures
        r is None,
        final(tokenizer)@ == spec_wrap_lists(old(tokenizer)@),
{
    let ghost t0 = tokenizer@;
    let mut wip: Vec<ListEntry> = Vec::new();
    let mut lists: Vec<ListEntry> = Vec::new();
    let mut index: usize = 0;
    let mut balance: usize = 0;
    // Merge list items.
    while index < tokenizer.events.len()
        invariant
            tokenizer@ == t0,
            index <= t0.events.len(),
            scan(t0, index as int, scan_state(balance, wip@, lists@)) == scan(
                t0,
                0,
                (0, Seq::empty(), Seq::empty()),
            ),
            scan_ok(t0, index as int, scan_state(balance, wip@, lists@)),
        decreases t0.events.len() - index,
    {
        let event = tokenizer.events[index];
        if event.name == Name::ListItem {
            if event.kind == Kind::Enter {
                scan_item(tokenizer, index, balance, &mut wip, &mut lists);
                balance = balance + 1;
            } else {
                balance = balance - 1;
            }
        }
        index += 1;
    }
    let mut rest = wip;
    lists.append(&mut rest);
    assert(lists@ == all_lists(t0));
    // Inject events.
    let mut j: usize = 0;
    while j < lists.len()
        invariant
            lists@ == all_lists(t0),
            forall|k: int| 0 <= k < lists@.len() ==> #[trigger] lists@[k].2 < t0.events.len()
                && lists@[k].3 < t0.events.len(),
            t0.events.len() < usize::MAX,
            inject(tokenizer@, lists@, j as int) == inject(t0, lists@, 0),
            tokenizer@.events == t0.events,
            j <= lists@.len(),
        decreases lists@.len() - j,
    {
        let item = lists[j];
        assert(lists@[j as int].2 < t0.events.len());
        let ghost t = tokenizer@;
        add_list(tokenizer, item);
        assert(inject(t, lists@, j as int) == inject(add_list_spec(t, item), lists@, j + 1));
        j += 1;
    }
    tokenizer.map.consume(&mut tokenizer.events);
    None
}


/// An ordered value is closed by `)` just as by `.`: at either byte the
/// value does the same (only the byte that is current differs), and unless
/// an interrupting item has more than one digit, the value ends there with
/// its exit and the delimiter is taken as the marker.
pub proof fn lemma_value_closed_by_either_delimiter(t: TokenizerView)
    requires
        t.current == Some(41u8),
    ensures
        spec_value(t).1 == spec_value(TokenizerView { current: Some(46u8), ..t }).1,
        spec_value(t).0 == (TokenizerView {
            current: Some(41u8),
            ..spec_value(TokenizerView { current: Some(46u8), ..t }).0
        }),
        (!t.interrupt || t.ts.size < 2) ==> spec_value(t) == (
            t.exit(Name::ListItemValue),
            State::Retry(StateName::ListItemMarker),
        ),
{
}

} // verus!

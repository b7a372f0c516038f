//! Trailing and leading whitespace of data, in the string and text content
//! types.
//!
//! Whitespace at the start or end of a line of data (or of the whole data,
//! in text) is not data: it becomes `SpaceOrTab`.
//! Two or more spaces at the end of a line, in text, form a hard break
//! (trailing).

use vstd::prelude::*;
use crate::construct::list_item::byte_after;
use crate::construct::raw_flow::enter_before;
use crate::event::{Event, Kind, Name, Point};
use crate::tokenizer::{Tokenizer, TokenizerView};
use crate::util::constant::{HARD_BREAK_PREFIX_SIZE_MIN, TAB_SIZE};
use crate::util::edit_map::{edits_within, out_len, adds_at, spec_add, spec_consume, EditView};

verus! {

/// Whether a byte is a space or a tab.
pub open spec fn is_ws(b: u8) -> bool {
    b == 32 || b == 9
}

/// The number of spaces and tabs at the end of `bytes[from..to]`.
pub open spec fn trailing(bytes: Seq<u8>, from: int, to: int) -> int
    decreases to - from,
{
    if to <= from {
        0
    } else if is_ws(bytes[to - 1]) {
        1 + trailing(bytes, from, to - 1)
    } else {
        0
    }
}

/// Whether a tab is among the spaces and tabs at the end of
/// `bytes[from..to]`.
pub open spec fn trailing_tab(bytes: Seq<u8>, from: int, to: int) -> bool
    decreases to - from,
{
    if to <= from {
        false
    } else if bytes[to - 1] == 32 {
        trailing_tab(bytes, from, to - 1)
    } else {
        bytes[to - 1] == 9
    }
}

/// The number of spaces and tabs at the start of `bytes[from..to]`.
pub open spec fn leading(bytes: Seq<u8>, from: int, to: int) -> int
    decreases to - from,
{
    if to <= from {
        0
    } else if is_ws(bytes[from]) {
        1 + leading(bytes, from + 1, to)
    } else {
        0
    }
}

/// The virtual spaces of a tab that a point is inside of, before the byte
/// after it.
pub open spec fn vs_before(p: Point) -> int {
    if p.vs > 0 {
        TAB_SIZE - p.vs
    } else {
        0
    }
}

/// The virtual spaces of a tab that a point is inside of, up to it.
pub open spec fn vs_after(p: Point) -> int {
    if p.vs > 0 {
        p.vs - 1
    } else {
        0
    }
}

/// The events at `index - 1` and `index` renamed.
pub open spec fn rename(t: TokenizerView, index: int, name: Name) -> TokenizerView {
    TokenizerView {
        events: t.events.update(index - 1, Event { name, ..t.events[index - 1] }).update(
            index,
            Event { name, ..t.events[index] },
        ),
        ..t
    }
}

/// A void span of whitespace, as an enter and an exit event.
pub open spec fn span_events(name: Name, from: Point, to: Point) -> Seq<Event> {
    seq![
        Event { kind: Kind::Enter, name, point: from, link: None },
        Event { kind: Kind::Exit, name, point: to, link: None },
    ]
}

/// `p` moved `n` bytes and columns, out of any tab.
pub open spec fn shifted(p: Point, n: int) -> Point {
    Point { index: (p.index + n) as usize, column: (p.column + n) as usize, vs: 0, ..p }
}

/// Trim the start of the data that ends at the exit at `index`, whose bytes
/// are `bytes[from..to]`: all whitespace becomes `SpaceOrTab`; otherwise
/// leading whitespace (or a start inside a tab) is split off before it.
pub open spec fn spec_trim_start(t: TokenizerView, index: int, from: int, to: int, before: int) -> TokenizerView {
    let count = leading(t.bytes, from, to);
    if count == to - from {
        rename(t, index, Name::SpaceOrTab)
    } else if count > 0 || before > 0 {
        let enter = t.events[index - 1].point;
        let exit = shifted(enter, count);
        TokenizerView {
            map: spec_add(t.map, (index - 1) as usize, 0, span_events(Name::SpaceOrTab, enter, exit)),
            events: t.events.update(index - 1, Event { point: exit, ..t.events[index - 1] }),
            ..t
        }
    } else {
        t
    }
}

/// The name of trailing whitespace: a hard break when allowed, made of
/// spaces only, long enough, and not at the end; whitespace otherwise.
pub open spec fn trailing_name(
    t: TokenizerView,
    index: int,
    from: int,
    to: int,
    after: int,
    hard_break: bool,
) -> Name {
    let count = trailing(t.bytes, from, to);
    if hard_break && after == 0 && !trailing_tab(t.bytes, from, to) && count
        >= HARD_BREAK_PREFIX_SIZE_MIN && index + 1 < t.events.len() {
        Name::HardBreakTrailing
    } else {
        Name::SpaceOrTab
    }
}

/// Trim the data that ends at the exit event at `index`: at its end when
/// `trim_end` (all whitespace renames the data; otherwise trailing
/// whitespace, or an end inside a tab, is split off after it), then at its
/// start when `trim_start`.
pub open spec fn spec_trim_data(
    t: TokenizerView,
    index: int,
    trim_start: bool,
    trim_end: bool,
    hard_break: bool,
) -> TokenizerView {
    let start = t.events[enter_before(t.events, t.events[index].name, index - 1).unwrap()].point;
    let end = t.events[index].point;
    let from = byte_after(start);
    let to = byte_after(end);
    if trim_end {
        spec_trim_end(t, index, from, to, start, end, trim_start, hard_break)
    } else if trim_start {
        spec_trim_start(t, index, from, to, vs_before(start))
    } else {
        t
    }
}

/// Trim the end of the data (and then its start when `trim_start`): all
/// whitespace renames the data; otherwise trailing whitespace, or an end
/// inside a tab, is split off after it.
pub open spec fn spec_trim_end(
    t: TokenizerView,
    index: int,
    from: int,
    to: int,
    start: Point,
    end: Point,
    trim_start: bool,
    hard_break: bool,
) -> TokenizerView {
    let count = trailing(t.bytes, from, to);
    let name = trailing_name(t, index, from, to, vs_after(end), hard_break);
    if count == to - from {
        rename(t, index, name)
    } else {
        let t1 = spec_split_end(t, index, count, name, vs_after(end));
        if trim_start {
            spec_trim_start(t1, index, from, to - count, vs_before(start))
        } else {
            t1
        }
    }
}

/// Split off `count` bytes of trailing whitespace (or an end inside a tab)
/// as a span named `name` after the data that ends at `index`.
pub open spec fn spec_split_end(t: TokenizerView, index: int, count: int, name: Name, after: int) -> TokenizerView {
    if count > 0 || after > 0 {
        let end = t.events[index].point;
        let enter = Point { index: (end.index - count) as usize, column: (end.column - count) as usize, vs: 0, ..end };
        TokenizerView {
            map: spec_add(t.map, (index + 1) as usize, 0, span_events(name, enter, end)),
            events: t.events.update(index, Event { point: enter, ..t.events[index] }),
            ..t
        }
    } else {
        t
    }
}

/// What `trim_data` needs: an exit with an enter before it, a start that is
/// inside the document and not past a tab, and places that can move by the
/// whitespace.
pub open spec fn pre_trim_data(t: TokenizerView, index: int, trim_start: bool, trim_end: bool) -> bool {
    &&& 1 <= index < t.events.len()
    &&& t.events.len() < usize::MAX
    &&& enter_before(t.events, t.events[index].name, index - 1) is Some
    &&& {
        let start = t.events[enter_before(t.events, t.events[index].name, index - 1).unwrap()].point;
        let end = t.events[index].point;
        &&& start.vs <= TAB_SIZE
        &&& byte_after(start) <= byte_after(end) <= t.bytes.len()
        &&& trim_end ==> end.column >= byte_after(end) - byte_after(start)
        &&& trim_start ==> t.events[index - 1].point.index + (byte_after(end) - byte_after(start)) <= usize::MAX
        &&& trim_start ==> t.events[index - 1].point.column + (byte_after(end) - byte_after(start)) <= usize::MAX
    }
}

proof fn lemma_trailing_bound(bytes: Seq<u8>, from: int, to: int)
    ensures
        0 <= trailing(bytes, from, to),
        from <= to ==> trailing(bytes, from, to) <= to - from,
    decreases to - from,
{
    if to > from {
        lemma_trailing_bound(bytes, from, to - 1);
    }
}

proof fn lemma_leading_bound(bytes: Seq<u8>, from: int, to: int)
    ensures
        0 <= leading(bytes, from, to),
        from <= to ==> leading(bytes, from, to) <= to - from,
    decreases to - from,
{
    if to > from {
        lemma_leading_bound(bytes, from + 1, to);
    }
}

proof fn lemma_enter_before_bound(events: Seq<Event>, name: Name, index: int)
    ensures
        enter_before(events, name, index) matches Some(i) ==> 0 <= i <= index,
    decreases index + 1,
{
    if index >= 0 {
        lemma_enter_before_bound(events, name, index - 1);
    }
}

/// The index of the enter that matches the exit at `index`.
fn enter_index(events: &Vec<Event>, index: usize) -> (r: usize)
    requires
        1 <= index < events.len(),
        enter_before(events@, events@[index as int].name, index - 1) is Some,
    ensures
        r as int == enter_before(events@, events@[index as int].name, index - 1).unwrap(),
{
    let name = events[index].name;
    let mut i: usize = index - 1;
    loop
        invariant
            i < index < events@.len(),
            enter_before(events@, name, i as int) == enter_before(events@, name, index - 1),
            enter_before(events@, name, i as int) is Some,
            name == events@[index as int].name,
        decreases i,
    {
        if events[i].kind == Kind::Enter && events[i].name == name {
            return i;
        }
        proof {
            if i == 0 {
                assert(enter_before(events@, name, 0) == enter_before(events@, name, -1));
            }
        }
        i = i - 1;
    }
}

/// The number of spaces and tabs at the end of `bytes[from..to]`, and
/// whether there is a tab among them.
fn count_trailing(bytes: &Vec<u8>, from: usize, to: usize) -> (r: (usize, bool))
    requires
        from <= to <= bytes.len(),
    ensures
        r.0 == trailing(bytes@, from as int, to as int),
        r.1 == trailing_tab(bytes@, from as int, to as int),
{
    let mut i = to;
    let mut tab = false;
    while i > from && (bytes[i - 1] == 32 || bytes[i - 1] == 9)
        invariant
            from <= i <= to <= bytes.len(),
            trailing(bytes@, from as int, to as int) == (to - i) + trailing(
                bytes@,
                from as int,
                i as int,
            ),
            trailing_tab(bytes@, from as int, to as int) == (tab || trailing_tab(
                bytes@,
                from as int,
                i as int,
            )),
        decreases i,
    {
        if bytes[i - 1] == 9 {
            tab = true;
        }
        i = i - 1;
    }
    (to - i, tab)
}

/// The number of spaces and tabs at the start of `bytes[from..to]`.
fn count_leading(bytes: &Vec<u8>, from: usize, to: usize) -> (r: usize)
    requires
        from <= to <= bytes.len(),
    ensures
        r == leading(bytes@, from as int, to as int),
{
    let mut i = from;
    while i < to && (bytes[i] == 32 || bytes[i] == 9)
        invariant
            from <= i <= to <= bytes.len(),
            leading(bytes@, from as int, to as int) == (i - from) + leading(
                bytes@,
                i as int,
                to as int,
            ),
        decreases to - i,
    {
        i = i + 1;
    }
    i - from
}

/// Rename the events at `index - 1` and `index`.
fn rename_events(tokenizer: &mut Tokenizer, index: usize, name: Name)
    requires
        1 <= index < old(tokenizer)@.events.len(),
    ensures
        final(tokenizer)@ == rename(old(tokenizer)@, index as int, name),
{
    let before = tokenizer.events[index - 1];
    tokenizer.events.set(index - 1, Event { name, ..before });
    let last = tokenizer.events[index];
    tokenizer.events.set(index, Event { name, ..last });
}

/// Trim the start, as `spec_trim_start` says.
fn trim_start_of(tokenizer: &mut Tokenizer, index: usize, from: usize, to: usize, before: usize)
    requires
        1 <= index < old(tokenizer)@.events.len(),
        from <= to <= old(tokenizer)@.bytes.len(),
        old(tokenizer)@.events[index - 1].point.index + (to - from) <= usize::MAX,
        old(tokenizer)@.events[index - 1].point.column + (to - from) <= usize::MAX,
    ensures
        final(tokenizer)@ == spec_trim_start(old(tokenizer)@, index as int, from as int, to as int, before as int),
{
    let count = count_leading(&tokenizer.parse_state.bytes, from, to);
    proof {
        lemma_leading_bound(tokenizer@.bytes, from as int, to as int);
    }
    if count == to - from {
        rename_events(tokenizer, index, Name::SpaceOrTab);
    } else if count > 0 || before > 0 {
        let enter = tokenizer.events[index - 1];
        let exit_point = Point {
            index: enter.point.index + count,
            column: enter.point.column + count,
            vs: 0,
            ..enter.point
        };
        let ghost t = tokenizer@;
        tokenizer.map.add(
            index - 1,
            0,
            vec![
                Event { kind: Kind::Enter, name: Name::SpaceOrTab, point: enter.point, link: None },
                Event { kind: Kind::Exit, name: Name::SpaceOrTab, point: exit_point, link: None },
            ],
        );
        tokenizer.events.set(index - 1, Event { point: exit_point, ..enter });
        assert(span_events(Name::SpaceOrTab, enter.point, exit_point) =~= seq![
            Event { kind: Kind::Enter, name: Name::SpaceOrTab, point: enter.point, link: None },
            Event { kind: Kind::Exit, name: Name::SpaceOrTab, point: exit_point, link: None },
        ]);
        assert(tokenizer@ == spec_trim_start(t, index as int, from as int, to as int, before as int));
    }
}

/// Trim the end, as the first part of `spec_trim_data` says, when not all
/// of it is whitespace.
fn split_end(tokenizer: &mut Tokenizer, index: usize, count: usize, name: Name, after: usize)
    requires
        1 <= index < old(tokenizer)@.events.len() < usize::MAX,
        old(tokenizer)@.events[index as int].point.index >= count,
        old(tokenizer)@.events[index as int].point.column >= count,
    ensures
        final(tokenizer)@ == spec_split_end(old(tokenizer)@, index as int, count as int, name, after as int),
{
    if count > 0 || after > 0 {
        let exit = tokenizer.events[index];
        let enter_point = Point {
            index: exit.point.index - count,
            column: exit.point.column - count,
            vs: 0,
            ..exit.point
        };
        tokenizer.map.add(
            index + 1,
            0,
            vec![
                Event { kind: Kind::Enter, name, point: enter_point, link: None },
                Event { kind: Kind::Exit, name, point: exit.point, link: None },
            ],
        );
        tokenizer.events.set(index, Event { point: enter_point, ..exit });
        assert(span_events(name, enter_point, exit.point) =~= seq![
            Event { kind: Kind::Enter, name, point: enter_point, link: None },
            Event { kind: Kind::Exit, name, point: exit.point, link: None },
        ]);
    }
}

/// Trim a data event: the one that ends at the exit event at `exit_index`.
pub fn trim_data(
    tokenizer: &mut Tokenizer,
    exit_index: usize,
    trim_start: bool,
    trim_end: bool,
    hard_break: bool,
)
    requires
        pre_trim_data(old(tokenizer)@, exit_index as int, trim_start, trim_end),
    ensures
        final(tokenizer)@ == spec_trim_data(
            old(tokenizer)@,
            exit_index as int,
            trim_start,
            trim_end,
            hard_break,
        ),
{
    let ghost t = tokenizer@;
    let len: usize = tokenizer.parse_state.bytes.len();
    let start_index = enter_index(&tokenizer.events, exit_index);
    proof {
        lemma_enter_before_bound(t.events, t.events[exit_index as int].name, exit_index - 1);
    }
    let start = tokenizer.events[start_index].point;
    let end = tokenizer.events[exit_index].point;
    let from = if start.vs > 0 { start.index + 1 } else { start.index };
    let to = if end.vs > 0 { end.index + 1 } else { end.index };
    let before = if start.vs > 0 { TAB_SIZE - start.vs } else { 0 };
    let after = if end.vs > 0 { end.vs - 1 } else { 0 };
    assert(from as int == byte_after(start) && to as int == byte_after(end));
    assert(before as int == vs_before(start) && after as int == vs_after(end));
    if trim_end {
        trim_end_of(tokenizer, exit_index, from, to, before, after, trim_start, hard_break, Ghost(start), Ghost(end));
    } else if trim_start {
        trim_start_of(tokenizer, exit_index, from, to, before);
    }
}

/// Trim the end, then the start when `trim_start`.
fn trim_end_of(
    tokenizer: &mut Tokenizer,
    exit_index: usize,
    from: usize,
    to: usize,
    before: usize,
    after: usize,
    trim_start: bool,
    hard_break: bool,
    Ghost(start): Ghost<Point>,
    Ghost(end): Ghost<Point>,
)
    requires
        1 <= exit_index < old(tokenizer)@.events.len() < usize::MAX,
        from <= to <= old(tokenizer)@.bytes.len(),
        end == old(tokenizer)@.events[exit_index as int].point,
        to == byte_after(end),
        after == vs_after(end),
        before == vs_before(start),
        end.column >= to - from,
        trim_start ==> old(tokenizer)@.events[exit_index - 1].point.index + (to - from) <= usize::MAX,
        trim_start ==> old(tokenizer)@.events[exit_index - 1].point.column + (to - from) <= usize::MAX,
    ensures
        final(tokenizer)@ == spec_trim_end(
            old(tokenizer)@,
            exit_index as int,
            from as int,
            to as int,
            start,
            end,
            trim_start,
            hard_break,
        ),
{
    let ghost t = tokenizer@;
    let (count, tab) = count_trailing(&tokenizer.parse_state.bytes, from, to);
    proof {
        lemma_trailing_bound(t.bytes, from as int, to as int);
    }
    let name = if hard_break && after == 0 && !tab && count >= HARD_BREAK_PREFIX_SIZE_MIN
        && exit_index + 1 < tokenizer.events.len() {
        Name::HardBreakTrailing
    } else {
        Name::SpaceOrTab
    };
    if count == to - from {
        // The whole data is whitespace.
        rename_events(tokenizer, exit_index, name);
        return;
    }
    split_end(tokenizer, exit_index, count, name, after);
    let ghost t1 = tokenizer@;
    assert(t1 == spec_split_end(t, exit_index as int, count as int, name, vs_after(end)));
    if trim_start {
        trim_start_of(tokenizer, exit_index, from, to - count, before);
    }
}

/// The exit at `index` closes data.
pub open spec fn is_data_exit(t: TokenizerView, index: int) -> bool {
    t.events[index].kind == Kind::Exit && t.events[index].name == Name::Data
}

/// Whether data that ends at `index` starts a line (or the whole, when
/// `trim_whole`).
pub open spec fn trims_start(t: TokenizerView, index: int, trim_whole: bool) -> bool {
    (trim_whole && index == 1) || (index > 1 && t.events[index - 2].name == Name::LineEnding)
}

/// Whether data that ends at `index` ends a line (or the whole, when
/// `trim_whole`).
pub open spec fn trims_end(t: TokenizerView, index: int, trim_whole: bool) -> bool {
    (trim_whole && index == t.events.len() - 1) || (index + 1 < t.events.len() && t.events[index
        + 1].name == Name::LineEnding)
}

/// One step of `resolve_whitespace`: trim the data that ends at `index`.
pub open spec fn trim_step(t: TokenizerView, index: int, hard_break: bool, trim_whole: bool) -> TokenizerView {
    if is_data_exit(t, index) {
        spec_trim_data(
            t,
            index,
            trims_start(t, index, trim_whole),
            trims_end(t, index, trim_whole),
            hard_break,
        )
    } else {
        t
    }
}

/// Trim every data from `index` on.
pub open spec fn trims_from(t: TokenizerView, index: int, len: int, hard_break: bool, trim_whole: bool) -> TokenizerView
    decreases len - index,
{
    if index >= len {
        t
    } else {
        trims_from(trim_step(t, index, hard_break, trim_whole), index + 1, len, hard_break, trim_whole)
    }
}

/// Every trim from `index` on can run.
pub open spec fn trims_ok(t: TokenizerView, index: int, len: int, hard_break: bool, trim_whole: bool) -> bool
    decreases len - index,
{
    if index >= len {
        true
    } else {
        &&& (is_data_exit(t, index) ==> pre_trim_data(
            t,
            index,
            trims_start(t, index, trim_whole),
            trims_end(t, index, trim_whole),
        ))
        &&& trims_ok(trim_step(t, index, hard_break, trim_whole), index + 1, len, hard_break, trim_whole)
    }
}

/// Resolving whitespace: every data trimmed, then the edits applied.
pub open spec fn spec_resolve_whitespace(t: TokenizerView, hard_break: bool, trim_whole: bool) -> TokenizerView {
    let t1 = trims_from(t, 0, t.events.len() as int, hard_break, trim_whole);
    TokenizerView { events: spec_consume(t1.events, t1.map), map: Seq::<EditView>::empty(), ..t1 }
}

/// What `resolve_whitespace` needs: each trim can run, and the edits that
/// result fit the events and `usize`.
pub open spec fn pre_resolve_whitespace(t: TokenizerView, hard_break: bool, trim_whole: bool) -> bool {
    let len = t.events.len() as int;
    let t1 = trims_from(t, 0, len, hard_break, trim_whole);
    &&& trims_ok(t, 0, len, hard_break, trim_whole)
    &&& edits_within(t1.map, len)
    &&& out_len(t1.map, len) + adds_at(t1.map, len).len() <= usize::MAX
}

proof fn lemma_trim_start_keeps_len(t: TokenizerView, index: int, from: int, to: int, before: int)
    requires
        1 <= index < t.events.len(),
    ensures
        spec_trim_start(t, index, from, to, before).events.len() == t.events.len(),
{
}

proof fn lemma_trim_end_keeps_len(
    t: TokenizerView,
    index: int,
    from: int,
    to: int,
    start: Point,
    end: Point,
    trim_start: bool,
    hard_break: bool,
)
    requires
        1 <= index < t.events.len(),
    ensures
        spec_trim_end(t, index, from, to, start, end, trim_start, hard_break).events.len()
            == t.events.len(),
{
    let count = trailing(t.bytes, from, to);
    let name = trailing_name(t, index, from, to, vs_after(end), hard_break);
    let t1 = spec_split_end(t, index, count, name, vs_after(end));
    assert(t1.events.len() == t.events.len());
    lemma_trim_start_keeps_len(t1, index, from, to - count, vs_before(start));
}

proof fn lemma_trim_keeps_len(t: TokenizerView, index: int, hard_break: bool, trim_whole: bool)
    requires
        is_data_exit(t, index) ==> 1 <= index < t.events.len(),
    ensures
        trim_step(t, index, hard_break, trim_whole).events.len() == t.events.len(),
{
    if is_data_exit(t, index) {
        let start = t.events[enter_before(t.events, t.events[index].name, index - 1).unwrap()].point;
        let end = t.events[index].point;
        lemma_trim_end_keeps_len(
            t,
            index,
            byte_after(start),
            byte_after(end),
            start,
            end,
            trims_start(t, index, trim_whole),
            hard_break,
        );
        lemma_trim_start_keeps_len(t, index, byte_after(start), byte_after(end), vs_before(start));
    }
}

/// Resolve whitespace.
pub fn resolve_whitespace(tokenizer: &mut Tokenizer, hard_break: bool, trim_whole: bool)
    requires
        pre_resolve_whitespace(old(tokenizer)@, hard_break, trim_whole),
    ensures
        final(tokenizer)@ == spec_resolve_whitespace(old(tokenizer)@, hard_break, trim_whole),
{
    let ghost t0 = tokenizer@;
    let len = tokenizer.events.len();
    let mut index: usize = 0;
    while index < tokenizer.events.len()
        invariant
            len == t0.events.len(),
            tokenizer@.events.len() == len,
            index <= len,
            trims_from(tokenizer@, index as int, len as int, hard_break, trim_whole) == trims_from(
                t0,
                0,
                len as int,
                hard_break,
                trim_whole,
            ),
            trims_ok(tokenizer@, index as int, len as int, hard_break, trim_whole),
        decreases len - index,
    {
        let ghost t = tokenizer@;
        let event = tokenizer.events[index];
        if event.kind == Kind::Exit && event.name == Name::Data {
            let trim_start = (trim_whole && index == 1) || (index > 1 && tokenizer.events[index
                - 2].name == Name::LineEnding);
            let trim_end = (trim_whole && index == tokenizer.events.len() - 1) || (index + 1
                < tokenizer.events.len() && tokenizer.events[index + 1].name == Name::LineEnding);
            trim_data(tokenizer, index, trim_start, trim_end, hard_break);
        }
        proof {
            lemma_trim_keeps_len(t, index as int, hard_break, trim_whole);
            assert(tokenizer@ == trim_step(t, index as int, hard_break, trim_whole));
        }
        index += 1;
    }
    tokenizer.map.consume(&mut tokenizer.events);
}

} // verus!

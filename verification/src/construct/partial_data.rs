//! Data occurs in the string and text content types.
//!
//! It can include anything (except for line endings) and stops at certain
//! characters (the markers of the content type).

use vstd::prelude::*;
use crate::subtokenize::Subresult;
use crate::util::edit_map::{adds_at, edits_within, find, out_len, spec_add, spec_consume, EditView};
use crate::event::{Event, Kind, Name};
use crate::state::{Name as StateName, State};
use crate::tokenizer::{Tokenizer, TokenizerView};

verus! {

/// At the start: take a first marker as data.
pub open spec fn spec_start(t: TokenizerView) -> (TokenizerView, State) {
    match t.current {
        Some(b) => if t.ts.markers.contains(b) {
            (t.enter(Name::Data).consume(), State::Next(StateName::DataInside))
        } else {
            (t, State::Retry(StateName::DataAtBreak))
        },
        None => (t, State::Retry(StateName::DataAtBreak)),
    }
}

/// At beginning of data.
///
/// ```markdown
/// > | abc
///     ^
/// ```
pub fn start(tokenizer: &mut Tokenizer) -> (r: State)
    ensures
        (final(tokenizer)@, r) == spec_start(old(tokenizer)@),
{
    // Make sure to eat the first `markers`.
    if let Some(byte) = tokenizer.current {
        if tokenizer.is_marker(byte) {
            tokenizer.enter(Name::Data);
            tokenizer.consume();
            return State::Next(StateName::DataInside);
        }
    }
    State::Retry(StateName::DataAtBreak)
}

/// Before something: a line ending, data, or (at a marker or the end) done.
pub open spec fn spec_at_break(t: TokenizerView) -> (TokenizerView, State) {
    match t.current {
        Some(b) => if !t.ts.markers.contains(b) {
            if b == 10 {
                (
                    t.enter(Name::LineEnding).consume().exit(Name::LineEnding),
                    State::Next(StateName::DataAtBreak),
                )
            } else {
                (t.enter(Name::Data), State::Retry(StateName::DataInside))
            }
        } else {
            (t, State::Okay)
        },
        None => (t, State::Okay),
    }
}

/// Before something.
///
/// ```markdown
/// > | abc
///     ^
/// ```
pub fn at_break(tokenizer: &mut Tokenizer) -> (r: State)
    ensures
        (final(tokenizer)@, r) == spec_at_break(old(tokenizer)@),
{
    if let Some(byte) = tokenizer.current {
        if !tokenizer.is_marker(byte) {
            if byte == 10 {
                tokenizer.enter(Name::LineEnding);
                tokenizer.consume();
                tokenizer.exit(Name::LineEnding);
                return State::Next(StateName::DataAtBreak);
            }
            tokenizer.enter(Name::Data);
            return State::Retry(StateName::DataInside);
        }
    }
    State::Okay
}

/// In data: take bytes up to a line ending, a marker, or the end.
pub open spec fn spec_inside(t: TokenizerView) -> (TokenizerView, State) {
    match t.current {
        Some(b) => if b != 10 && !t.ts.markers.contains(b) {
            (t.consume(), State::Next(StateName::DataInside))
        } else {
            (t.exit(Name::Data), State::Retry(StateName::DataAtBreak))
        },
        None => (t.exit(Name::Data), State::Retry(StateName::DataAtBreak)),
    }
}

/// In data.
///
/// ```markdown
/// > | abc
///     ^^^
/// ```
pub fn inside(tokenizer: &mut Tokenizer) -> (r: State)
    ensures
        (final(tokenizer)@, r) == spec_inside(old(tokenizer)@),
{
    if let Some(byte) = tokenizer.current {
        if byte != 10 && !tokenizer.is_marker(byte) {
            tokenizer.consume();
            return State::Next(StateName::DataInside);
        }
    }
    tokenizer.exit(Name::Data);
    State::Retry(StateName::DataAtBreak)
}

/// The index of the last exit of the data events that follow each other
/// from the exit at `index` on.
pub open spec fn data_run_end(events: Seq<Event>, index: int, len: int) -> int
    decreases len - index,
{
    if index + 1 < len && events[index + 1].name == Name::Data {
        data_run_end(events, index + 2, len)
    } else {
        index
    }
}

/// The enter at `index` opens data.
pub open spec fn is_data_enter(t: TokenizerView, index: int) -> bool {
    t.events[index].kind == Kind::Enter && t.events[index].name == Name::Data
}

/// Merge the data events that follow each other, from `index` on: the
/// events between the first exit and the last exit are removed, and the
/// first exit moves to where the last one is.
pub open spec fn merge_from(t: TokenizerView, index: int, len: int) -> TokenizerView
    decreases len + 2 - index,
{
    if index < 0 || index >= len {
        t
    } else if is_data_enter(t, index) {
        let first = index + 1;
        let last = data_run_end(t.events, first, len);
        if last > first && last < len {
            let t1 = TokenizerView {
                map: spec_add(t.map, first as usize, (last - first) as usize, Seq::empty()),
                events: t.events.update(first, Event { point: t.events[last].point, ..t.events[first] }),
                ..t
            };
            merge_from(t1, last + 1, len)
        } else if last > first {
            t
        } else {
            merge_from(t, first + 1, len)
        }
    } else {
        merge_from(t, index + 1, len)
    }
}

/// Every merge from `index` on can be made: the last exit exists, and the
/// counts fit.
pub open spec fn merge_ok(t: TokenizerView, index: int, len: int) -> bool
    decreases len + 2 - index,
{
    if index < 0 || index >= len {
        true
    } else if is_data_enter(t, index) {
        let first = index + 1;
        let last = data_run_end(t.events, first, len);
        if last > first && last < len {
            let t1 = TokenizerView {
                map: spec_add(t.map, first as usize, (last - first) as usize, Seq::empty()),
                events: t.events.update(first, Event { point: t.events[last].point, ..t.events[first] }),
                ..t
            };
            &&& (find(t.map, first as usize) matches Some(k) ==> t.map[k].1 + (last - first)
                <= usize::MAX)
            &&& merge_ok(t1, last + 1, len)
        } else if last > first {
            false
        } else {
            merge_ok(t, first + 1, len)
        }
    } else {
        merge_ok(t, index + 1, len)
    }
}

/// Merging data: adjacent data merged, then the edits applied.
pub open spec fn spec_resolve(t: TokenizerView) -> TokenizerView {
    let t1 = merge_from(t, 0, t.events.len() as int);
    TokenizerView { events: spec_consume(t1.events, t1.map), map: Seq::<EditView>::empty(), ..t1 }
}

/// What `resolve` needs: each merge can be made, and the edits that result
/// fit the events and `usize`.
pub open spec fn pre_resolve(t: TokenizerView) -> bool {
    let len = t.events.len() as int;
    let t1 = merge_from(t, 0, len);
    &&& t.events.len() < usize::MAX
    &&& merge_ok(t, 0, len)
    &&& edits_within(t1.map, len)
    &&& out_len(t1.map, len) + adds_at(t1.map, len).len() <= usize::MAX
}

/// The last exit of the data events that follow each other from `index`.
fn find_run_end(events: &Vec<Event>, index: usize) -> (r: usize)
    requires
        index <= events.len(),
    ensures
        r == data_run_end(events@, index as int, events@.len() as int),
        r >= index,
{
    let mut exit_index = index;
    while events.len() > 0 && exit_index < events.len() - 1 && events[exit_index + 1].name
        == Name::Data
        invariant
            index <= exit_index <= events.len(),
            data_run_end(events@, exit_index as int, events@.len() as int) == data_run_end(
                events@,
                index as int,
                events@.len() as int,
            ),
        decreases events.len() - exit_index,
    {
        exit_index = exit_index + 2;
    }
    exit_index
}

/// Merge adjacent data.
pub fn resolve(tokenizer: &mut Tokenizer) -> (r: Option<Subresult>)
    requires
        pre_resolve(old(tokenizer)@),
    ensures
        r is None,
        final(tokenizer)@ == spec_resolve(old(tokenizer)@),
{
    let ghost t0 = tokenizer@;
    let len = tokenizer.events.len();
    let mut index: usize = 0;
    while index < tokenizer.events.len()
        invariant
            len == t0.events.len(),
            len < usize::MAX,
            tokenizer@.events.len() == len,
            index <= len + 1,
            merge_from(tokenizer@, index as int, len as int) == merge_from(t0, 0, len as int),
            merge_ok(tokenizer@, index as int, len as int),
        decreases len + 1 - index,
    {
        if tokenizer.events[index].kind == Kind::Enter && tokenizer.events[index].name == Name::Data {
            let ghost t = tokenizer@;
            index += 1;
            let exit_index = find_run_end(&tokenizer.events, index);
            if exit_index > index {
                tokenizer.map.add(index, exit_index - index, Vec::new());
                let point = tokenizer.events[exit_index].point;
                let first = tokenizer.events[index];
                tokenizer.events.set(index, Event { point, ..first });
                assert(tokenizer@.events =~= t.events.update(index as int, Event { point: t.events[exit_index as int].point, ..t.events[index as int] }));
                index = exit_index;
            }
        }
        index += 1;
    }
    tokenizer.map.consume(&mut tokenizer.events);
    None
}

} // verus!

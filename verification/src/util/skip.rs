//! Moving through events: to the next event with a name, or past whole
//! spans with some names.

use vstd::prelude::*;
use crate::event::{Event, Kind, Name};

verus! {

/// The index of the first event at or after `index` whose name is one of
/// `names`, or the end.
pub open spec fn spec_to(events: Seq<Event>, index: int, names: Seq<Name>) -> int
    decreases events.len() - index,
{
    if index < 0 || index >= events.len() {
        index
    } else if names.contains(events[index].name) {
        index
    } else {
        spec_to(events, index + 1, names)
    }
}

/// Inside a span named `name` that opened before `index`, with `balance`
/// spans open: the index after the exit that closes it (`None` when the
/// events end first, or when more spans close than opened).
pub open spec fn span_close(events: Seq<Event>, index: int, balance: int, name: Name) -> Option<int>
    decreases events.len() - index,
{
    if index < 0 || index >= events.len() {
        None
    } else {
        let balance1 = if events[index].kind == Kind::Enter {
            balance + 1
        } else {
            balance - 1
        };
        if balance1 < 0 {
            None
        } else if events[index].name == name && balance1 == 0 {
            Some(index + 1)
        } else {
            span_close(events, index + 1, balance1, name)
        }
    }
}

/// The index after the whole spans, starting at `index`, whose names are
/// one of `names` (`None` when a span does not close).
pub open spec fn spec_opt(events: Seq<Event>, index: int, names: Seq<Name>) -> Option<int>
    decreases events.len() - index,
{
    if index < 0 || index >= events.len() {
        Some(index)
    } else if !names.contains(events[index].name) || events[index].kind != Kind::Enter {
        Some(index)
    } else {
        match span_close(events, index + 1, 1, events[index].name) {
            Some(next) => if index < next <= events.len() {
                spec_opt(events, next, names)
            } else {
                None
            },
            None => None,
        }
    }
}

pub(crate) proof fn lemma_span_close_after(events: Seq<Event>, index: int, balance: int, name: Name)
    ensures
        span_close(events, index, balance, name) matches Some(next) ==> index < next <= events.len(),
    decreases events.len() - index,
{
    if 0 <= index < events.len() {
        let balance1 = if events[index].kind == Kind::Enter {
            balance + 1
        } else {
            balance - 1
        };
        lemma_span_close_after(events, index + 1, balance1, name);
    }
}

/// Whether `name` is one of `names`.
fn has_name(names: &[Name], name: Name) -> (r: bool)
    ensures
        r == names@.contains(name),
{
    let mut i: usize = 0;
    while i < names.len()
        invariant
            i <= names@.len(),
            forall|j: int| 0 <= j < i ==> names@[j] != name,
        decreases names@.len() - i,
    {
        if names[i] == name {
            assert(names@[i as int] == name);
            return true;
        }
        i = i + 1;
    }
    false
}

/// Move to the first event at or after `index` whose name is one of
/// `names`, or to the end.
pub fn to(events: &Vec<Event>, index: usize, names: &[Name]) -> (r: usize)
    requires
        index <= events.len(),
    ensures
        r == spec_to(events@, index as int, names@),
{
    let mut i = index;
    while i < events.len() && !has_name(names, events[i].name)
        invariant
            index <= i <= events.len(),
            spec_to(events@, i as int, names@) == spec_to(events@, index as int, names@),
        decreases events.len() - i,
    {
        i = i + 1;
    }
    i
}

/// Inside a span named `name`: the index after the exit that closes it.
fn close_span(events: &Vec<Event>, index: usize, name: Name) -> (r: usize)
    requires
        1 <= index <= events.len(),
        span_close(events@, index as int, 1, name) is Some,
    ensures
        Some(r as int) == span_close(events@, index as int, 1, name),
{
    let mut i = index;
    let mut balance: usize = 1;
    loop
        invariant
            1 <= index <= i <= events.len(),
            balance <= i - index + 1,
            span_close(events@, i as int, balance as int, name) == span_close(
                events@,
                index as int,
                1,
                name,
            ),
            span_close(events@, i as int, balance as int, name) is Some,
        decreases events.len() - i,
    {
        proof {
            lemma_span_close_after(events@, i as int, balance as int, name);
        }
        let event = events[i];
        if event.kind == Kind::Enter {
            balance = balance + 1;
        } else {
            balance = balance - 1;
        }
        if event.name == name && balance == 0 {
            return i + 1;
        }
        i = i + 1;
    }
}

/// Move past the whole spans, starting at `index`, whose names are one of
/// `names`.
pub fn opt(events: &Vec<Event>, index: usize, names: &[Name]) -> (r: usize)
    requires
        index <= events.len(),
        spec_opt(events@, index as int, names@) is Some,
    ensures
        Some(r as int) == spec_opt(events@, index as int, names@),
{
    let mut i = index;
    loop
        invariant
            index <= i <= events.len(),
            spec_opt(events@, i as int, names@) == spec_opt(events@, index as int, names@),
            spec_opt(events@, i as int, names@) is Some,
        decreases events.len() - i,
    {
        if i >= events.len() {
            return i;
        }
        let event = events[i];
        if !has_name(names, event.name) || event.kind != Kind::Enter {
            return i;
        }
        proof {
            lemma_span_close_after(events@, i + 1, 1, event.name);
        }
        i = close_span(events, i + 1, event.name);
    }
}

} // verus!

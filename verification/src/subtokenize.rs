//! Deal with content in other content: connecting linked events.
//!
//! Events are a flat list, but they can be connected to each other with a
//! [`Link`][crate::event::Link].
//! Links occur on enter events of void spans.

use vstd::prelude::*;
use crate::event::{Event, Link, Point};
use crate::util::edit_map::{EditMap, EditView, spec_add, lemma_find};

verus! {

/// What a round of resolving found: whether everything is done, and the
/// identifiers of the definitions and footnote definitions that were seen.
#[derive(Debug)]
pub struct Subresult {
    /// Whether there is nothing left to do.
    pub done: bool,
    /// Identifiers of GFM footnote definitions.
    pub gfm_footnote_definitions: Vec<String>,
    /// Identifiers of definitions.
    pub definitions: Vec<String>,
}

/// The events with the event at `previous` linked forward to `next`, and
/// the event at `next` linked back to `previous`.
pub open spec fn spec_link_to(events: Seq<Event>, previous: int, next: int) -> Seq<Event> {
    let prev_link = events[previous].link.unwrap();
    let e1 = events.update(
        previous,
        Event { link: Some(Link { next: Some(next as usize), ..prev_link }), ..events[previous] },
    );
    let next_link = e1[next].link.unwrap();
    e1.update(
        next,
        Event { link: Some(Link { previous: Some(previous as usize), ..next_link }), ..e1[next] },
    )
}

/// Whether the events at `previous` and `next` can be linked: both exist and
/// both carry a link.
pub open spec fn can_link_to(events: Seq<Event>, previous: int, next: int) -> bool {
    0 <= previous < events.len() && 0 <= next < events.len() && events[previous].link is Some
        && events[next].link is Some
}

/// Link two [`Event`][]s: the event at `index` to the event two before it
/// (the enter of the previous void span).
pub fn link(events: &mut Vec<Event>, index: usize)
    requires
        index >= 2,
        can_link_to(old(events)@, index - 2, index as int),
    ensures
        final(events)@ == spec_link_to(old(events)@, index - 2, index as int),
{
    link_to(events, index - 2, index);
}

/// Link two arbitrary [`Event`][]s together.
pub fn link_to(events: &mut Vec<Event>, previous: usize, next: usize)
    requires
        can_link_to(old(events)@, previous as int, next as int),
    ensures
        final(events)@ == spec_link_to(old(events)@, previous as int, next as int),
{
    let mut prev_event = events[previous];
    let prev_link = prev_event.link.unwrap();
    prev_event.link = Some(Link { next: Some(next), ..prev_link });
    events.set(previous, prev_event);
    let mut next_event = events[next];
    let next_link = next_event.link.unwrap();
    next_event.link = Some(Link { previous: Some(previous), ..next_link });
    events.set(next, next_event);
}


/// Linking two events connects them both ways, keeps what each link
/// carries, and leaves every other event as it was.
pub proof fn lemma_link_to_connects(events: Seq<Event>, previous: int, next: int)
    requires
        can_link_to(events, previous, next),
        previous != next,
    ensures
        spec_link_to(events, previous, next).len() == events.len(),
        spec_link_to(events, previous, next)[previous].link.unwrap().next == Some(next as usize),
        spec_link_to(events, previous, next)[next].link.unwrap().previous == Some(
            previous as usize,
        ),
        spec_link_to(events, previous, next)[previous].link.unwrap().content
            == events[previous].link.unwrap().content,
        spec_link_to(events, previous, next)[next].link.unwrap().content
            == events[next].link.unwrap().content,
        forall|i: int|
            0 <= i < events.len() && i != previous && i != next ==> #[trigger] spec_link_to(
                events,
                previous,
                next,
            )[i] == events[i],
{
}


/// Where a walk over child events stands: the index in `events` of the link
/// whose chunk is being filled, the slices closed so far (each the index of
/// its link in `events` and the index of its first child event), the index
/// of the first child event of the open slice, the last `previous` read from
/// a sublink, and the child events with the links fixed so far.
pub type DivideView = (usize, Seq<(usize, usize)>, usize, Option<usize>, Seq<Event>);

/// Whether `point` lies after `end`.
pub open spec fn after_end(point: Point, end: Point) -> bool {
    point.index > end.index || (point.index == end.index && point.vs > end.vs)
}

/// Whether `x` fits in a `usize`.
pub open spec fn in_usize(x: int) -> bool {
    0 <= x <= usize::MAX
}

/// At child event `c`: when it starts after the end of the current chunk,
/// close the open slice and move on to the next link.
pub open spec fn split_step(events: Seq<Event>, s: DivideView, c: int) -> DivideView {
    if after_end(s.4[c].point, events[s.0 + 1].point) {
        (events[s.0 as int].link.unwrap().next.unwrap(), s.1.push((s.0, s.2)), c as usize, s.3, s.4)
    } else {
        s
    }
}

/// Whether [`split_step`] can be taken: the end of the chunk exists, and a
/// chunk that is left has a next one.
pub open spec fn split_ok(events: Seq<Event>, s: DivideView, c: int) -> bool {
    &&& 0 <= c < s.4.len()
    &&& s.0 + 1 < events.len()
    &&& after_end(s.4[c].point, events[s.0 + 1].point) ==> (events[s.0 as int].link matches Some(
        l,
    ) && l.next is Some)
}

/// The index in `events`, shifted by what was added and removed before,
/// that the sublink before the one at the current child event points to.
pub open spec fn prev_target(s: DivideView, acc: (usize, usize)) -> int {
    let op = s.3.unwrap() as int;
    let li = s.0 as int;
    let n = s.1.len() as int;
    let new_link = if n == 0 {
        op + li + 2
    } else {
        op + li - (n - 1) * 2
    };
    new_link + acc.1 - acc.0
}

/// Whether the child event at `c` continues a sublink.
pub open spec fn continues_sublink(s: DivideView, c: int) -> bool {
    s.4[c].link matches Some(l) && l.previous is Some
}

/// Whether the child event at `c` has a sublink onwards.
pub open spec fn has_next_sublink(s: DivideView, c: int) -> bool {
    s.4[c].link matches Some(l) && l.next is Some
}

/// At child event `c`: when it continues a sublink, the event that the
/// sublink comes from points to where that event will stand.
pub open spec fn fix_prev(s: DivideView, acc: (usize, usize), c: int) -> DivideView {
    if continues_sublink(s, c) {
        let op = s.3.unwrap() as int;
        let e = s.4[op];
        (
            s.0,
            s.1,
            s.2,
            s.3,
            s.4.update(
                op,
                Event {
                    link: Some(Link { next: Some(prev_target(s, acc) as usize), ..e.link.unwrap() }),
                    ..e
                },
            ),
        )
    } else {
        s
    }
}

/// Whether [`fix_prev`] can be taken: the event the sublink comes from is
/// known, exists, carries a link, and each step of the index arithmetic fits.
pub open spec fn fix_prev_ok(s: DivideView, acc: (usize, usize), c: int) -> bool {
    continues_sublink(s, c) ==> {
        let op = s.3.unwrap() as int;
        let li = s.0 as int;
        let n = s.1.len() as int;
        let new_link = if n == 0 {
            op + li + 2
        } else {
            op + li - (n - 1) * 2
        };
        &&& s.3 is Some
        &&& op < s.4.len()
        &&& s.4[op].link is Some
        &&& in_usize(op + li)
        &&& in_usize(new_link)
        &&& in_usize((n - 1) * 2) || n == 0
        &&& in_usize(new_link + acc.1)
        &&& in_usize(new_link + acc.1 - acc.0)
    }
}

/// At child event `c`: when its sublink goes on, the next event's `previous`
/// is shifted to where this event will stand, and its old value is kept.
pub open spec fn fix_next(s: DivideView, acc: (usize, usize), c: int) -> DivideView {
    if has_next_sublink(s, c) {
        let nx = s.4[c].link.unwrap().next.unwrap() as int;
        let sn = s.4[nx].link.unwrap();
        let np = match sn.previous {
            Some(p) => Some((p + s.0 - s.1.len() * 2 + acc.1 - acc.0) as usize),
            None => None,
        };
        (s.0, s.1, s.2, sn.previous, s.4.update(nx, Event { link: Some(Link { previous: np, ..sn }), ..s.4[nx] }))
    } else {
        s
    }
}

/// Whether [`fix_next`] can be taken: the next event exists and carries a
/// link, and each step of the index arithmetic fits.
pub open spec fn fix_next_ok(s: DivideView, acc: (usize, usize), c: int) -> bool {
    has_next_sublink(s, c) ==> {
        let nx = s.4[c].link.unwrap().next.unwrap() as int;
        let li = s.0 as int;
        let n2 = (s.1.len() * 2) as int;
        &&& nx < s.4.len()
        &&& s.4[nx].link is Some
        &&& in_usize(n2)
        &&& s.4[nx].link.unwrap().previous matches Some(p) ==> {
            &&& in_usize(p + li)
            &&& in_usize(p + li - n2)
            &&& in_usize(p + li - n2 + acc.1)
            &&& in_usize(p + li - n2 + acc.1 - acc.0)
        }
    }
}

/// One step of the walk, at child event `c`.
pub open spec fn divide_step(events: Seq<Event>, s: DivideView, acc: (usize, usize), c: int) -> DivideView {
    fix_next(fix_prev(split_step(events, s, c), acc, c), acc, c)
}

/// Whether the step at child event `c` can be taken.
pub open spec fn divide_step_ok(events: Seq<Event>, s: DivideView, acc: (usize, usize), c: int) -> bool {
    &&& split_ok(events, s, c)
    &&& fix_prev_ok(split_step(events, s, c), acc, c)
    &&& fix_next_ok(fix_prev(split_step(events, s, c), acc, c), acc, c)
}

/// The walk over the first `k` child events.
pub open spec fn divide_walk(events: Seq<Event>, start: DivideView, acc: (usize, usize), k: int) -> DivideView
    decreases k,
{
    if k <= 0 {
        start
    } else {
        divide_step(events, divide_walk(events, start, acc, k - 1), acc, k - 1)
    }
}

/// Whether each of the first `k` steps of the walk can be taken.
pub open spec fn divide_walk_ok(events: Seq<Event>, start: DivideView, acc: (usize, usize), k: int) -> bool
    decreases k,
{
    k <= 0 || (divide_walk_ok(events, start, acc, k - 1) && divide_step_ok(
        events,
        divide_walk(events, start, acc, k - 1),
        acc,
        k - 1,
    ))
}

/// Where the walk over all child events starts: at the first link, with no
/// slices, and nothing seen.
pub open spec fn divide_start(link_index: usize, child: Seq<Event>) -> DivideView {
    (link_index, Seq::empty(), 0, None, child)
}

/// The walk over all child events.
pub open spec fn divided(events: Seq<Event>, link_index: usize, child: Seq<Event>, acc: (usize, usize)) -> DivideView {
    divide_walk(events, divide_start(link_index, child), acc, child.len() as int)
}

/// All slices: those closed by the walk, and the open one when there are
/// child events.
pub open spec fn divided_slices(events: Seq<Event>, link_index: usize, child: Seq<Event>, acc: (usize, usize)) -> Seq<(usize, usize)> {
    let s = divided(events, link_index, child, acc);
    if child.len() > 0 {
        s.1.push((s.0, s.2))
    } else {
        s.1
    }
}

/// Where the child events of slice `i` end.
pub open spec fn slice_end(slices: Seq<(usize, usize)>, child: Seq<Event>, i: int) -> int {
    if i + 1 >= slices.len() {
        child.len() as int
    } else {
        slices[i + 1].1 as int
    }
}

/// The edits after placing the last `d` slices, last first: each replaces
/// the enter and exit of its link with its child events.
pub open spec fn inject(edits: Seq<EditView>, slices: Seq<(usize, usize)>, child: Seq<Event>, d: int) -> Seq<EditView>
    decreases d,
{
    if d <= 0 {
        edits
    } else {
        let i = slices.len() - d;
        spec_add(
            inject(edits, slices, child, d - 1),
            slices[i].0,
            2,
            child.subrange(slices[i].1 as int, slice_end(slices, child, i)),
        )
    }
}

proof fn lemma_walk_ok_prefix(events: Seq<Event>, start: DivideView, acc: (usize, usize), k: int, j: int)
    requires
        divide_walk_ok(events, start, acc, k),
        0 <= j < k,
    ensures
        divide_walk_ok(events, start, acc, j + 1),
        divide_step_ok(events, divide_walk(events, start, acc, j), acc, j),
    decreases k,
{
    if j + 1 < k {
        lemma_walk_ok_prefix(events, start, acc, k - 1, j);
    }
}

proof fn lemma_add_keeps_bound(edits: Seq<EditView>, index: usize, add: Seq<Event>, b: int)
    requires
        b >= 2,
        forall|k: int| 0 <= k < edits.len() ==> edits[k].1 + 2 <= b,
    ensures
        forall|k: int|
            0 <= k < spec_add(edits, index, 2, add).len() ==> spec_add(edits, index, 2, add)[k].1
                <= b,
{
    lemma_find(edits, index);
}

/// The step of [`split_step`].
fn split_chunk(
    events: &Vec<Event>,
    child: &Vec<Event>,
    c: usize,
    link_index: &mut usize,
    slices: &mut Vec<(usize, usize)>,
    slice_start: &mut usize,
    old_prev: Option<usize>,
)
    requires
        split_ok(events@, (*old(link_index), old(slices)@, *old(slice_start), old_prev, child@), c as int),
    ensures
        (*final(link_index), final(slices)@, *final(slice_start), old_prev, child@) == split_step(
            events@,
            (*old(link_index), old(slices)@, *old(slice_start), old_prev, child@),
            c as int,
        ),
{
    let li = *link_index;
    let count = events.len();
    proof {
        assert(li + 1 < count);
    }
    let current = child[c].point;
    let end = events[li + 1].point;
    if current.index > end.index || (current.index == end.index && current.vs > end.vs) {
        slices.push((*link_index, *slice_start));
        *slice_start = c;
        *link_index = events[*link_index].link.unwrap().next.unwrap();
    }
}

/// The step of [`fix_prev`].
fn fix_previous(
    child: &mut Vec<Event>,
    c: usize,
    link_index: usize,
    slices: &Vec<(usize, usize)>,
    slice_start: usize,
    old_prev: Option<usize>,
    acc_before: (usize, usize),
)
    requires
        0 <= c < old(child)@.len(),
        fix_prev_ok((link_index, slices@, slice_start, old_prev, old(child)@), acc_before, c as int),
    ensures
        (link_index, slices@, slice_start, old_prev, final(child)@) == fix_prev(
            (link_index, slices@, slice_start, old_prev, old(child)@),
            acc_before,
            c as int,
        ),
{
    let here = child[c];
    if let Some(sublink_curr) = here.link {
        if sublink_curr.previous.is_some() {
            let op = old_prev.unwrap();
            let n = slices.len();
            let new_link = if n == 0 {
                op + link_index + 2
            } else {
                op + link_index - (n - 1) * 2
            };
            let mut prev_event = child[op];
            let prev_link = prev_event.link.unwrap();
            prev_event.link = Some(Link { next: Some(new_link + acc_before.1 - acc_before.0), ..prev_link });
            child.set(op, prev_event);
        }
    }
}

/// The step of [`fix_next`].
fn fix_next_link(
    child: &mut Vec<Event>,
    c: usize,
    link_index: usize,
    slices: &Vec<(usize, usize)>,
    slice_start: usize,
    old_prev: &mut Option<usize>,
    acc_before: (usize, usize),
)
    requires
        0 <= c < old(child)@.len(),
        fix_next_ok((link_index, slices@, slice_start, *old(old_prev), old(child)@), acc_before, c as int),
    ensures
        (link_index, slices@, slice_start, *final(old_prev), final(child)@) == fix_next(
            (link_index, slices@, slice_start, *old(old_prev), old(child)@),
            acc_before,
            c as int,
        ),
{
    let here = child[c];
    if let Some(sublink_curr) = here.link {
        if let Some(next) = sublink_curr.next {
            let mut next_event = child[next];
            let sublink_next = next_event.link.unwrap();
            *old_prev = sublink_next.previous;
            let moved = match sublink_next.previous {
                Some(previous) => Some(
                    previous + link_index - (slices.len() * 2) + acc_before.1 - acc_before.0,
                ),
                None => None,
            };
            next_event.link = Some(Link { previous: moved, ..sublink_next });
            child.set(next, next_event);
        }
    }
}

/// Divide `child_events` over links in `events`, the first of which is at
/// `link_index`: each linked chunk gets the child events that start within
/// it, through `map`, in place of its enter and exit; links between child
/// events are shifted to where those events will stand. `acc_before` holds
/// how many events were removed and added by earlier calls; the result
/// holds the same after this one.
pub fn divide_events(
    map: &mut EditMap,
    events: &Vec<Event>,
    link_index: usize,
    child_events: &mut Vec<Event>,
    acc_before: (usize, usize),
) -> (r: (usize, usize))
    requires
        divide_walk_ok(
            events@,
            divide_start(link_index, old(child_events)@),
            acc_before,
            old(child_events)@.len() as int,
        ),
        in_usize(
            acc_before.0 + divided_slices(events@, link_index, old(child_events)@, acc_before).len()
                * 2,
        ),
        in_usize(acc_before.1 + old(child_events)@.len()),
        forall|k: int|
            0 <= k < old(map)@.len() ==> #[trigger] old(map)@[k].1 + 2 * divided_slices(
                events@,
                link_index,
                old(child_events)@,
                acc_before,
            ).len() <= usize::MAX,
    ensures
        ({
            let slices = divided_slices(events@, link_index, old(child_events)@, acc_before);
            let child = divided(events@, link_index, old(child_events)@, acc_before).4;
            &&& r == ((acc_before.0 + slices.len() * 2) as usize, (acc_before.1
                + old(child_events)@.len()) as usize)
            &&& final(map)@ == inject(old(map)@, slices, child, slices.len() as int)
            &&& final(child_events)@.len() == 0
        }),
{
    let ghost start = divide_start(link_index, child_events@);
    let ghost len0 = child_events@.len() as int;
    let mut link_index = link_index;
    let mut child_index: usize = 0;
    let mut slices: Vec<(usize, usize)> = Vec::new();
    let mut slice_start: usize = 0;
    let mut old_prev: Option<usize> = None;
    let len = child_events.len();
    assert((link_index, slices@, slice_start, old_prev, child_events@) == divide_walk(
        events@,
        start,
        acc_before,
        0,
    ));
    while child_index < len
        invariant
            len == len0,
            child_index <= len,
            child_events@.len() == len,
            (link_index, slices@, slice_start, old_prev, child_events@) == divide_walk(
                events@,
                start,
                acc_before,
                child_index as int,
            ),
            divide_walk_ok(events@, start, acc_before, len0),
            slice_start <= child_index,
            slices@.len() <= child_index,
            slices@.len() > 0 ==> slices@[0].1 == 0,
            forall|i: int, j: int|
                #![trigger slices@[i], slices@[j]]
                0 <= i < j < slices@.len() ==> slices@[i].1 <= slices@[j].1,
            forall|i: int| 0 <= i < slices@.len() ==> #[trigger] slices@[i].1 <= slice_start,
            slices@.len() == 0 ==> slice_start == 0,
        decreases len - child_index,
    {
        proof {
            lemma_walk_ok_prefix(events@, start, acc_before, len0, child_index as int);
        }
        split_chunk(
            events,
            child_events,
            child_index,
            &mut link_index,
            &mut slices,
            &mut slice_start,
            old_prev,
        );
        fix_previous(child_events, child_index, link_index, &slices, slice_start, old_prev, acc_before);
        fix_next_link(child_events, child_index, link_index, &slices, slice_start, &mut old_prev, acc_before);
        child_index = child_index + 1;
    }
    if len > 0 {
        slices.push((link_index, slice_start));
    }
    let ghost all = slices@;
    let ghost child = child_events@;
    let ghost edits0 = map@;
    let mut index = slices.len();
    while index > 0
        invariant
            all == slices@,
            index <= all.len(),
            all.len() > 0 ==> all[0].1 == 0,
            all.len() == 0 ==> child.len() == 0,
            forall|i: int, j: int| #![trigger all[i], all[j]] 0 <= i < j < all.len() ==> all[i].1 <= all[j].1,
            forall|i: int| 0 <= i < all.len() ==> #[trigger] all[i].1 <= child.len(),
            child_events@ == child.subrange(
                0,
                if index == all.len() {
                    child.len() as int
                } else {
                    all[index as int].1 as int
                },
            ),
            map@ == inject(edits0, all, child, all.len() - index),
            2 * all.len() <= usize::MAX,
            forall|k: int|
                0 <= k < map@.len() ==> #[trigger] map@[k].1 + 2 * index <= usize::MAX,
        decreases index,
    {
        index = index - 1;
        let at = slices[index].1;
        let part = child_events.split_off(at);
        proof {
            lemma_find(map@, slices@[index as int].0);
            lemma_add_keeps_bound(
                map@,
                slices@[index as int].0,
                part@,
                usize::MAX - 2 * index,
            );
            assert(part@ == child.subrange(at as int, slice_end(all, child, index as int)));
        }
        map.add(slices[index].0, 2, part);
    }
    (acc_before.0 + (slices.len() * 2), acc_before.1 + len)
}


/// Where child event `k` stands in the events once divided, when it lies in
/// the slice numbered `n` (from zero), which takes the place of the enter
/// and exit of the link at `link_index`: after the events before that link,
/// less the enter and exit of each of the `n` earlier links, plus the child
/// events before `k` that the earlier slices put in their place; shifted by
/// what earlier calls removed and added.
pub open spec fn landing(k: int, link_index: int, n: int, acc: (usize, usize)) -> int {
    link_index - 2 * n + k + acc.1 - acc.0
}

/// Sublinks between child events point at where those events land. At a
/// child event `c` that continues a sublink from the event two before it
/// (the enter of the previous void span), the step points that event
/// forward to where `c` lands; and when `c` goes on to a next event that
/// points back at `c`, the step points that event back to where `c` lands.
/// Both shift by what earlier calls removed and added.
pub proof fn lemma_step_links_land(events: Seq<Event>, s: DivideView, acc: (usize, usize), c: int)
    requires
        divide_step_ok(events, s, acc, c),
        2 <= c <= usize::MAX,
    ensures
        ({
            let s1 = split_step(events, s, c);
            let s2 = fix_prev(s1, acc, c);
            let r = divide_step(events, s, acc, c);
            let lands = landing(c, s1.0 as int, s1.1.len() as int, acc);
            let nx = s2.4[c].link.unwrap().next.unwrap() as int;
            &&& (continues_sublink(s1, c) && s1.3 == Some((c - 2) as usize) && (has_next_sublink(
                s2,
                c,
            ) ==> nx != c - 2)) ==> r.4[c - 2].link.unwrap().next == Some(lands as usize)
            &&& (has_next_sublink(s2, c) && s2.4[nx].link.unwrap().previous == Some(c as usize))
                ==> r.4[nx].link.unwrap().previous == Some(lands as usize)
        }),
{
    let s1 = split_step(events, s, c);
    let s2 = fix_prev(s1, acc, c);
    assert(s2.0 == s1.0 && s2.1 == s1.1 && s2.4.len() == s1.4.len());
    if continues_sublink(s1, c) && s1.3 == Some((c - 2) as usize) {
        assert(prev_target(s1, acc) == landing(c, s1.0 as int, s1.1.len() as int, acc));
        assert(s2.4[c - 2].link.unwrap().next == Some(
            landing(c, s1.0 as int, s1.1.len() as int, acc) as usize,
        ));
    }
}

} // verus!

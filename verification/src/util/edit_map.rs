//! Edits to a list of events that are gathered first and applied together,
//! so that indices stay valid while the edits are made.

use vstd::prelude::*;
use crate::event::{Event, Link};

verus! {

/// One edit: at an index, remove some events and add others.
pub type EditView = (usize, usize, Seq<Event>);

/// Gathered edits.
pub struct EditMap {
    /// The edits, one per index: where, how many events to remove, and what
    /// to add.
    map: Vec<(usize, usize, Vec<Event>)>,
}

/// The index in `edits` of the edit at `index`, if there is one.
pub open spec fn find(edits: Seq<EditView>, index: usize) -> Option<int>
    decreases edits.len(),
{
    if edits.len() == 0 {
        None
    } else {
        match find(edits.drop_last(), index) {
            Some(i) => Some(i),
            None => if edits.last().0 == index {
                Some(edits.len() - 1)
            } else {
                None
            },
        }
    }
}

/// The edits with another one: merged into the edit at the same index (more
/// to remove, and the events added after those already there), or new.
pub open spec fn spec_add(edits: Seq<EditView>, index: usize, remove: usize, add: Seq<Event>) -> Seq<
    EditView,
> {
    match find(edits, index) {
        Some(i) => edits.update(i, (index, (edits[i].1 + remove) as usize, edits[i].2 + add)),
        None => edits.push((index, remove, add)),
    }
}

impl View for EditMap {
    type V = Seq<EditView>;

    closed spec fn view(&self) -> Seq<EditView> {
        Seq::new(self.map@.len(), |i: int| (self.map@[i].0, self.map@[i].1, self.map@[i].2@))
    }
}

pub(crate) proof fn lemma_find(edits: Seq<EditView>, index: usize)
    ensures
        find(edits, index) matches Some(i) ==> 0 <= i < edits.len() && edits[i].0 == index
            && forall|j: int| 0 <= j < i ==> edits[j].0 != index,
        find(edits, index) is None ==> forall|j: int| 0 <= j < edits.len() ==> edits[j].0 != index,
    decreases edits.len(),
{
    if edits.len() > 0 {
        lemma_find(edits.drop_last(), index);
        assert(forall|j: int| 0 <= j < edits.len() - 1 ==> edits.drop_last()[j] == edits[j]);
    }
}

impl EditMap {
    /// No edits.
    pub fn new() -> (r: EditMap)
        ensures
            r@ == Seq::<EditView>::empty(),
    {
        let r = EditMap { map: Vec::new() };
        assert(r@ =~= Seq::<EditView>::empty());
        r
    }

    /// Add an edit: at `index`, remove `remove` events and add `add`.
    pub fn add(&mut self, index: usize, remove: usize, add: Vec<Event>)
        requires
            find(old(self)@, index) matches Some(i) ==> old(self)@[i].1 + remove <= usize::MAX,
        ensures
            final(self)@ == spec_add(old(self)@, index, remove, add@),
    {
        proof {
            lemma_find(self@, index);
        }
        let ghost edits = self@;
        let mut i: usize = 0;
        while i < self.map.len()
            invariant
                edits == self@,
                i <= self.map@.len(),
                forall|j: int| 0 <= j < i ==> edits[j].0 != index,
                find(edits, index) matches Some(k) ==> old(self)@[k].1 + remove <= usize::MAX,
                edits == old(self)@,
                find(edits, index) matches Some(k) ==> 0 <= k < edits.len() && edits[k].0
                    == index && forall|j: int| 0 <= j < k ==> edits[j].0 != index,
                find(edits, index) is None ==> forall|j: int|
                    0 <= j < edits.len() ==> edits[j].0 != index,
            decreases self.map@.len() - i,
        {
            if self.map[i].0 == index {
                assert(edits[i as int].0 == index);
                assert(find(edits, index) == Some(i as int));
                let mut events = self.map[i].2.clone();
                let mut more = add;
                events.append(&mut more);
                let total = self.map[i].1 + remove;
                self.map.set(i, (index, total, events));
                assert(self@ =~= spec_add(edits, index, remove, add@));
                return;
            }
            i = i + 1;
        }
        self.map.push((index, remove, add));
        assert(self@ =~= spec_add(edits, index, remove, add@));
    }
}

/// Whether an edit removes the event at `p`.
pub open spec fn removed(edits: Seq<EditView>, p: int) -> bool {
    exists|k: int| 0 <= k < edits.len() && #[trigger] edits[k].0 <= p && p < edits[k].0 + edits[k].1
}

/// The events that the edit at index `i` adds (none when there is no edit
/// there).
pub open spec fn adds_at(edits: Seq<EditView>, i: int) -> Seq<Event> {
    match find(edits, i as usize) {
        Some(k) => edits[k].2,
        None => Seq::empty(),
    }
}

/// How many events the edited list has before what comes from index `i`.
pub open spec fn out_len(edits: Seq<EditView>, i: int) -> int
    decreases i,
{
    if i <= 0 {
        0
    } else {
        out_len(edits, i - 1) + adds_at(edits, i - 1).len() + if removed(edits, i - 1) {
            0int
        } else {
            1int
        }
    }
}

/// Where the event at `p` goes in the edited list.
pub open spec fn new_pos(edits: Seq<EditView>, p: int) -> int {
    out_len(edits, p) + adds_at(edits, p).len()
}

/// A link index moved with the event it points at (indices past the end
/// are kept).
pub open spec fn remap_index(edits: Seq<EditView>, len: int, q: usize) -> usize {
    if q < len {
        new_pos(edits, q as int) as usize
    } else {
        q
    }
}

/// An event whose link now points where the linked events went.
pub open spec fn remap(edits: Seq<EditView>, len: int, event: Event) -> Event {
    match event.link {
        Some(link) => Event {
            link: Some(
                Link {
                    previous: match link.previous {
                        Some(q) => Some(remap_index(edits, len, q)),
                        None => None,
                    },
                    next: match link.next {
                        Some(q) => Some(remap_index(edits, len, q)),
                        None => None,
                    },
                    ..link
                },
            ),
            ..event
        },
        None => event,
    }
}

/// The edited list, for what comes before index `i`: at each index, the
/// events added there, then the event itself unless it is removed.
pub open spec fn edited(events: Seq<Event>, edits: Seq<EditView>, i: int) -> Seq<Event>
    decreases i,
{
    if i <= 0 {
        Seq::empty()
    } else {
        edited(events, edits, i - 1) + adds_at(edits, i - 1) + if removed(edits, i - 1) {
            Seq::empty()
        } else {
            seq![remap(edits, events.len() as int, events[i - 1])]
        }
    }
}

/// The events with all edits applied: links keep pointing at the same
/// events.
pub open spec fn spec_consume(events: Seq<Event>, edits: Seq<EditView>) -> Seq<Event> {
    edited(events, edits, events.len() as int) + adds_at(edits, events.len() as int)
}

/// Every edit is at an index of the events or at their end.
pub open spec fn edits_within(edits: Seq<EditView>, len: int) -> bool {
    forall|k: int| 0 <= k < edits.len() ==> #[trigger] edits[k].0 <= len
}

proof fn lemma_edited_len(events: Seq<Event>, edits: Seq<EditView>, i: int)
    requires
        0 <= i,
    ensures
        edited(events, edits, i).len() == out_len(edits, i),
    decreases i,
{
    if i > 0 {
        lemma_edited_len(events, edits, i - 1);
    }
}

proof fn lemma_out_len_mono(edits: Seq<EditView>, i: int, j: int)
    requires
        0 <= i <= j,
    ensures
        out_len(edits, i) <= out_len(edits, j),
        new_pos(edits, i) <= out_len(edits, i + 1),
    decreases j,
{
    if i < j {
        lemma_out_len_mono(edits, i, j - 1);
    }
}

proof fn lemma_edited_prefix(events: Seq<Event>, edits: Seq<EditView>, i: int, j: int)
    requires
        0 <= i <= j,
    ensures
        edited(events, edits, i).len() <= edited(events, edits, j).len(),
        forall|k: int|
            0 <= k < edited(events, edits, i).len() ==> #[trigger] edited(events, edits, j)[k]
                == edited(events, edits, i)[k],
    decreases j,
{
    if i < j {
        lemma_edited_prefix(events, edits, i, j - 1);
    }
}

/// Applying edits puts every event that is not removed, with its link moved
/// along, at the place `new_pos` says; and the added events of an index
/// come right before it.
pub proof fn lemma_consume_places_events(events: Seq<Event>, edits: Seq<EditView>, p: int)
    requires
        0 <= p < events.len(),
        !removed(edits, p),
    ensures
        0 <= new_pos(edits, p) < spec_consume(events, edits).len(),
        spec_consume(events, edits)[new_pos(edits, p)] == remap(edits, events.len() as int, events[p]),
        forall|k: int|
            0 <= k < adds_at(edits, p).len() ==> spec_consume(events, edits)[out_len(edits, p) + k]
                == #[trigger] adds_at(edits, p)[k],
{
    let len = events.len() as int;
    lemma_edited_len(events, edits, p);
    lemma_edited_len(events, edits, p + 1);
    lemma_edited_prefix(events, edits, p + 1, len);
    let e = edited(events, edits, p + 1);
    assert(e == edited(events, edits, p) + adds_at(edits, p) + seq![remap(edits, len, events[p])]);
    assert(e[new_pos(edits, p)] == remap(edits, len, events[p]));
    assert forall|k: int| 0 <= k < adds_at(edits, p).len() implies e[out_len(edits, p) + k]
        == #[trigger] adds_at(edits, p)[k] by {}
}

impl EditMap {
    /// The index in the edits of the edit at `index`, if there is one.
    fn find_edit(&self, index: usize) -> (r: Option<usize>)
        ensures
            r matches Some(k) ==> find(self@, index) == Some(k as int) && k < self.map@.len(),
            r is None ==> find(self@, index) is None,
    {
        proof {
            lemma_find(self@, index);
        }
        let mut i: usize = 0;
        while i < self.map.len()
            invariant
                i <= self.map@.len(),
                forall|j: int| 0 <= j < i ==> self@[j].0 != index,
                find(self@, index) matches Some(k) ==> 0 <= k < self@.len() && self@[k].0 == index
                    && forall|j: int| 0 <= j < k ==> self@[j].0 != index,
                find(self@, index) is None ==> forall|j: int|
                    0 <= j < self@.len() ==> self@[j].0 != index,
            decreases self.map@.len() - i,
        {
            if self.map[i].0 == index {
                assert(self@[i as int].0 == index);
                return Some(i);
            }
            i = i + 1;
        }
        None
    }

    /// The number of events the edit at `index` adds.
    fn adds_len(&self, index: usize) -> (r: usize)
        ensures
            r == adds_at(self@, index as int).len(),
    {
        match self.find_edit(index) {
            Some(k) => {
                assert(self@[k as int].2 == self.map@[k as int].2@);
                self.map[k].2.len()
            },
            None => 0,
        }
    }

    /// Whether an edit removes the event at `p`.
    fn is_removed(&self, p: usize) -> (r: bool)
        ensures
            r == removed(self@, p as int),
    {
        let mut k: usize = 0;
        while k < self.map.len()
            invariant
                k <= self.map@.len(),
                forall|j: int|
                    0 <= j < k ==> !(#[trigger] self@[j].0 <= p && p < self@[j].0 + self@[j].1),
            decreases self.map@.len() - k,
        {
            let (at, remove) = (self.map[k].0, self.map[k].1);
            if at <= p && (p - at) < remove {
                assert(self@[k as int].0 <= p && p < self@[k as int].0 + self@[k as int].1);
                return true;
            }
            k = k + 1;
        }
        false
    }

    /// Append the events the edit at `index` adds.
    fn push_adds(&self, index: usize, out: &mut Vec<Event>)
        requires
            old(out)@.len() + adds_at(self@, index as int).len() <= usize::MAX,
        ensures
            final(out)@ == old(out)@ + adds_at(self@, index as int),
    {
        match self.find_edit(index) {
            Some(k) => {
                let adds = &self.map[k].2;
                assert(self@[k as int].2 == adds@);
                let mut j: usize = 0;
                while j < adds.len()
                    invariant
                        j <= adds@.len(),
                        adds@ == self@[k as int].2,
                        out@ == old(out)@ + adds@.take(j as int),
                    decreases adds@.len() - j,
                {
                    out.push(adds[j]);
                    assert(adds@.take(j + 1) =~= adds@.take(j as int).push(adds@[j as int]));
                    j = j + 1;
                }
                assert(adds@.take(j as int) =~= adds@);
            },
            None => {
                assert(old(out)@ + adds_at(self@, index as int) =~= old(out)@);
            },
        }
    }

    /// Apply all edits to `events`, moving links along with the events they
    /// point at, and start over with no edits.
    pub fn consume(&mut self, events: &mut Vec<Event>)
        requires
            edits_within(old(self)@, old(events)@.len() as int),
            out_len(old(self)@, old(events)@.len() as int) + adds_at(
                old(self)@,
                old(events)@.len() as int,
            ).len() <= usize::MAX,
        ensures
            final(events)@ == spec_consume(old(events)@, old(self)@),
            final(self)@ == Seq::<EditView>::empty(),
    {
        let ghost edits = self@;
        let ghost old_events = events@;
        let len = events.len();
        let ghost total = out_len(edits, len as int) + adds_at(edits, len as int).len();
        // Where each event goes.
        let mut pos: Vec<usize> = Vec::new();
        let mut count: usize = 0;
        let mut p: usize = 0;
        while p < len
            invariant
                self@ == edits,
                len == old_events.len(),
                p <= len,
                count == out_len(edits, p as int),
                pos@.len() == p,
                forall|j: int| 0 <= j < p ==> pos@[j] == new_pos(edits, j),
                out_len(edits, len as int) + adds_at(edits, len as int).len() <= usize::MAX,
            decreases len - p,
        {
            proof {
                lemma_out_len_mono(edits, p as int + 1, len as int);
                lemma_out_len_mono(edits, p as int, p as int);
            }
            let a = self.adds_len(p);
            pos.push(count + a);
            let keep: usize = if self.is_removed(p) { 0 } else { 1 };
            count = count + a + keep;
            p = p + 1;
        }
        // The edited list.
        let mut out: Vec<Event> = Vec::new();
        let mut i: usize = 0;
        while i < len
            invariant
                self@ == edits,
                events@ == old_events,
                len == old_events.len(),
                i <= len,
                out@ == edited(old_events, edits, i as int),
                pos@.len() == len,
                forall|j: int| 0 <= j < len ==> pos@[j] == new_pos(edits, j),
                out_len(edits, len as int) + adds_at(edits, len as int).len() <= usize::MAX,
            decreases len - i,
        {
            proof {
                lemma_edited_len(old_events, edits, i as int);
                lemma_out_len_mono(edits, i as int + 1, len as int);
            }
            self.push_adds(i, &mut out);
            if !self.is_removed(i) {
                let event = events[i];
                let moved = remap_event(event, &pos, len, Ghost(edits));
                out.push(moved);
            }
            proof {
                let e = edited(old_events, edits, i as int + 1);
                assert(e == edited(old_events, edits, i as int) + adds_at(edits, i as int) + if removed(edits, i as int) {
                    Seq::<Event>::empty()
                } else {
                    seq![remap(edits, len as int, old_events[i as int])]
                });
                assert(out@ =~= e);
            }
            i = i + 1;
        }
        proof {
            lemma_edited_len(old_events, edits, len as int);
        }
        self.push_adds(len, &mut out);
        *events = out;
        self.map = Vec::new();
        assert(self@ =~= Seq::<EditView>::empty());
    }
}

/// A link index moved with the event it points at.
fn remap_index_exec(q: usize, pos: &Vec<usize>, len: usize, Ghost(edits): Ghost<Seq<EditView>>) -> (r: usize)
    requires
        pos@.len() == len,
        forall|j: int| 0 <= j < len ==> pos@[j] == new_pos(edits, j),
    ensures
        r == remap_index(edits, len as int, q),
{
    if q < len {
        pos[q]
    } else {
        q
    }
}

/// An event whose link points where the linked events went.
fn remap_event(event: Event, pos: &Vec<usize>, len: usize, Ghost(edits): Ghost<Seq<EditView>>) -> (r: Event)
    requires
        pos@.len() == len,
        forall|j: int| 0 <= j < len ==> pos@[j] == new_pos(edits, j),
    ensures
        r == remap(edits, len as int, event),
{
    match event.link {
        Some(link) => {
            let previous = match link.previous {
                Some(q) => Some(remap_index_exec(q, pos, len, Ghost(edits))),
                None => None,
            };
            let next = match link.next {
                Some(q) => Some(remap_index_exec(q, pos, len, Ghost(edits))),
                None => None,
            };
            Event { link: Some(Link { previous, next, ..link }), ..event }
        },
        None => event,
    }
}

} // verus!

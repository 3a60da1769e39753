//! Interaction events and the inbox that holds them until the widget they
//! belong to is declared again.
use std::collections::BTreeMap;
use vstd::prelude::*;
use crate::handle::HandleHash;

verus! {

broadcast use vstd::laws_cmp::group_laws_cmp;

/// What the user did to a widget.
#[derive(Debug, Clone, PartialEq, Eq)]
pub enum EventKind {
    ButtonPressed,
    CheckboxChecked(bool),
    NumberChanged(i32),
    TextboxChanged(String),
}

/// What an [`EventKind`] holds, as a mathematical value.
pub enum EventKindView {
    ButtonPressed,
    CheckboxChecked(bool),
    NumberChanged(i32),
    TextboxChanged(Seq<char>),
}

impl View for EventKind {
    type V = EventKindView;

    open spec fn view(&self) -> EventKindView {
        match *self {
            EventKind::ButtonPressed => EventKindView::ButtonPressed,
            EventKind::CheckboxChecked(b) => EventKindView::CheckboxChecked(b),
            EventKind::NumberChanged(n) => EventKindView::NumberChanged(n),
            EventKind::TextboxChanged(s) => EventKindView::TextboxChanged(s@),
        }
    }
}

impl EventKind {
    /// A copy with the same content.
    pub fn duplicate(&self) -> (kind: EventKind)
        ensures
            kind@ == self@,
    {
        match self {
            EventKind::ButtonPressed => EventKind::ButtonPressed,
            EventKind::CheckboxChecked(b) => EventKind::CheckboxChecked(*b),
            EventKind::NumberChanged(n) => EventKind::NumberChanged(*n),
            EventKind::TextboxChanged(s) => EventKind::TextboxChanged(s.clone()),
        }
    }
}

/// The views of a queue of events, in the same order.
pub open spec fn kinds_view(kinds: Seq<EventKind>) -> Seq<EventKindView> {
    kinds.map_values(|k: EventKind| k@)
}

/// An interaction with the widget of identity `handle_hash`.
#[derive(Debug, Clone)]
pub struct Event {
    pub handle_hash: HandleHash,
    pub kind: EventKind,
}

/// The events that wait for `id` in the inbox `inbox`: none where the inbox
/// has no queue for it.
pub open spec fn pending_in(
    inbox: Map<HandleHash, Seq<EventKindView>>,
    id: HandleHash,
) -> Seq<EventKindView> {
    if inbox.contains_key(id) {
        inbox[id]
    } else {
        Seq::empty()
    }
}

/// The inbox after one more event for `id` has arrived.
pub open spec fn inbox_push(
    inbox: Map<HandleHash, Seq<EventKindView>>,
    id: HandleHash,
    kind: EventKindView,
) -> Map<HandleHash, Seq<EventKindView>> {
    inbox.insert(id, pending_in(inbox, id).push(kind))
}

/// The inbox after all of `kinds` have arrived for `id`, first to last.
pub open spec fn inbox_push_all(
    inbox: Map<HandleHash, Seq<EventKindView>>,
    id: HandleHash,
    kinds: Seq<EventKindView>,
) -> Map<HandleHash, Seq<EventKindView>>
    decreases kinds.len(),
{
    if kinds.len() == 0 {
        inbox
    } else {
        inbox_push(inbox_push_all(inbox, id, kinds.drop_last()), id, kinds.last())
    }
}

/// The inbox after the events of `id` have been taken out.
pub open spec fn inbox_take(
    inbox: Map<HandleHash, Seq<EventKindView>>,
    id: HandleHash,
) -> Map<HandleHash, Seq<EventKindView>> {
    inbox.remove(id)
}

/// The inbox that a run of events makes, each queued in turn, first to
/// last.
pub open spec fn inbox_of(events: Seq<Event>) -> Map<HandleHash, Seq<EventKindView>>
    decreases events.len(),
{
    if events.len() == 0 {
        Map::empty()
    } else {
        inbox_push(inbox_of(events.drop_last()), events.last().handle_hash, events.last().kind@)
    }
}

/// What the events `events` did to the widget `id`, in their order.
pub open spec fn kinds_for(events: Seq<Event>, id: HandleHash) -> Seq<EventKindView>
    decreases events.len(),
{
    if events.len() == 0 {
        Seq::empty()
    } else if events.last().handle_hash == id {
        kinds_for(events.drop_last(), id).push(events.last().kind@)
    } else {
        kinds_for(events.drop_last(), id)
    }
}

/// The events of one session that no widget has consumed yet, queued by the
/// identity of the widget they are for.
#[derive(Debug)]
pub struct EventInbox {
    queues: BTreeMap<u32, Vec<EventKind>>,
}

impl View for EventInbox {
    type V = Map<HandleHash, Seq<EventKindView>>;

    closed spec fn view(&self) -> Map<HandleHash, Seq<EventKindView>> {
        Map::new(
            |h: HandleHash| self.queues@.contains_key(h.0),
            |h: HandleHash| kinds_view(self.queues@[h.0]@),
        )
    }
}

impl EventInbox {
    /// The events that wait for `id`, oldest first.
    pub open spec fn pending(&self, id: HandleHash) -> Seq<EventKindView> {
        pending_in(self@, id)
    }

    /// An inbox with no events.
    pub fn new() -> (inbox: EventInbox)
        ensures
            inbox@ == Map::<HandleHash, Seq<EventKindView>>::empty(),
    {
        let inbox = EventInbox { queues: BTreeMap::new() };
        assert(inbox@ =~= Map::<HandleHash, Seq<EventKindView>>::empty());
        inbox
    }

    /// The inbox that the run of events `events` makes: each event is
    /// queued for its widget, in the order of the run.
    pub fn from_events(events: Vec<Event>) -> (inbox: EventInbox)
        ensures
            inbox@ == inbox_of(events@),
    {
        let mut inbox = EventInbox::new();
        let ghost all = events@;
        for event in it: events.into_iter()
            invariant
                it.seq() == all,
                inbox@ == inbox_of(all.take(it.index())),
        {
            assert(all.take(it.index() + 1).drop_last() =~= all.take(it.index()));
            inbox.push(event.handle_hash, event.kind);
        }
        assert(all.take(all.len() as int) =~= all);
        inbox
    }

    /// Queues `kind` behind the events that already wait for `id`.
    pub fn push(&mut self, id: HandleHash, kind: EventKind)
        ensures
            final(self)@ == inbox_push(old(self)@, id, kind@),
    {
        let ghost before = self.queues@;
        let mut queue = match self.queues.remove(&id.0) {
            Some(q) => q,
            None => Vec::new(),
        };
        let ghost waiting = queue@;
        assert(kinds_view(waiting) =~= old(self).pending(id));
        queue.push(kind);
        assert(kinds_view(queue@) =~= kinds_view(waiting).push(kind@));
        self.queues.insert(id.0, queue);
        assert(self@ =~= inbox_push(old(self)@, id, kind@));
    }

    /// Copies of the events that wait for `id`, oldest first. They go on
    /// waiting.
    pub fn peek(&self, id: HandleHash) -> (kinds: Vec<EventKind>)
        ensures
            kinds_view(kinds@) == self.pending(id),
    {
        let mut kinds: Vec<EventKind> = Vec::new();
        match self.queues.get(&id.0) {
            Some(queue) => {
                let mut i: usize = 0;
                while i < queue.len()
                    invariant
                        i <= queue.len(),
                        kinds_view(kinds@) == kinds_view(queue@).take(i as int),
                    decreases queue.len() - i,
                {
                    let ghost before = kinds@;
                    let kind = queue[i].duplicate();
                    kinds.push(kind);
                    assert(kinds_view(kinds@) =~= kinds_view(before).push(kind@));
                    assert(kinds_view(queue@).take(i + 1) =~= kinds_view(queue@).take(
                        i as int,
                    ).push(queue@[i as int]@));
                    i += 1;
                }
                assert(kinds_view(queue@).take(queue@.len() as int) =~= kinds_view(queue@));
            },
            None => {
                assert(kinds_view(kinds@) =~= Seq::<EventKindView>::empty());
            },
        }
        kinds
    }

    /// Removes the events that wait for `id` and returns them, oldest first.
    /// Every event is handed out once: a second call finds none.
    pub fn take(&mut self, id: HandleHash) -> (kinds: Vec<EventKind>)
        ensures
            kinds_view(kinds@) == old(self).pending(id),
            final(self)@ == inbox_take(old(self)@, id),
    {
        let kinds = match self.queues.remove(&id.0) {
            Some(q) => q,
            None => Vec::new(),
        };
        assert(self@ =~= inbox_take(old(self)@, id));
        assert(kinds_view(kinds@) =~= old(self).pending(id));
        kinds
    }

    /// Whether no event waits for any widget.
    pub fn is_empty(&self) -> (r: bool)
        ensures
            r == (self@ == Map::<HandleHash, Seq<EventKindView>>::empty()),
    {
        let r = self.queues.is_empty();
        proof {
            if r {
                assert(self@ =~= Map::<HandleHash, Seq<EventKindView>>::empty());
            } else {
                let k = choose|k: u32| self.queues@.contains_key(k);
                assert(self@.contains_key(HandleHash(k)));
            }
        }
        r
    }
}

/// Pushing a run of events for one widget queues them behind what waited
/// for it, in the order pushed, and touches no other widget's queue.
pub proof fn lemma_push_all(
    inbox: Map<HandleHash, Seq<EventKindView>>,
    id: HandleHash,
    kinds: Seq<EventKindView>,
)
    ensures
        pending_in(inbox_push_all(inbox, id, kinds), id) == pending_in(inbox, id) + kinds,
        forall|other: HandleHash|
            other != id ==> pending_in(inbox_push_all(inbox, id, kinds), other) == pending_in(
                inbox,
                other,
            ),
    decreases kinds.len(),
{
    if kinds.len() == 0 {
        assert(pending_in(inbox, id) + kinds =~= pending_in(inbox, id));
    } else {
        lemma_push_all(inbox, id, kinds.drop_last());
        assert((pending_in(inbox, id) + kinds.drop_last()).push(kinds.last()) =~= pending_in(
            inbox,
            id,
        ) + kinds);
    }
}

/// An inbox made from a run of events holds for each widget what the run
/// did to it, in the order of the run.
pub proof fn law_inbox_keeps_order(events: Seq<Event>, id: HandleHash)
    ensures
        pending_in(inbox_of(events), id) == kinds_for(events, id),
    decreases events.len(),
{
    if events.len() > 0 {
        law_inbox_keeps_order(events.drop_last(), id);
    }
}

/// After any run of events has been pushed for a widget, one take returns
/// what waited for it before and then the whole run, in the order pushed,
/// and leaves nothing for that widget, so a second take returns nothing and
/// changes nothing.
pub proof fn law_exactly_once(
    inbox: Map<HandleHash, Seq<EventKindView>>,
    id: HandleHash,
    kinds: Seq<EventKindView>,
)
    ensures
        pending_in(inbox_push_all(inbox, id, kinds), id) == pending_in(inbox, id) + kinds,
        pending_in(inbox, id).len() == 0 ==> pending_in(inbox_push_all(inbox, id, kinds), id)
            == kinds,
        pending_in(inbox_take(inbox_push_all(inbox, id, kinds), id), id) == Seq::<
            EventKindView,
        >::empty(),
        inbox_take(inbox_take(inbox_push_all(inbox, id, kinds), id), id) == inbox_take(
            inbox_push_all(inbox, id, kinds),
            id,
        ),
{
    lemma_push_all(inbox, id, kinds);
    if pending_in(inbox, id).len() == 0 {
        assert(pending_in(inbox, id) + kinds =~= kinds);
    }
    let taken = inbox_take(inbox_push_all(inbox, id, kinds), id);
    assert(inbox_take(taken, id) =~= taken);
}

} // verus!

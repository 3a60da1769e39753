//! The widget tree of one tick, and its difference to the tree before it.
use std::collections::BTreeMap;
use vstd::prelude::*;
use crate::element::{Element, ElementView};
use crate::event::{inbox_take, pending_in, kinds_view, EventInbox, EventKind, EventKindView};
use crate::handle::HandleHash;
use crate::ordered::{key_set, lemma_lists_empty, lemma_lists_unique, lists, sorted_keys};

verus! {

broadcast use vstd::laws_cmp::group_laws_cmp;

/// What a [`Gui`] holds, as a mathematical value.
pub struct GuiView {
    /// The node the tree starts at; none while nothing has been declared.
    pub root: Option<HandleHash>,
    /// The number that the next anonymous node gets.
    pub next_id: nat,
    /// The nodes by identity.
    pub elements: Map<HandleHash, ElementView>,
    /// The events that wait for the widgets of this tick.
    pub events: Map<HandleHash, Seq<EventKindView>>,
}

impl GuiView {
    /// Whether the node `id` is a stack of children.
    pub open spec fn is_stack(self, id: HandleHash) -> bool {
        self.elements.contains_key(id) && self.elements[id] is StackLayout
    }

    /// The tree with `element` stored under `id`, replacing what was there.
    pub open spec fn insert(self, id: HandleHash, element: ElementView) -> GuiView {
        GuiView { elements: self.elements.insert(id, element), ..self }
    }

    /// The tree with `child` appended to the children of the stack `parent`.
    pub open spec fn push_child(self, parent: HandleHash, child: HandleHash) -> GuiView {
        self.insert(
            parent,
            ElementView::StackLayout {
                children: self.elements[parent]->StackLayout_children.push(child),
            },
        )
    }

    /// The tree after `element` has been declared as `id` under the stack
    /// `parent`: the node is stored first, then `parent` lists it.
    pub open spec fn push_element(
        self,
        parent: HandleHash,
        id: HandleHash,
        element: ElementView,
    ) -> GuiView {
        self.insert(id, element).push_child(parent, id)
    }

    /// Whether `element` can be declared as `id` under `parent`: once the
    /// node is stored, `parent` is a stack of children.
    pub open spec fn can_push(self, parent: HandleHash, id: HandleHash, element: ElementView) -> bool {
        self.insert(id, element).is_stack(parent)
    }

    /// The tree after `count` anonymous nodes have been numbered.
    pub open spec fn advance(self, count: nat) -> GuiView {
        GuiView { next_id: self.next_id + count, ..self }
    }

    /// The tree after the node `target` has been split into the panes
    /// `left` and `right`: both panes are stored, their kind still open,
    /// and `target` names them.
    pub open spec fn split(self, target: HandleHash, left: HandleHash, right: HandleHash) -> GuiView {
        self.insert(left, ElementView::Indeterminate).insert(
            right,
            ElementView::Indeterminate,
        ).insert(target, ElementView::Columns { left, right })
    }

    /// Whether every node that `element` names is a node of the tree.
    pub open spec fn holds_all_of(self, element: ElementView) -> bool {
        match element {
            ElementView::StackLayout { children } => forall|i: int|
                0 <= i < children.len() ==> self.elements.contains_key(#[trigger] children[i]),
            ElementView::Columns { left, right } => self.elements.contains_key(left)
                && self.elements.contains_key(right),
            _ => true,
        }
    }

    /// Whether the tree is closed: every node that a composite names is a
    /// node of the tree.
    pub open spec fn closed(self) -> bool {
        forall|id: HandleHash| #[trigger]
            self.elements.contains_key(id) ==> self.holds_all_of(self.elements[id])
    }

    /// The tree with the events of `id` taken out of its inbox.
    pub open spec fn take_events(self, id: HandleHash) -> GuiView {
        GuiView { events: inbox_take(self.events, id), ..self }
    }

    /// The events that wait for `id`.
    pub open spec fn pending(self, id: HandleHash) -> Seq<EventKindView> {
        pending_in(self.events, id)
    }
}

/// The nodes of a tree as a map from identities to node values.
pub open spec fn elements_view(m: Map<u32, Element>) -> Map<HandleHash, ElementView> {
    Map::new(|h: HandleHash| m.contains_key(h.0), |h: HandleHash| m[h.0]@)
}

/// The widget tree that one tick declares: the nodes by identity, which of
/// them is the root, the counter for anonymous nodes, and the events the
/// declarations consume.
#[derive(Debug)]
pub struct Gui {
    events: EventInbox,
    next_id: usize,
    root: Option<HandleHash>,
    elements: BTreeMap<u32, Element>,
}

impl View for Gui {
    type V = GuiView;

    closed spec fn view(&self) -> GuiView {
        GuiView {
            root: self.root,
            next_id: self.next_id as nat,
            elements: elements_view(self.elements@),
            events: self.events@,
        }
    }
}

/// The identities that `a` holds and `b` does not.
pub open spec fn only_in(
    a: Map<HandleHash, ElementView>,
    b: Map<HandleHash, ElementView>,
) -> Set<HandleHash> {
    Set::new(|h: HandleHash| a.contains_key(h) && !b.contains_key(h))
}

/// The identities that both hold, with different values.
pub open spec fn changed_in(
    a: Map<HandleHash, ElementView>,
    b: Map<HandleHash, ElementView>,
) -> Set<HandleHash> {
    Set::new(|h: HandleHash| a.contains_key(h) && b.contains_key(h) && a[h] != b[h])
}

/// How two trees differ, by identity. Each list is in ascending order.
#[derive(Debug)]
pub struct GuiDiff {
    /// The nodes that only the first tree has.
    pub only_lhs: Vec<HandleHash>,
    /// The nodes that only the second tree has.
    pub only_rhs: Vec<HandleHash>,
    /// The nodes that both trees have, with different values.
    pub unequal: Vec<HandleHash>,
}

/// The keys of `a` that `b` lacks, in ascending order.
fn keys_missing_from(a: &BTreeMap<u32, Element>, b: &BTreeMap<u32, Element>) -> (out: Vec<
    HandleHash,
>)
    ensures
        lists(out@, only_in(elements_view(a@), elements_view(b@))),
{
    let keys = sorted_keys(a);
    let mut out: Vec<HandleHash> = Vec::new();
    let mut i: usize = 0;
    while i < keys.len()
        invariant
            i <= keys.len(),
            lists(keys@, key_set(a@)),
            forall|i: int, j: int| 0 <= i < j < out@.len() ==> out@[i].0 < out@[j].0,
            forall|k: int|
                0 <= k < out@.len() ==> exists|j: int| 0 <= j < i && keys@[j] == #[trigger] out@[k],
            forall|j: int|
                0 <= j < i && !b@.contains_key(#[trigger] keys@[j].0) ==> out@.contains(keys@[j]),
            forall|k: int| 0 <= k < out@.len() ==> !b@.contains_key(#[trigger] out@[k].0),
        decreases keys.len() - i,
    {
        let id = keys[i];
        if !b.contains_key(&id.0) {
            let ghost before = out@;
            out.push(id);
            assert forall|j: int|
                0 <= j < i + 1 && !b@.contains_key(#[trigger] keys@[j].0) implies out@.contains(
                keys@[j],
            ) by {
                if j < i {
                    let k = choose|k: int| 0 <= k < before.len() && before[k] == keys@[j];
                    assert(out@[k] == keys@[j]);
                } else {
                    assert(out@[before.len() as int] == keys@[j]);
                }
            }
        }
        i += 1;
    }
    proof {
        let want = only_in(elements_view(a@), elements_view(b@));
        assert forall|h: HandleHash| out@.contains(h) <==> want.contains(h) by {
            if out@.contains(h) {
                let k = choose|k: int| 0 <= k < out@.len() && out@[k] == h;
                let j = choose|j: int| 0 <= j < keys@.len() && keys@[j] == out@[k];
                assert(keys@.contains(h));
                assert(key_set(a@).contains(h));
            }
            if want.contains(h) {
                assert(key_set(a@).contains(h));
                assert(keys@.contains(h));
                let j = choose|j: int| 0 <= j < keys@.len() && keys@[j] == h;
                assert(!b@.contains_key(keys@[j].0));
            }
        }
    }
    out
}

/// The keys that `a` and `b` share with different values, in ascending
/// order.
fn keys_unequal_in(a: &BTreeMap<u32, Element>, b: &BTreeMap<u32, Element>) -> (out: Vec<
    HandleHash,
>)
    ensures
        lists(out@, changed_in(elements_view(a@), elements_view(b@))),
{
    let keys = sorted_keys(a);
    let mut out: Vec<HandleHash> = Vec::new();
    let ghost differs = |h: HandleHash|
        a@.contains_key(h.0) && b@.contains_key(h.0) && a@[h.0]@ != b@[h.0]@;
    let mut i: usize = 0;
    while i < keys.len()
        invariant
            i <= keys.len(),
            lists(keys@, key_set(a@)),
            differs == |h: HandleHash|
                a@.contains_key(h.0) && b@.contains_key(h.0) && a@[h.0]@ != b@[h.0]@,
            forall|i: int, j: int| 0 <= i < j < out@.len() ==> out@[i].0 < out@[j].0,
            forall|k: int|
                0 <= k < out@.len() ==> exists|j: int| 0 <= j < i && keys@[j] == #[trigger] out@[k],
            forall|j: int| 0 <= j < i && differs(#[trigger] keys@[j]) ==> out@.contains(keys@[j]),
            forall|k: int| 0 <= k < out@.len() ==> differs(#[trigger] out@[k]),
        decreases keys.len() - i,
    {
        let id = keys[i];
        assert(keys@.contains(id));
        assert(key_set(a@).contains(id));
        let mine = a.get(&id.0);
        let theirs = b.get(&id.0);
        let unequal = match mine {
            Some(x) => match theirs {
                Some(y) => !x.same(y),
                None => false,
            },
            None => false,
        };
        assert(unequal == differs(id));
        if unequal {
            let ghost before = out@;
            out.push(id);
            assert forall|j: int| 0 <= j < i + 1 && differs(#[trigger] keys@[j]) implies out@.contains(
                keys@[j],
            ) by {
                if j < i {
                    let k = choose|k: int| 0 <= k < before.len() && before[k] == keys@[j];
                    assert(out@[k] == keys@[j]);
                } else {
                    assert(out@[before.len() as int] == keys@[j]);
                }
            }
        }
        i += 1;
    }
    proof {
        let want = changed_in(elements_view(a@), elements_view(b@));
        assert forall|h: HandleHash| out@.contains(h) <==> want.contains(h) by {
            if out@.contains(h) {
                let k = choose|k: int| 0 <= k < out@.len() && out@[k] == h;
                assert(differs(out@[k]));
            }
            if want.contains(h) {
                assert(key_set(a@).contains(h));
                assert(keys@.contains(h));
                let j = choose|j: int| 0 <= j < keys@.len() && keys@[j] == h;
                assert(differs(keys@[j]));
            }
        }
    }
    out
}

impl Gui {
    /// A tree with no nodes, for a tick whose widgets consume `events`.
    pub fn empty(events: EventInbox) -> (gui: Gui)
        ensures
            gui@ == (GuiView {
                root: None,
                next_id: 0,
                elements: Map::empty(),
                events: events@,
            }),
    {
        let gui = Gui { events, next_id: 0, root: None, elements: BTreeMap::new() };
        assert(gui@.elements =~= Map::<HandleHash, ElementView>::empty());
        gui
    }

    /// A tree with no nodes, for a tick without events.
    pub fn new() -> (gui: Gui)
        ensures
            gui@ == (GuiView {
                root: None,
                next_id: 0,
                elements: Map::empty(),
                events: Map::empty(),
            }),
    {
        Gui::empty(EventInbox::new())
    }

    /// Whether nothing has been declared: the tree has no root.
    pub fn is_empty(&self) -> (r: bool)
        ensures
            r == (self@.root is None),
    {
        self.root.is_none()
    }

    /// The number for the next anonymous node. Each call gives the number
    /// after the one before.
    pub fn fetch_id(&mut self) -> (id: usize)
        requires
            old(self)@.next_id < usize::MAX,
        ensures
            id == old(self)@.next_id,
            final(self)@ == (GuiView { next_id: old(self)@.next_id + 1, ..old(self)@ }),
    {
        let result = self.next_id;
        self.next_id += 1;
        result
    }

    /// The number that the next call of [`Gui::fetch_id`] returns.
    pub fn next_id(&self) -> (id: usize)
        ensures
            id == self@.next_id,
    {
        self.next_id
    }

    /// Stores `element` under `id`: a new node, or a new value for the node
    /// that was there.
    pub fn insert(&mut self, id: HandleHash, element: Element)
        ensures
            final(self)@ == old(self)@.insert(id, element@),
    {
        self.elements.insert(id.0, element);
        assert(self@.elements =~= old(self)@.elements.insert(id, element@));
    }

    /// Makes `id` the root. A later call overrides an earlier one.
    pub fn set_root(&mut self, id: HandleHash)
        ensures
            final(self)@ == (GuiView { root: Some(id), ..old(self)@ }),
    {
        self.root = Some(id);
    }

    /// The root, if one has been set.
    pub fn root_id(&self) -> (r: Option<HandleHash>)
        ensures
            r == self@.root,
    {
        self.root
    }

    /// Whether the tree has a node `id`.
    pub fn contains(&self, id: HandleHash) -> (r: bool)
        ensures
            r == self@.elements.contains_key(id),
    {
        self.elements.contains_key(&id.0)
    }

    /// Whether the node `id` is a stack of children.
    pub fn is_stack(&self, id: HandleHash) -> (r: bool)
        ensures
            r == self@.is_stack(id),
    {
        match self.elements.get(&id.0) {
            Some(Element::StackLayout { .. }) => true,
            _ => false,
        }
    }

    /// A copy of the node `id`, if the tree has one.
    pub fn get(&self, id: HandleHash) -> (r: Option<Element>)
        ensures
            match r {
                Some(e) => self@.elements.contains_key(id) && e@ == self@.elements[id],
                None => !self@.elements.contains_key(id),
            },
    {
        match self.elements.get(&id.0) {
            Some(e) => Some(e.duplicate()),
            None => None,
        }
    }

    /// The number of nodes.
    pub fn len(&self) -> (n: usize)
        ensures
            n == self@.elements.dom().len(),
    {
        proof {
            lemma_key_count(self.elements@);
        }
        self.elements.len()
    }

    /// The identities of all nodes, in ascending order.
    pub fn ids(&self) -> (ids: Vec<HandleHash>)
        ensures
            lists(ids@, self@.elements.dom()),
    {
        let ids = sorted_keys(&self.elements);
        assert(key_set(self.elements@) =~= self@.elements.dom());
        ids
    }

    /// Appends `child` to the children of the stack `parent`.
    pub fn push_child(&mut self, parent: HandleHash, child: HandleHash)
        requires
            old(self)@.is_stack(parent),
        ensures
            final(self)@ == old(self)@.push_child(parent, child),
    {
        match self.elements.remove(&parent.0) {
            Some(Element::StackLayout { children }) => {
                let mut children = children;
                children.push(child);
                self.elements.insert(parent.0, Element::StackLayout { children });
            },
            Some(other) => {
                self.elements.insert(parent.0, other);
            },
            None => {},
        }
        assert(self@.elements =~= old(self)@.push_child(parent, child).elements);
    }

    /// Whether the tree is closed: every node that a composite names is a
    /// node of the tree. A tree that is not closed cannot be shown.
    pub fn is_closed(&self) -> (r: bool)
        ensures
            r == self@.closed(),
    {
        let ids = sorted_keys(&self.elements);
        let mut i: usize = 0;
        while i < ids.len()
            invariant
                i <= ids.len(),
                lists(ids@, key_set(self.elements@)),
                forall|k: int| 0 <= k < i ==> self@.holds_all_of(self@.elements[#[trigger] ids@[k]]),
            decreases ids.len() - i,
        {
            assert(ids@.contains(ids@[i as int]));
            assert(self@.elements.contains_key(ids@[i as int]));
            let holds = match self.elements.get(&ids[i].0) {
                Some(element) => match element {
                    Element::StackLayout { children } => {
                        let each = self.holds_each(children);
                        proof {
                            assert(element@->StackLayout_children == children@);
                            if each {
                                assert(self@.holds_all_of(element@));
                            } else {
                                assert(!self@.holds_all_of(element@));
                            }
                        }
                        each
                    },
                    Element::Columns { left, right } => self.contains(*left) && self.contains(
                        *right,
                    ),
                    _ => true,
                },
                None => true,
            };
            assert(holds == self@.holds_all_of(self@.elements[ids@[i as int]]));
            if !holds {
                return false;
            }
            i += 1;
        }
        proof {
            assert forall|id: HandleHash| #[trigger]
                self@.elements.contains_key(id) implies self@.holds_all_of(
                self@.elements[id],
            ) by {
                assert(key_set(self.elements@).contains(id));
                assert(ids@.contains(id));
                let k = choose|k: int| 0 <= k < ids@.len() && ids@[k] == id;
                assert(self@.holds_all_of(self@.elements[ids@[k]]));
            }
        }
        true
    }

    /// Whether each of `children` is a node of the tree.
    fn holds_each(&self, children: &Vec<HandleHash>) -> (r: bool)
        ensures
            r == (forall|i: int|
                0 <= i < children@.len() ==> self@.elements.contains_key(#[trigger] children@[i])),
    {
        let mut i: usize = 0;
        while i < children.len()
            invariant
                i <= children.len(),
                forall|k: int|
                    0 <= k < i ==> self@.elements.contains_key(#[trigger] children@[k]),
            decreases children.len() - i,
        {
            if !self.elements.contains_key(&children[i].0) {
                return false;
            }
            i += 1;
        }
        true
    }

    /// Copies of the events that wait for `id`, oldest first. They go on
    /// waiting for the widget.
    pub fn waiting(&self, id: HandleHash) -> (kinds: Vec<EventKind>)
        ensures
            kinds_view(kinds@) == self@.pending(id),
    {
        self.events.peek(id)
    }

    /// Removes the events that wait for `id` and returns them, oldest first.
    pub fn take_events(&mut self, id: HandleHash) -> (kinds: Vec<EventKind>)
        ensures
            kinds_view(kinds@) == old(self)@.pending(id),
            final(self)@ == old(self)@.take_events(id),
    {
        self.events.take(id)
    }

    /// Compares two trees node by node. A node is compared by its own value
    /// alone, a composite by the identities of its children.
    pub fn diff(lhs: &Gui, rhs: &Gui) -> (d: GuiDiff)
        ensures
            lists(d.only_lhs@, only_in(lhs@.elements, rhs@.elements)),
            lists(d.only_rhs@, only_in(rhs@.elements, lhs@.elements)),
            lists(d.unequal@, changed_in(lhs@.elements, rhs@.elements)),
    {
        let only_lhs = keys_missing_from(&lhs.elements, &rhs.elements);
        let unequal = keys_unequal_in(&lhs.elements, &rhs.elements);
        let only_rhs = keys_missing_from(&rhs.elements, &lhs.elements);
        GuiDiff { only_lhs, only_rhs, unequal }
    }
}

/// What a [`ServerBrowserUpdate`] holds, as a mathematical value.
pub struct UpdateView {
    /// The new root, where it differs from the root before.
    pub root: Option<HandleHash>,
    /// The nodes that are new, with their values.
    pub added: Map<HandleHash, ElementView>,
    /// The nodes that are gone, in ascending order.
    pub removed: Seq<HandleHash>,
    /// The nodes whose value has changed, with their new values.
    pub updated: Map<HandleHash, ElementView>,
}

impl UpdateView {
    /// Whether the update reports nothing, so that there is nothing to send.
    pub open spec fn is_empty(self) -> bool {
        &&& self.root is None
        &&& self.added == Map::<HandleHash, ElementView>::empty()
        &&& self.removed == Seq::<HandleHash>::empty()
        &&& self.updated == Map::<HandleHash, ElementView>::empty()
    }
}

/// The update for the first tick of a session, when the client has nothing
/// yet: every node is new and the root is reported.
pub open spec fn first_update(cur: GuiView) -> UpdateView {
    UpdateView {
        root: cur.root,
        added: cur.elements,
        removed: Seq::empty(),
        updated: Map::empty(),
    }
}

/// Whether `u` is the update that takes a client from the tree `prev` to
/// the tree `cur`.
pub open spec fn is_update(prev: GuiView, cur: GuiView, u: UpdateView) -> bool {
    &&& u.root == if cur.root == prev.root {
        None
    } else {
        cur.root
    }
    &&& u.added == cur.elements.restrict(only_in(cur.elements, prev.elements))
    &&& lists(u.removed, only_in(prev.elements, cur.elements))
    &&& u.updated == cur.elements.restrict(changed_in(prev.elements, cur.elements))
}

/// Whether `u` is the update to send for the tree `cur`, given the tree of
/// the tick before, if there was one.
pub open spec fn update_of(prev: Option<GuiView>, cur: GuiView, u: UpdateView) -> bool {
    match prev {
        None => u == first_update(cur),
        Some(p) => is_update(p, cur, u),
    }
}

/// The view of an optional tree.
pub open spec fn optional_view(gui: Option<&Gui>) -> Option<GuiView> {
    match gui {
        Some(g) => Some(g@),
        None => None,
    }
}

/// What the client has to be told so that it shows the current tree: the
/// nodes to add, to remove and to replace, and the root where it changed.
#[derive(Debug)]
pub struct ServerBrowserUpdate {
    root: Option<HandleHash>,
    added: BTreeMap<u32, Element>,
    removed: Vec<HandleHash>,
    updated: BTreeMap<u32, Element>,
}

impl View for ServerBrowserUpdate {
    type V = UpdateView;

    closed spec fn view(&self) -> UpdateView {
        UpdateView {
            root: self.root,
            added: elements_view(self.added@),
            removed: self.removed@,
            updated: elements_view(self.updated@),
        }
    }
}

/// Copies of the nodes `ids` of `from`.
fn copies_of(ids: &Vec<HandleHash>, from: &BTreeMap<u32, Element>) -> (out: BTreeMap<u32, Element>)
    requires
        forall|k: int| 0 <= k < ids@.len() ==> from@.contains_key(#[trigger] ids@[k].0),
    ensures
        elements_view(out@) == elements_view(from@).restrict(Set::new(|h: HandleHash| ids@.contains(h))),
{
    let mut out: BTreeMap<u32, Element> = BTreeMap::new();
    let mut i: usize = 0;
    while i < ids.len()
        invariant
            i <= ids.len(),
            forall|k: int| 0 <= k < ids@.len() ==> from@.contains_key(#[trigger] ids@[k].0),
            forall|key: u32|
                out@.contains_key(key) <==> exists|k: int| 0 <= k < i && #[trigger] ids@[k].0 == key,
            forall|key: u32| out@.contains_key(key) ==> out@[key]@ == from@[key]@,
        decreases ids.len() - i,
    {
        let id = ids[i];
        let ghost before = out@;
        match from.get(&id.0) {
            Some(e) => {
                out.insert(id.0, e.duplicate());
            },
            None => {},
        }
        assert forall|key: u32| out@.contains_key(key) implies exists|k: int|
            0 <= k < i + 1 && #[trigger] ids@[k].0 == key by {
            if key == id.0 {
                assert(ids@[i as int].0 == key);
            } else {
                assert(before.contains_key(key));
                let k = choose|k: int| 0 <= k < i && #[trigger] ids@[k].0 == key;
                assert(ids@[k].0 == key);
            }
        }
        i += 1;
    }
    proof {
        let want = elements_view(from@).restrict(Set::new(|h: HandleHash| ids@.contains(h)));
        assert forall|h: HandleHash| elements_view(out@).contains_key(h) <==> want.contains_key(
            h,
        ) by {
            if elements_view(out@).contains_key(h) {
                let k = choose|k: int| 0 <= k < ids@.len() && #[trigger] ids@[k].0 == h.0;
                assert(ids@[k] == h);
                assert(ids@.contains(h));
            }
            if want.contains_key(h) {
                let k = choose|k: int| 0 <= k < ids@.len() && ids@[k] == h;
                assert(ids@[k].0 == h.0);
            }
        }
        assert(elements_view(out@) =~= want);
    }
    out
}

impl ServerBrowserUpdate {
    /// The new root, where it differs from the root before.
    pub fn root(&self) -> (r: Option<HandleHash>)
        ensures
            r == self@.root,
    {
        self.root
    }

    /// The nodes that are gone, in ascending order.
    pub fn removed(&self) -> (r: &Vec<HandleHash>)
        ensures
            r@ == self@.removed,
    {
        &self.removed
    }

    /// The identities of the nodes that are new, in ascending order.
    pub fn added_ids(&self) -> (ids: Vec<HandleHash>)
        ensures
            lists(ids@, self@.added.dom()),
    {
        let ids = sorted_keys(&self.added);
        assert(key_set(self.added@) =~= self@.added.dom());
        ids
    }

    /// A copy of the new node `id`, if `id` is new.
    pub fn added(&self, id: HandleHash) -> (r: Option<Element>)
        ensures
            match r {
                Some(e) => self@.added.contains_key(id) && e@ == self@.added[id],
                None => !self@.added.contains_key(id),
            },
    {
        match self.added.get(&id.0) {
            Some(e) => Some(e.duplicate()),
            None => None,
        }
    }

    /// The identities of the nodes whose value has changed, in ascending
    /// order.
    pub fn updated_ids(&self) -> (ids: Vec<HandleHash>)
        ensures
            lists(ids@, self@.updated.dom()),
    {
        let ids = sorted_keys(&self.updated);
        assert(key_set(self.updated@) =~= self@.updated.dom());
        ids
    }

    /// A copy of the new value of the node `id`, if its value has changed.
    pub fn updated(&self, id: HandleHash) -> (r: Option<Element>)
        ensures
            match r {
                Some(e) => self@.updated.contains_key(id) && e@ == self@.updated[id],
                None => !self@.updated.contains_key(id),
            },
    {
        match self.updated.get(&id.0) {
            Some(e) => Some(e.duplicate()),
            None => None,
        }
    }

    /// Whether the update reports nothing, so that there is nothing to send.
    pub fn is_empty(&self) -> (r: bool)
        ensures
            r == self@.is_empty(),
    {
        let r = self.root.is_none() && self.added.is_empty() && self.removed.len() == 0
            && self.updated.is_empty();
        proof {
            let none = Map::<HandleHash, ElementView>::empty();
            if self.added@.is_empty() {
                assert(self@.added =~= none);
            } else {
                let k = choose|k: u32| self.added@.contains_key(k);
                assert(self@.added.contains_key(HandleHash(k)));
            }
            if self.updated@.is_empty() {
                assert(self@.updated =~= none);
            } else {
                let k = choose|k: u32| self.updated@.contains_key(k);
                assert(self@.updated.contains_key(HandleHash(k)));
            }
            if self.removed@.len() == 0 {
                assert(self@.removed =~= Seq::<HandleHash>::empty());
            }
        }
        r
    }
}

impl Gui {
    /// The update that takes a client from the tree of the tick before to
    /// the current tree. Without a tree before, every node is new and the
    /// root is reported; otherwise a node is reported where it is new, gone
    /// or changed, and the root only where it differs.
    pub fn server_browser_update(previous_gui: Option<&Gui>, current_gui: &Gui) -> (u:
        ServerBrowserUpdate)
        ensures
            update_of(optional_view(previous_gui), current_gui@, u@),
    {
        match previous_gui {
            Some(previous_gui) => {
                let diff = Gui::diff(previous_gui, current_gui);
                proof {
                    assert forall|k: int| 0 <= k < diff.only_rhs@.len() implies current_gui.elements@.contains_key(
                        #[trigger] diff.only_rhs@[k].0,
                    ) by {
                        assert(diff.only_rhs@.contains(diff.only_rhs@[k]));
                    }
                    assert forall|k: int| 0 <= k < diff.unequal@.len() implies current_gui.elements@.contains_key(
                        #[trigger] diff.unequal@[k].0,
                    ) by {
                        assert(diff.unequal@.contains(diff.unequal@[k]));
                    }
                }
                let added = copies_of(&diff.only_rhs, &current_gui.elements);
                let updated = copies_of(&diff.unequal, &current_gui.elements);
                let root = match current_gui.root {
                    Some(now) => match previous_gui.root {
                        Some(then) => if now.0 == then.0 {
                            None
                        } else {
                            Some(now)
                        },
                        None => Some(now),
                    },
                    None => None,
                };
                let u = ServerBrowserUpdate { root, added, removed: diff.only_lhs, updated };
                proof {
                    let prev = previous_gui@;
                    let cur = current_gui@;
                    assert(Set::new(|h: HandleHash| diff.only_rhs@.contains(h)) =~= only_in(
                        cur.elements,
                        prev.elements,
                    ));
                    assert(Set::new(|h: HandleHash| diff.unequal@.contains(h)) =~= changed_in(
                        prev.elements,
                        cur.elements,
                    ));
                }
                u
            },
            None => {
                let ids = sorted_keys(&current_gui.elements);
                proof {
                    assert forall|k: int| 0 <= k < ids@.len() implies current_gui.elements@.contains_key(
                        #[trigger] ids@[k].0,
                    ) by {
                        assert(ids@.contains(ids@[k]));
                    }
                }
                let u = ServerBrowserUpdate {
                    root: current_gui.root,
                    added: copies_of(&ids, &current_gui.elements),
                    removed: Vec::new(),
                    updated: BTreeMap::new(),
                };
                assert(u@.added =~= current_gui@.elements);
                assert(u@.updated =~= Map::<HandleHash, ElementView>::empty());
                assert(u@.removed =~= Seq::<HandleHash>::empty());
                u
            },
        }
    }
}

/// Whatever the two trees, no node is reported both as
/// new and as changed; a node reported as gone was in the tree before and
/// is not in the current one; a node reported as new is in the current
/// tree and was not in the one before; a node reported as changed is in
/// both, with different values, and is reported with its current value;
/// and a node that both trees hold with the same value is not reported at
/// all.
pub proof fn law_diff_correct(prev: GuiView, cur: GuiView, u: UpdateView)
    requires
        is_update(prev, cur, u),
    ensures
        u.added.dom().disjoint(u.updated.dom()),
        forall|h: HandleHash|
            u.removed.contains(h) <==> prev.elements.contains_key(h) && !cur.elements.contains_key(
                h,
            ),
        forall|h: HandleHash|
            u.added.contains_key(h) <==> cur.elements.contains_key(h)
                && !prev.elements.contains_key(h),
        forall|h: HandleHash|
            u.updated.contains_key(h) <==> prev.elements.contains_key(h)
                && cur.elements.contains_key(h) && prev.elements[h] != cur.elements[h],
        forall|h: HandleHash| u.added.contains_key(h) ==> u.added[h] == cur.elements[h],
        forall|h: HandleHash| u.updated.contains_key(h) ==> u.updated[h] == cur.elements[h],
        forall|h: HandleHash|
            prev.elements.contains_key(h) && cur.elements.contains_key(h) && prev.elements[h]
                == cur.elements[h] ==> !u.added.contains_key(h) && !u.removed.contains(h)
                && !u.updated.contains_key(h),
{
}

/// Against no tree before, nothing is gone or changed,
/// every node of the current tree is new, and the root is the current
/// root.
pub proof fn law_first_frame(cur: GuiView, u: UpdateView)
    requires
        update_of(None, cur, u),
    ensures
        u.removed == Seq::<HandleHash>::empty(),
        u.updated == Map::<HandleHash, ElementView>::empty(),
        u.added == cur.elements,
        u.root == cur.root,
{
}

/// A tree differs from itself in nothing, and its root is
/// not reported.
pub proof fn law_diff_idempotent(gui: GuiView, u: UpdateView)
    requires
        is_update(gui, gui, u),
    ensures
        u.is_empty(),
{
    assert(only_in(gui.elements, gui.elements) =~= Set::<HandleHash>::empty());
    assert(changed_in(gui.elements, gui.elements) =~= Set::<HandleHash>::empty());
    assert(u.added =~= Map::<HandleHash, ElementView>::empty());
    assert(u.updated =~= Map::<HandleHash, ElementView>::empty());
    lemma_lists_empty(u.removed);
}

/// The update between two trees is fixed by the trees: there is only one.
pub proof fn law_update_unique(prev: Option<GuiView>, cur: GuiView, u: UpdateView, v: UpdateView)
    requires
        update_of(prev, cur, u),
        update_of(prev, cur, v),
    ensures
        u == v,
{
    if let Some(p) = prev {
        lemma_lists_unique(u.removed, v.removed, only_in(p.elements, cur.elements));
    }
}

/// A tree has as many nodes as its map has keys.
proof fn lemma_key_count(m: Map<u32, Element>)
    requires
        m.dom().finite(),
    ensures
        elements_view(m).dom().finite(),
        elements_view(m).dom().len() == m.dom().len(),
    decreases m.dom().len(),
{
    if m.dom().len() == 0 {
        assert(m.dom() =~= Set::<u32>::empty());
        assert(elements_view(m).dom() =~= Set::<HandleHash>::empty());
    } else {
        let k = m.dom().choose();
        lemma_key_count(m.remove(k));
        assert(elements_view(m).dom() =~= elements_view(m.remove(k)).dom().insert(HandleHash(k)));
    }
}

} // verus!

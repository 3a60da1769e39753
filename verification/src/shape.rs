//! The shape of a tree.
//!
//! A tree that is shown is closed, every node that a composite names being a
//! node of the tree, and acyclic, no node being below itself. Declaring
//! keeps both: stated here for each step that a declaration is made of.
use vstd::prelude::*;
use crate::element::ElementView;
use crate::gui::GuiView;
use crate::handle::HandleHash;

verus! {

/// Whether the node `element` names `child`.
pub open spec fn names(element: ElementView, child: HandleHash) -> bool {
    match element {
        ElementView::StackLayout { children } => children.contains(child),
        ElementView::Columns { left, right } => child == left || child == right,
        _ => false,
    }
}

/// Whether `rank` puts every composite of the tree above the nodes it
/// names.
pub open spec fn ranked_by(gui: GuiView, rank: spec_fn(HandleHash) -> nat) -> bool {
    forall|id: HandleHash, child: HandleHash|
        gui.elements.contains_key(id) && #[trigger] names(gui.elements[id], child) ==> rank(child)
            < rank(id)
}

/// Whether the tree is acyclic: its nodes can be ranked so that every
/// composite stands above the nodes it names. Then no node is below
/// itself, however far one goes down.
pub open spec fn acyclic(gui: GuiView) -> bool {
    exists|rank: spec_fn(HandleHash) -> nat| ranked_by(gui, rank)
}

/// Storing a node keeps a closed tree closed, where the tree then holds
/// every node that the stored one names.
pub proof fn law_insert_keeps_closed(gui: GuiView, id: HandleHash, element: ElementView)
    requires
        gui.closed(),
        gui.insert(id, element).holds_all_of(element),
    ensures
        gui.insert(id, element).closed(),
{
    let after = gui.insert(id, element);
    assert forall|h: HandleHash| #[trigger] after.elements.contains_key(h) implies after.holds_all_of(
        after.elements[h],
    ) by {
        if h != id {
            assert(gui.elements.contains_key(h));
            assert(gui.holds_all_of(gui.elements[h]));
        }
    }
}

/// Declaring a node under a stack keeps a closed tree closed, where the
/// tree holds every node that the declared one names; a widget, which
/// names none, can always be declared.
pub proof fn law_push_element_keeps_closed(
    gui: GuiView,
    parent: HandleHash,
    id: HandleHash,
    element: ElementView,
)
    requires
        gui.closed(),
        gui.can_push(parent, id, element),
        gui.insert(id, element).holds_all_of(element),
    ensures
        gui.push_element(parent, id, element).closed(),
{
    law_insert_keeps_closed(gui, id, element);
    let stored = gui.insert(id, element);
    let children = stored.elements[parent]->StackLayout_children;
    assert(stored.holds_all_of(stored.elements[parent]));
    let listed = ElementView::StackLayout { children: children.push(id) };
    assert(stored.insert(parent, listed).holds_all_of(listed)) by {
        assert forall|i: int| 0 <= i < children.push(id).len() implies stored.insert(
            parent,
            listed,
        ).elements.contains_key(#[trigger] children.push(id)[i]) by {
            if i < children.len() {
                assert(stored.elements.contains_key(children[i]));
            }
        }
    }
    law_insert_keeps_closed(stored, parent, listed);
}

/// Splitting a node into two panes keeps a closed tree closed.
pub proof fn law_split_keeps_closed(
    gui: GuiView,
    target: HandleHash,
    left: HandleHash,
    right: HandleHash,
)
    requires
        gui.closed(),
    ensures
        gui.split(target, left, right).closed(),
{
    law_insert_keeps_closed(gui, left, ElementView::Indeterminate);
    let one = gui.insert(left, ElementView::Indeterminate);
    law_insert_keeps_closed(one, right, ElementView::Indeterminate);
    let two = one.insert(right, ElementView::Indeterminate);
    law_insert_keeps_closed(two, target, ElementView::Columns { left, right });
}

/// A tree without nodes is closed and acyclic.
pub proof fn law_empty_tree_is_sound(gui: GuiView)
    requires
        gui.elements == Map::<HandleHash, ElementView>::empty(),
    ensures
        gui.closed(),
        acyclic(gui),
{
    assert(ranked_by(gui, |h: HandleHash| 0nat));
}

/// Storing a node that names no node keeps an acyclic tree acyclic,
/// whatever stood under its identity before.
pub proof fn law_insert_keeps_acyclic(gui: GuiView, id: HandleHash, element: ElementView)
    requires
        acyclic(gui),
        forall|child: HandleHash| !names(element, child),
    ensures
        acyclic(gui.insert(id, element)),
{
    let rank = choose|rank: spec_fn(HandleHash) -> nat| ranked_by(gui, rank);
    let after = gui.insert(id, element);
    assert forall|h: HandleHash, child: HandleHash|
        after.elements.contains_key(h) && #[trigger] names(after.elements[h], child) implies rank(
        child,
    ) < rank(h) by {
        assert(h != id);
        assert(names(gui.elements[h], child));
    }
    assert(ranked_by(after, rank));
}

/// Declaring under a stack a node that names no node keeps an acyclic tree
/// acyclic, whatever stood under its identity before.
pub proof fn law_push_element_keeps_acyclic(
    gui: GuiView,
    parent: HandleHash,
    id: HandleHash,
    element: ElementView,
)
    requires
        acyclic(gui),
        gui.is_stack(parent),
        id != parent,
        forall|child: HandleHash| !names(element, child),
    ensures
        acyclic(gui.push_element(parent, id, element)),
{
    let rank = choose|rank: spec_fn(HandleHash) -> nat| ranked_by(gui, rank);
    let lifted = |h: HandleHash|
        if h == id {
            0nat
        } else {
            rank(h) + 1
        };
    let after = gui.push_element(parent, id, element);
    let children = gui.elements[parent]->StackLayout_children;
    assert forall|h: HandleHash, child: HandleHash|
        after.elements.contains_key(h) && #[trigger] names(
            after.elements[h],
            child,
        ) implies lifted(child) < lifted(h) by {
        if h == parent {
            if child != id {
                let i = choose|i: int|
                    0 <= i < children.push(id).len() && children.push(id)[i] == child;
                assert(children[i] == child);
                assert(names(gui.elements[parent], child));
            }
        } else {
            assert(h != id);
            assert(names(gui.elements[h], child));
        }
    }
    assert(ranked_by(after, lifted));
}

/// Splitting a node into two panes keeps an acyclic tree acyclic, where
/// neither pane is the node itself.
pub proof fn law_split_keeps_acyclic(
    gui: GuiView,
    target: HandleHash,
    left: HandleHash,
    right: HandleHash,
)
    requires
        acyclic(gui),
        target != left,
        target != right,
    ensures
        acyclic(gui.split(target, left, right)),
{
    let rank = choose|rank: spec_fn(HandleHash) -> nat| ranked_by(gui, rank);
    let lifted = |h: HandleHash|
        if h == left || h == right {
            0nat
        } else {
            rank(h) + 1
        };
    let after = gui.split(target, left, right);
    assert forall|h: HandleHash, child: HandleHash|
        after.elements.contains_key(h) && #[trigger] names(
            after.elements[h],
            child,
        ) implies lifted(child) < lifted(h) by {
        if h != target {
            assert(h != left && h != right);
            assert(names(gui.elements[h], child));
        }
    }
    assert(ranked_by(after, lifted));
}

} // verus!

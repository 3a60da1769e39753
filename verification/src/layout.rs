//! Declaring the shape of a tree: the root, panes side by side, and stacks
//! that widgets are declared under.
use vstd::prelude::*;
use crate::element::{Element, ElementView};
use crate::gui::{Gui, GuiView};
use crate::handle::HandleHash;
use crate::text::numbered;

verus! {

/// A node that is part of the tree but whose kind is still open. It becomes
/// a stack or a pair of panes, once.
#[derive(Debug)]
pub struct Indeterminate {
    pub handle_hash: HandleHash,
}

/// A stack of children: the parent that widgets are declared under.
#[derive(Debug, Clone, Copy)]
pub struct StackLayout {
    pub id: HandleHash,
}

/// What a node of open kind can become.
pub trait Layout: Sized {
    /// The node that is given its kind.
    spec fn target(&self) -> HandleHash;

    /// Makes the node a stack without children.
    fn stacklayout(self, gui: &mut Gui) -> (stack: StackLayout)
        requires
            old(gui)@.elements.contains_key(self.target()),
        ensures
            stack.id == self.target(),
            final(gui)@ == old(gui)@.insert(
                self.target(),
                ElementView::StackLayout { children: Seq::empty() },
            ),
    ;

    /// Makes the node a pair of panes and returns them, left first. Each
    /// pane is an anonymous node: its identity combines the identity of
    /// this node with the hash of a name made from the tree's counter.
    /// That hash is whatever the hasher makes of the name on this machine,
    /// so nothing is promised of the identities of the panes; what is made
    /// of the hashes is fixed by [`Indeterminate::split_named`].
    fn vertical_panels(self, gui: &mut Gui) -> (panes: (Indeterminate, Indeterminate))
        requires
            old(gui)@.elements.contains_key(self.target()),
            old(gui)@.next_id + 2 <= usize::MAX,
        ensures
            final(gui)@ == old(gui)@.advance(2).split(
                self.target(),
                panes.0.handle_hash,
                panes.1.handle_hash,
            ),
    ;
}

impl Indeterminate {
    /// The node `handle_hash`, which the tree already holds.
    pub fn new(handle_hash: HandleHash) -> (node: Indeterminate)
        ensures
            node.handle_hash == handle_hash,
    {
        Indeterminate { handle_hash }
    }

    /// Makes the node a pair of panes whose identities combine the identity
    /// of this node with `left_name` and `right_name`.
    pub fn split_named(self, gui: &mut Gui, left_name: HandleHash, right_name: HandleHash) -> (panes:
        (Indeterminate, Indeterminate))
        requires
            old(gui)@.insert(
                HandleHash::spec_combine(self.handle_hash, left_name),
                ElementView::Indeterminate,
            ).insert(
                HandleHash::spec_combine(self.handle_hash, right_name),
                ElementView::Indeterminate,
            ).elements.contains_key(self.handle_hash),
        ensures
            panes.0.handle_hash == HandleHash::spec_combine(self.handle_hash, left_name),
            panes.1.handle_hash == HandleHash::spec_combine(self.handle_hash, right_name),
            final(gui)@ == old(gui)@.split(
                self.handle_hash,
                panes.0.handle_hash,
                panes.1.handle_hash,
            ),
    {
        let left_hash = HandleHash::combine(self.handle_hash, left_name);
        let right_hash = HandleHash::combine(self.handle_hash, right_name);
        gui.insert(left_hash, Element::Indeterminate);
        gui.insert(right_hash, Element::Indeterminate);
        gui.insert(self.handle_hash, Element::Columns { left: left_hash, right: right_hash });
        (Indeterminate::new(left_hash), Indeterminate::new(right_hash))
    }
}

impl Layout for Indeterminate {
    open spec fn target(&self) -> HandleHash {
        self.handle_hash
    }

    fn stacklayout(self, gui: &mut Gui) -> (stack: StackLayout) {
        gui.insert(self.handle_hash, Element::StackLayout { children: Vec::new() });
        StackLayout { id: self.handle_hash }
    }

    fn vertical_panels(self, gui: &mut Gui) -> (panes: (Indeterminate, Indeterminate)) {
        let first = gui.fetch_id();
        let second = gui.fetch_id();
        let left_name = HandleHash::from_str(numbered("left", first).as_str());
        let right_name = HandleHash::from_str(numbered("right", second).as_str());
        self.split_named(gui, left_name, right_name)
    }
}

impl Gui {
    /// Declares the root of the tree at the declaration site `site`: a node
    /// of open kind under the identity of the site.
    pub fn root(&mut self, site: HandleHash) -> (node: Indeterminate)
        ensures
            node.handle_hash == site,
            final(self)@ == (GuiView {
                root: Some(site),
                ..old(self)@.insert(site, ElementView::Indeterminate)
            }),
    {
        self.insert(site, Element::Indeterminate);
        self.set_root(site);
        Indeterminate::new(site)
    }
}

impl Gui {
    /// Declares the root of the tree at the declaration site `site` and
    /// makes it a stack without children.
    pub fn stacklayout(&mut self, site: HandleHash) -> (stack: StackLayout)
        ensures
            stack.id == site,
            final(self)@ == (GuiView {
                root: Some(site),
                ..old(self)@.insert(site, ElementView::StackLayout { children: Seq::empty() })
            }),
    {
        let node = self.root(site);
        let stack = node.stacklayout(self);
        assert(self@.elements =~= old(self)@.insert(
            site,
            ElementView::StackLayout { children: Seq::empty() },
        ).elements);
        stack
    }
}

impl StackLayout {
    /// The identity of the stack.
    pub fn handle_hash(&self) -> (h: HandleHash)
        ensures
            h == self.id,
    {
        self.id
    }

    /// Declares `element` as `id` under this stack: the node is stored,
    /// replacing what `id` held, and the stack lists it as its last child.
    pub fn push_element(&self, gui: &mut Gui, id: HandleHash, element: Element)
        requires
            old(gui)@.can_push(self.id, id, element@),
        ensures
            final(gui)@ == old(gui)@.push_element(self.id, id, element@),
    {
        gui.insert(id, element);
        gui.push_child(self.id, id);
    }

    /// Declares an anonymous node of open kind under this stack, unless
    /// its identity, which combines the declaration site with `name`, is
    /// the stack's own: then nothing is declared, since a node cannot be
    /// its own child.
    pub fn layout_under(&self, gui: &mut Gui, site: HandleHash, name: HandleHash) -> (node: Option<
        Indeterminate,
    >)
        requires
            old(gui)@.is_stack(self.id),
        ensures
            HandleHash::spec_combine(site, name) == self.id ==> node is None && final(gui)@ == old(
                gui,
            )@,
            HandleHash::spec_combine(site, name) != self.id ==> node is Some
                && node->Some_0.handle_hash == HandleHash::spec_combine(site, name) && final(gui)@
                == old(gui)@.push_element(
                self.id,
                HandleHash::spec_combine(site, name),
                ElementView::Indeterminate,
            ),
    {
        let handle_hash = HandleHash::combine(site, name);
        if handle_hash.0 == self.id.0 {
            None
        } else {
            Some(self.layout_named(gui, site, name))
        }
    }

    /// Declares an anonymous node of open kind under this stack. Its
    /// identity combines the declaration site with `name`.
    pub fn layout_named(&self, gui: &mut Gui, site: HandleHash, name: HandleHash) -> (node:
        Indeterminate)
        requires
            old(gui)@.can_push(
                self.id,
                HandleHash::spec_combine(site, name),
                ElementView::Indeterminate,
            ),
        ensures
            node.handle_hash == HandleHash::spec_combine(site, name),
            final(gui)@ == old(gui)@.push_element(
                self.id,
                node.handle_hash,
                ElementView::Indeterminate,
            ),
    {
        let handle_hash = HandleHash::combine(site, name);
        self.push_element(gui, handle_hash, Element::Indeterminate);
        Indeterminate::new(handle_hash)
    }
}

} // verus!

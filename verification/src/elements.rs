//! What can be declared under a parent: the widgets, and nested layouts.
use vstd::prelude::*;
use crate::element::{Element, ElementView};
use crate::gui::Gui;
use crate::handle::HandleHash;
use crate::layout::{Indeterminate, StackLayout};
use crate::number::Number;
use crate::text::decimal_string;
use crate::widgets::{ButtonBuilder, CheckboxBuilder, LabelBuilder, NumberBuilder, TextboxBuilder};

verus! {

/// The parent that a declaration goes to.
#[derive(Debug, Clone, Copy)]
pub struct CurveBall {
    pub push_element: StackLayout,
}

/// A parent that widgets and layouts are declared under. Each declaration
/// names its site, which gives the declared node its identity.
pub trait Elements {
    /// The stack that the declarations go to.
    spec fn stack(&self) -> StackLayout;

    /// The parent that the declarations go to.
    fn curve_ball(&self) -> (ball: CurveBall)
        ensures
            ball.push_element == self.stack(),
    ;

    /// Declares a header with the text `text`.
    fn header(&self, gui: &mut Gui, site: HandleHash, text: String)
        requires
            old(gui)@.is_stack(self.stack().id),
            site != self.stack().id,
        ensures
            final(gui)@ == old(gui)@.push_element(
                self.stack().id,
                site,
                ElementView::Header(text@),
            ),
    {
        let e = self.curve_ball().push_element;
        e.push_element(gui, site, Element::Header(text));
    }

    /// Starts the declaration of a label with the text `text`.
    fn label<'p>(&self, gui: &'p mut Gui, site: HandleHash, text: String) -> (b: LabelBuilder<'p>)
        ensures
            *b.gui == *old(gui),
            *final(b.gui) == *final(gui),
            b.parent == self.stack(),
            b.id == site,
            b.text == text,
    {
        let parent = self.curve_ball().push_element;
        LabelBuilder::new(gui, parent, site, text)
    }

    /// Starts the declaration of a text box bound to `text`.
    fn text_box<'p, 's>(&self, gui: &'p mut Gui, site: HandleHash, text: &'s mut String) -> (b:
        TextboxBuilder<'p, 's>)
        ensures
            *b.gui == *old(gui),
            *final(b.gui) == *final(gui),
            *b.text == *old(text),
            *final(b.text) == *final(text),
            b.parent == self.stack(),
            b.handle_hash == site,
    {
        let parent = self.curve_ball().push_element;
        TextboxBuilder::new(gui, parent, site, text)
    }

    /// Starts the declaration of a button.
    fn button<'p>(&self, gui: &'p mut Gui, site: HandleHash) -> (b: ButtonBuilder<'p>)
        ensures
            *b.gui == *old(gui),
            *final(b.gui) == *final(gui),
            b.parent == self.stack(),
            b.handle_hash == site,
            b.text is None,
    {
        let parent = self.curve_ball().push_element;
        ButtonBuilder::new(gui, parent, site)
    }

    /// Starts the declaration of a checkbox bound to `value`.
    fn checkbox<'p, 'value>(
        &self,
        gui: &'p mut Gui,
        site: HandleHash,
        value: &'value mut bool,
    ) -> (b: CheckboxBuilder<'p, 'value>)
        ensures
            *b.gui == *old(gui),
            *final(b.gui) == *final(gui),
            *b.value == *old(value),
            *final(b.value) == *final(value),
            b.parent == self.stack(),
            b.handle_hash == site,
            b.text is None,
    {
        let parent = self.curve_ball().push_element;
        CheckboxBuilder::new(gui, parent, site, value)
    }

    /// Starts the declaration of a number field bound to `value`.
    fn number<'p, 'value, T: Number>(
        &self,
        gui: &'p mut Gui,
        site: HandleHash,
        value: &'value mut T,
    ) -> (b: NumberBuilder<'p, 'value, T>)
        ensures
            *b.gui == *old(gui),
            *final(b.gui) == *final(gui),
            *b.value == *old(value),
            *final(b.value) == *final(value),
            b.parent == self.stack(),
            b.handle_hash == site,
            b.text is None,
            b.min is None,
            b.max is None,
            b.step is None,
    {
        let parent = self.curve_ball().push_element;
        NumberBuilder::new(gui, parent, site, value)
    }

    /// Declares an anonymous node of open kind, for a layout nested in
    /// this parent. Its identity combines the site with the hash of the
    /// tree's counter, which advances. That hash is whatever the hasher
    /// makes of the number on this machine, so nothing is promised of the
    /// identity, nor that a node is declared: where the identity is the
    /// parent's own, none is. On which hash a node is declared, and under
    /// which identity, is fixed by [`StackLayout::layout_under`].
    fn layout(&self, gui: &mut Gui, site: HandleHash) -> (node: Option<Indeterminate>)
        requires
            old(gui)@.is_stack(self.stack().id),
            old(gui)@.next_id < usize::MAX,
        ensures
            match node {
                Some(n) => {
                    &&& n.handle_hash != self.stack().id
                    &&& final(gui)@ == old(gui)@.advance(1).push_element(
                        self.stack().id,
                        n.handle_hash,
                        ElementView::Indeterminate,
                    )
                },
                None => final(gui)@ == old(gui)@.advance(1),
            },
    {
        let e = self.curve_ball().push_element;
        let name = HandleHash::from_str(decimal_string(gui.fetch_id()).as_str());
        e.layout_under(gui, site, name)
    }
}

impl Elements for StackLayout {
    open spec fn stack(&self) -> StackLayout {
        *self
    }

    fn curve_ball(&self) -> (ball: CurveBall) {
        CurveBall { push_element: *self }
    }
}

} // verus!

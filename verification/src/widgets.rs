//! The widgets: each is declared through a builder that is finished once.
//! Finishing consumes the events that wait for the widget, applies them to
//! the value the widget is bound to, and stores the widget in the tree.
use vstd::prelude::*;
use crate::element::{text_view, Element, ElementView};
use crate::event::{kinds_view, EventKind, EventKindView};
use crate::gui::Gui;
use crate::handle::{manual_handle, spec_manual_handle, Handle, HandleHash};
use crate::layout::StackLayout;
use crate::number::Number;

verus! {

/// Declares a line of text.
pub struct LabelBuilder<'parent> {
    pub gui: &'parent mut Gui,
    pub parent: StackLayout,
    pub id: HandleHash,
    pub text: String,
}

impl<'parent> LabelBuilder<'parent> {
    /// A label with the text `text`, to be declared as `id` under `parent`.
    pub fn new(gui: &'parent mut Gui, parent: StackLayout, id: HandleHash, text: String) -> (b:
        LabelBuilder<'parent>)
        ensures
            *b.gui == *old(gui),
            *final(b.gui) == *final(gui),
            b.parent == parent,
            b.id == id,
            b.text == text,
    {
        LabelBuilder { gui, parent, id, text }
    }

    /// Gives the label the identity of the declaration site `site` combined
    /// with `handle`, for a site that declares more than one label.
    pub fn handle<H: Handle>(self, site: HandleHash, handle: &H) -> (b: LabelBuilder<'parent>)
        ensures
            b == (LabelBuilder { id: spec_manual_handle(site, handle.spec_hash()), ..self }),
    {
        let mut b = self;
        b.id = manual_handle(site, handle);
        b
    }

    /// Stores the label in the tree, as the last child of its parent.
    pub fn finish(self)
        requires
            old(self.gui)@.is_stack(self.parent.id),
            self.id != self.parent.id,
        ensures
            final(self.gui)@ == old(self.gui)@.push_element(
                self.parent.id,
                self.id,
                ElementView::Label(self.text@),
            ),
    {
        let LabelBuilder { gui, parent, id, text } = self;
        parent.push_element(gui, id, Element::Label(text));
    }
}

/// Declares a button.
pub struct ButtonBuilder<'parent> {
    pub gui: &'parent mut Gui,
    pub parent: StackLayout,
    pub handle_hash: HandleHash,
    pub text: Option<String>,
}

impl<'parent> ButtonBuilder<'parent> {
    /// A button without a caption, to be declared as `id` under `parent`.
    pub fn new(gui: &'parent mut Gui, parent: StackLayout, id: HandleHash) -> (b: ButtonBuilder<
        'parent,
    >)
        ensures
            *b.gui == *old(gui),
            *final(b.gui) == *final(gui),
            b.parent == parent,
            b.handle_hash == id,
            b.text is None,
    {
        ButtonBuilder { gui, parent, handle_hash: id, text: None }
    }

    /// Gives the button a caption.
    pub fn text(self, text: String) -> (b: ButtonBuilder<'parent>)
        ensures
            b == (ButtonBuilder { text: Some(text), ..self }),
    {
        let mut b = self;
        b.text = Some(text);
        b
    }

    /// Gives the button the identity of the declaration site `site`
    /// combined with `handle`, for a site that declares more than one
    /// button.
    pub fn handle<H: Handle>(self, site: HandleHash, handle: &H) -> (b: ButtonBuilder<'parent>)
        ensures
            b == (ButtonBuilder {
                handle_hash: spec_manual_handle(site, handle.spec_hash()),
                ..self
            }),
    {
        let mut b = self;
        b.handle_hash = manual_handle(site, handle);
        b
    }

    /// Stores the button in the tree and reports whether it was activated:
    /// whether any event waited for it. The events are consumed.
    pub fn finish(self) -> (was_pressed: bool)
        requires
            old(self.gui)@.is_stack(self.parent.id),
            self.handle_hash != self.parent.id,
        ensures
            was_pressed == (old(self.gui)@.pending(self.handle_hash).len() > 0),
            final(self.gui)@ == old(self.gui)@.take_events(self.handle_hash).push_element(
                self.parent.id,
                self.handle_hash,
                ElementView::Button { text: text_view(self.text) },
            ),
    {
        let ButtonBuilder { gui, parent, handle_hash, text } = self;
        let kinds = gui.take_events(handle_hash);
        let was_pressed = kinds.len() > 0;
        parent.push_element(gui, handle_hash, Element::new_button(text));
        was_pressed
    }
}

/// The kind of event that a widget bound to a value takes up.
#[derive(Debug, Clone, Copy, PartialEq, Eq, Structural)]
pub enum Wanted {
    /// A change of state, which a checkbox takes up.
    Checked,
    /// A change of text, which a text box takes up.
    Text,
    /// A change of number, which a number field takes up.
    Number,
}

/// Whether a widget that wants `wanted` takes up an event of kind `kind`.
pub open spec fn takes_up(wanted: Wanted, kind: EventKindView) -> bool {
    match wanted {
        Wanted::Checked => kind is CheckboxChecked,
        Wanted::Text => kind is TextboxChanged,
        Wanted::Number => kind is NumberChanged,
    }
}

/// The events among `kinds` that a widget that wants `wanted` passes over,
/// in their order: those of any other kind.
pub open spec fn passed_over(kinds: Seq<EventKindView>, wanted: Wanted) -> Seq<EventKindView>
    decreases kinds.len(),
{
    if kinds.len() == 0 {
        Seq::empty()
    } else if takes_up(wanted, kinds.last()) {
        passed_over(kinds.drop_last(), wanted)
    } else {
        passed_over(kinds.drop_last(), wanted).push(kinds.last())
    }
}

/// The events among `kinds` that a widget that wants `wanted` passes over.
pub fn events_passed_over(kinds: Vec<EventKind>, wanted: Wanted) -> (others: Vec<EventKind>)
    ensures
        kinds_view(others@) == passed_over(kinds_view(kinds@), wanted),
{
    let mut others: Vec<EventKind> = Vec::new();
    let ghost all = kinds@;
    assert(kinds_view(others@) =~= Seq::<EventKindView>::empty());
    for kind in it: kinds.into_iter()
        invariant
            it.seq() == all,
            kinds_view(others@) == passed_over(kinds_view(all).take(it.index()), wanted),
    {
        assert(kinds_view(all).take(it.index() + 1).drop_last() =~= kinds_view(all).take(
            it.index(),
        ));
        let taken = match kind {
            EventKind::CheckboxChecked(_) => wanted == Wanted::Checked,
            EventKind::TextboxChanged(_) => wanted == Wanted::Text,
            EventKind::NumberChanged(_) => wanted == Wanted::Number,
            EventKind::ButtonPressed => false,
        };
        if !taken {
            let ghost before = kinds_view(others@);
            others.push(kind);
            assert(kinds_view(others@) =~= before.push(kind@));
        }
    }
    assert(kinds_view(all).take(all.len() as int) =~= kinds_view(all));
    others
}

/// The state a checkbox is left in by the events `kinds`, oldest first,
/// when it starts as `start`: the last change of state wins, and events of
/// another kind are passed over.
pub open spec fn last_checked(kinds: Seq<EventKindView>, start: bool) -> bool
    decreases kinds.len(),
{
    if kinds.len() == 0 {
        start
    } else {
        match kinds.last() {
            EventKindView::CheckboxChecked(v) => v,
            _ => last_checked(kinds.drop_last(), start),
        }
    }
}

/// The content a text box is left with by the events `kinds`, oldest
/// first, when it starts as `start`: the last change of text wins, and
/// events of another kind are passed over.
pub open spec fn last_text(kinds: Seq<EventKindView>, start: Seq<char>) -> Seq<char>
    decreases kinds.len(),
{
    if kinds.len() == 0 {
        start
    } else {
        match kinds.last() {
            EventKindView::TextboxChanged(t) => t,
            _ => last_text(kinds.drop_last(), start),
        }
    }
}

/// The last number among the events `kinds`, oldest first, if there is one.
pub open spec fn last_number(kinds: Seq<EventKindView>) -> Option<i32>
    decreases kinds.len(),
{
    if kinds.len() == 0 {
        None
    } else {
        match kinds.last() {
            EventKindView::NumberChanged(n) => Some(n),
            _ => last_number(kinds.drop_last()),
        }
    }
}

/// Declares a box of editable text, bound to a string of the application.
pub struct TextboxBuilder<'parent, 's> {
    pub gui: &'parent mut Gui,
    pub parent: StackLayout,
    pub handle_hash: HandleHash,
    pub text: &'s mut String,
}

impl<'parent, 's> TextboxBuilder<'parent, 's> {
    /// A text box bound to `text`, to be declared as `id` under `parent`.
    pub fn new(
        gui: &'parent mut Gui,
        parent: StackLayout,
        id: HandleHash,
        text: &'s mut String,
    ) -> (b: TextboxBuilder<'parent, 's>)
        ensures
            *b.gui == *old(gui),
            *final(b.gui) == *final(gui),
            *b.text == *old(text),
            *final(b.text) == *final(text),
            b.parent == parent,
            b.handle_hash == id,
    {
        TextboxBuilder { gui, parent, handle_hash: id, text }
    }

    /// Gives the text box the identity of the declaration site `site`
    /// combined with `handle`, for a site that declares more than one.
    pub fn handle<H: Handle>(self, site: HandleHash, handle: &H) -> (b: TextboxBuilder<
        'parent,
        's,
    >)
        ensures
            b == (TextboxBuilder {
                handle_hash: spec_manual_handle(site, handle.spec_hash()),
                ..self
            }),
    {
        let mut b = self;
        b.handle_hash = manual_handle(site, handle);
        b
    }

    /// Copies of the events that wait for the text box and that
    /// [`TextboxBuilder::finish`] will pass over, being of another kind.
    pub fn unexpected(&self) -> (others: Vec<EventKind>)
        ensures
            kinds_view(others@) == passed_over(
                old(self.gui)@.pending(self.handle_hash),
                Wanted::Text,
            ),
    {
        events_passed_over(self.gui.waiting(self.handle_hash), Wanted::Text)
    }

    /// Applies the waiting changes of text to the bound string, the last
    /// one winning, and stores the text box with the resulting content.
    /// The events are consumed.
    pub fn finish(self)
        requires
            old(self.gui)@.is_stack(self.parent.id),
            self.handle_hash != self.parent.id,
        ensures
            final(self.text)@ == last_text(
                old(self.gui)@.pending(self.handle_hash),
                old(self.text)@,
            ),
            final(self.gui)@ == old(self.gui)@.take_events(self.handle_hash).push_element(
                self.parent.id,
                self.handle_hash,
                ElementView::Textbox(final(self.text)@),
            ),
    {
        let TextboxBuilder { gui, parent, handle_hash, text } = self;
        let kinds = gui.take_events(handle_hash);
        let mut i: usize = 0;
        while i < kinds.len()
            invariant
                i <= kinds.len(),
                text@ == last_text(kinds_view(kinds@).take(i as int), old(self.text)@),
                *final(text) == *final(self.text),
            decreases kinds.len() - i,
        {
            assert(kinds_view(kinds@).take(i + 1).drop_last() =~= kinds_view(kinds@).take(
                i as int,
            ));
            match &kinds[i] {
                EventKind::TextboxChanged(value) => {
                    *text = value.clone();
                },
                _ => {},
            }
            i += 1;
        }
        assert(kinds_view(kinds@).take(kinds@.len() as int) =~= kinds_view(kinds@));
        parent.push_element(gui, handle_hash, Element::Textbox(text.clone()));
    }
}

/// Declares a checkbox, bound to a flag of the application.
pub struct CheckboxBuilder<'parent, 'value> {
    pub value: &'value mut bool,
    pub gui: &'parent mut Gui,
    pub parent: StackLayout,
    pub handle_hash: HandleHash,
    pub text: Option<String>,
}

impl<'parent, 'value> CheckboxBuilder<'parent, 'value> {
    /// A checkbox without a caption, bound to `value`, to be declared as
    /// `handle_hash` under `parent`.
    pub fn new(
        gui: &'parent mut Gui,
        parent: StackLayout,
        handle_hash: HandleHash,
        value: &'value mut bool,
    ) -> (b: CheckboxBuilder<'parent, 'value>)
        ensures
            *b.gui == *old(gui),
            *final(b.gui) == *final(gui),
            *b.value == *old(value),
            *final(b.value) == *final(value),
            b.parent == parent,
            b.handle_hash == handle_hash,
            b.text is None,
    {
        CheckboxBuilder { value, gui, parent, handle_hash, text: None }
    }

    /// Gives the checkbox a caption.
    pub fn text(self, text: String) -> (b: CheckboxBuilder<'parent, 'value>)
        ensures
            b == (CheckboxBuilder { text: Some(text), ..self }),
    {
        let mut b = self;
        b.text = Some(text);
        b
    }

    /// Gives the checkbox the identity of the declaration site `site`
    /// combined with `handle`, for a site that declares more than one.
    pub fn handle<H: Handle>(self, site: HandleHash, handle: &H) -> (b: CheckboxBuilder<
        'parent,
        'value,
    >)
        ensures
            b == (CheckboxBuilder {
                handle_hash: spec_manual_handle(site, handle.spec_hash()),
                ..self
            }),
    {
        let mut b = self;
        b.handle_hash = manual_handle(site, handle);
        b
    }

    /// Copies of the events that wait for the checkbox and that
    /// [`CheckboxBuilder::finish`] will pass over, being of another kind.
    pub fn unexpected(&self) -> (others: Vec<EventKind>)
        ensures
            kinds_view(others@) == passed_over(
                old(self.gui)@.pending(self.handle_hash),
                Wanted::Checked,
            ),
    {
        events_passed_over(self.gui.waiting(self.handle_hash), Wanted::Checked)
    }

    /// Applies the waiting changes of state to the bound flag, the last one
    /// winning, and stores the checkbox with the resulting state. The
    /// events are consumed.
    pub fn finish(self)
        requires
            old(self.gui)@.is_stack(self.parent.id),
            self.handle_hash != self.parent.id,
        ensures
            *final(self.value) == last_checked(
                old(self.gui)@.pending(self.handle_hash),
                *old(self.value),
            ),
            final(self.gui)@ == old(self.gui)@.take_events(self.handle_hash).push_element(
                self.parent.id,
                self.handle_hash,
                ElementView::Checkbox { text: text_view(self.text), checked: *final(self.value) },
            ),
    {
        let CheckboxBuilder { value, gui, parent, handle_hash, text } = self;
        let kinds = gui.take_events(handle_hash);
        let mut i: usize = 0;
        while i < kinds.len()
            invariant
                i <= kinds.len(),
                *value == last_checked(kinds_view(kinds@).take(i as int), *old(self.value)),
                *final(value) == *final(self.value),
            decreases kinds.len() - i,
        {
            assert(kinds_view(kinds@).take(i + 1).drop_last() =~= kinds_view(kinds@).take(
                i as int,
            ));
            match &kinds[i] {
                EventKind::CheckboxChecked(v) => {
                    *value = *v;
                },
                _ => {},
            }
            i += 1;
        }
        assert(kinds_view(kinds@).take(kinds@.len() as int) =~= kinds_view(kinds@));
        parent.push_element(gui, handle_hash, Element::new_checkbox(text, *value));
    }
}

/// Why a number widget could not be declared.
#[derive(Debug, PartialEq, Eq, Clone, Copy, Structural)]
pub enum ConvertError {
    /// The bound value does not fit the wire.
    CouldNotConvertServerValue,
    /// The value that the client sent does not fit the bound value's type.
    CouldNotConvertBrowserValue,
}

/// Declares a field for a number, bound to a number of the application.
pub struct NumberBuilder<'parent, 'value, T> {
    pub value: &'value mut T,
    pub min: Option<i32>,
    pub max: Option<i32>,
    pub step: Option<i32>,
    pub gui: &'parent mut Gui,
    pub parent: StackLayout,
    pub handle_hash: HandleHash,
    pub text: Option<String>,
}

/// What finishing a number widget comes to, given the value `before` it is
/// bound to and the events `kinds` that wait for it.
///
/// The bound value must fit the wire, or nothing happens at all. The
/// events are consumed then, and the last number among them, if there is
/// one, must fit the bound value's type, or the widget is not stored. It
/// becomes the bound value. The widget is stored with the value that was
/// bound before the events, which is what the client shows.
pub open spec fn number_outcome<T: Number>(before: T, kinds: Seq<EventKindView>) -> Result<
    T,
    ConvertError,
> {
    if before.wire() is None {
        Err(ConvertError::CouldNotConvertServerValue)
    } else {
        match last_number(kinds) {
            None => Ok(before),
            Some(n) => match T::of_wire(n) {
                Some(v) => Ok(v),
                None => Err(ConvertError::CouldNotConvertBrowserValue),
            },
        }
    }
}

impl<'parent, 'value, T: Number> NumberBuilder<'parent, 'value, T> {
    /// A number field without a caption or bounds, bound to `value`, to be
    /// declared as `id` under `parent`.
    pub fn new(
        gui: &'parent mut Gui,
        parent: StackLayout,
        id: HandleHash,
        value: &'value mut T,
    ) -> (b: NumberBuilder<'parent, 'value, T>)
        ensures
            *b.gui == *old(gui),
            *final(b.gui) == *final(gui),
            *b.value == *old(value),
            *final(b.value) == *final(value),
            b.parent == parent,
            b.handle_hash == id,
            b.text is None,
            b.min is None,
            b.max is None,
            b.step is None,
    {
        NumberBuilder {
            min: None,
            max: None,
            step: None,
            value,
            gui,
            parent,
            handle_hash: id,
            text: None,
        }
    }

    /// Gives the number field a caption.
    pub fn text(self, text: String) -> (b: NumberBuilder<'parent, 'value, T>)
        ensures
            b == (NumberBuilder { text: Some(text), ..self }),
    {
        let mut b = self;
        b.text = Some(text);
        b
    }

    /// Gives the number field the identity of the declaration site `site`
    /// combined with `handle`, for a site that declares more than one.
    pub fn handle<H: Handle>(self, site: HandleHash, handle: &H) -> (b: NumberBuilder<
        'parent,
        'value,
        T,
    >)
        ensures
            b == (NumberBuilder {
                handle_hash: spec_manual_handle(site, handle.spec_hash()),
                ..self
            }),
    {
        let mut b = self;
        b.handle_hash = manual_handle(site, handle);
        b
    }

    /// Copies of the events that wait for the number field and that
    /// [`NumberBuilder::finish`] will pass over, being of another kind.
    pub fn unexpected(&self) -> (others: Vec<EventKind>)
        ensures
            kinds_view(others@) == passed_over(
                old(self.gui)@.pending(self.handle_hash),
                Wanted::Number,
            ),
    {
        events_passed_over(self.gui.waiting(self.handle_hash), Wanted::Number)
    }

    /// Applies the last waiting number to the bound value and stores the
    /// number field, as [`number_outcome`] says. A value that does not fit
    /// is reported and leaves the bound value as it was.
    pub fn finish(self) -> (r: Result<(), ConvertError>)
        requires
            old(self.gui)@.is_stack(self.parent.id),
            self.handle_hash != self.parent.id,
        ensures
            match number_outcome(*old(self.value), old(self.gui)@.pending(self.handle_hash)) {
                Ok(v) => {
                    &&& r is Ok
                    &&& *final(self.value) == v
                    &&& final(self.gui)@ == old(self.gui)@.take_events(
                        self.handle_hash,
                    ).push_element(
                        self.parent.id,
                        self.handle_hash,
                        ElementView::Number {
                            text: text_view(self.text),
                            min: self.min,
                            max: self.max,
                            step: self.step,
                            value: old(self.value).wire()->Some_0,
                        },
                    )
                },
                Err(ConvertError::CouldNotConvertServerValue) => {
                    &&& r == Err::<(), ConvertError>(ConvertError::CouldNotConvertServerValue)
                    &&& *final(self.value) == *old(self.value)
                    &&& final(self.gui)@ == old(self.gui)@
                },
                Err(ConvertError::CouldNotConvertBrowserValue) => {
                    &&& r == Err::<(), ConvertError>(ConvertError::CouldNotConvertBrowserValue)
                    &&& *final(self.value) == *old(self.value)
                    &&& final(self.gui)@ == old(self.gui)@.take_events(self.handle_hash)
                },
            },
    {
        let NumberBuilder { value, min, max, step, gui, parent, handle_hash, text } = self;
        let wire = match value.to_wire() {
            Some(w) => w,
            None => {
                return Err(ConvertError::CouldNotConvertServerValue);
            },
        };
        let element = Element::Number { text, min, max, step, value: wire };
        let kinds = gui.take_events(handle_hash);
        let mut last: Option<i32> = None;
        let mut i: usize = 0;
        while i < kinds.len()
            invariant
                i <= kinds.len(),
                last == last_number(kinds_view(kinds@).take(i as int)),
            decreases kinds.len() - i,
        {
            assert(kinds_view(kinds@).take(i + 1).drop_last() =~= kinds_view(kinds@).take(
                i as int,
            ));
            match &kinds[i] {
                EventKind::NumberChanged(n) => {
                    last = Some(*n);
                },
                _ => {},
            }
            i += 1;
        }
        assert(kinds_view(kinds@).take(kinds@.len() as int) =~= kinds_view(kinds@));
        match last {
            Some(n) => match T::from_wire(n) {
                Some(v) => {
                    *value = v;
                },
                None => {
                    return Err(ConvertError::CouldNotConvertBrowserValue);
                },
            },
            None => {},
        }
        parent.push_element(gui, handle_hash, element);
        Ok(())
    }
}

} // verus!

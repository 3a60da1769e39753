//! The nodes of a widget tree.
use vstd::prelude::*;
use crate::handle::HandleHash;

verus! {

/// One node of a widget tree: a leaf with its content, or a composite that
/// names its children by identity. A composite never holds a child's value,
/// so two nodes are compared without looking at any other node.
#[derive(Debug, Clone, PartialEq, Eq)]
pub enum Element {
    /// A node whose kind has not been chosen yet.
    Indeterminate,
    Header(String),
    Label(String),
    Textbox(String),
    Button { text: Option<String> },
    Checkbox { text: Option<String>, checked: bool },
    Number { text: Option<String>, min: Option<i32>, max: Option<i32>, step: Option<i32>, value: i32 },
    /// Children below each other, in the order of their declaration.
    StackLayout { children: Vec<HandleHash> },
    /// Two panes side by side.
    Columns { left: HandleHash, right: HandleHash },
}

/// What an [`Element`] holds, as a mathematical value.
pub enum ElementView {
    Indeterminate,
    Header(Seq<char>),
    Label(Seq<char>),
    Textbox(Seq<char>),
    Button { text: Option<Seq<char>> },
    Checkbox { text: Option<Seq<char>>, checked: bool },
    Number { text: Option<Seq<char>>, min: Option<i32>, max: Option<i32>, step: Option<i32>, value: i32 },
    StackLayout { children: Seq<HandleHash> },
    Columns { left: HandleHash, right: HandleHash },
}

/// The characters of an optional caption.
pub open spec fn text_view(text: Option<String>) -> Option<Seq<char>> {
    match text {
        Some(s) => Some(s@),
        None => None,
    }
}

impl View for Element {
    type V = ElementView;

    open spec fn view(&self) -> ElementView {
        match *self {
            Element::Indeterminate => ElementView::Indeterminate,
            Element::Header(s) => ElementView::Header(s@),
            Element::Label(s) => ElementView::Label(s@),
            Element::Textbox(s) => ElementView::Textbox(s@),
            Element::Button { text } => ElementView::Button { text: text_view(text) },
            Element::Checkbox { text, checked } => ElementView::Checkbox {
                text: text_view(text),
                checked,
            },
            Element::Number { text, min, max, step, value } => ElementView::Number {
                text: text_view(text),
                min,
                max,
                step,
                value,
            },
            Element::StackLayout { children } => ElementView::StackLayout { children: children@ },
            Element::Columns { left, right } => ElementView::Columns { left, right },
        }
    }
}

/// Whether two optional captions hold the same characters.
fn same_text(a: &Option<String>, b: &Option<String>) -> (r: bool)
    ensures
        r == (text_view(*a) == text_view(*b)),
{
    match a {
        Some(x) => match b {
            Some(y) => *x == *y,
            None => false,
        },
        None => b.is_none(),
    }
}

/// Whether two optional bounds are the same.
fn same_bound(a: &Option<i32>, b: &Option<i32>) -> (r: bool)
    ensures
        r == (*a == *b),
{
    match a {
        Some(x) => match b {
            Some(y) => *x == *y,
            None => false,
        },
        None => b.is_none(),
    }
}

/// Whether two lists of children name the same identities in the same order.
fn same_children(a: &Vec<HandleHash>, b: &Vec<HandleHash>) -> (r: bool)
    ensures
        r == (a@ == b@),
{
    if a.len() != b.len() {
        return false;
    }
    let mut i: usize = 0;
    while i < a.len()
        invariant
            a.len() == b.len(),
            i <= a.len(),
            forall|j: int| 0 <= j < i ==> a@[j] == b@[j],
        decreases a.len() - i,
    {
        if a[i].0 != b[i].0 {
            return false;
        }
        i += 1;
    }
    assert(a@ =~= b@);
    true
}

/// A copy of an optional caption.
fn copy_text(text: &Option<String>) -> (r: Option<String>)
    ensures
        text_view(r) == text_view(*text),
{
    match text {
        Some(s) => Some(s.clone()),
        None => None,
    }
}

/// A copy of a list of children.
fn copy_children(children: &Vec<HandleHash>) -> (r: Vec<HandleHash>)
    ensures
        r@ == children@,
{
    let mut out: Vec<HandleHash> = Vec::new();
    let mut i: usize = 0;
    while i < children.len()
        invariant
            i <= children.len(),
            out@ == children@.subrange(0, i as int),
        decreases children.len() - i,
    {
        out.push(children[i]);
        assert(out@ =~= children@.subrange(0, i + 1));
        i += 1;
    }
    assert(children@.subrange(0, children.len() as int) =~= children@);
    out
}

impl Element {
    /// A button with an optional caption.
    pub fn new_button(text: Option<String>) -> (e: Element)
        ensures
            e@ == (ElementView::Button { text: text_view(text) }),
    {
        Element::Button { text }
    }

    /// A checkbox with an optional caption and its state.
    pub fn new_checkbox(text: Option<String>, checked: bool) -> (e: Element)
        ensures
            e@ == (ElementView::Checkbox { text: text_view(text), checked }),
    {
        Element::Checkbox { text, checked }
    }

    /// Structural equality: the same kind of node with the same content.
    pub fn same(&self, other: &Element) -> (r: bool)
        ensures
            r == (self@ == other@),
    {
        match self {
            Element::Indeterminate => match other {
                Element::Indeterminate => true,
                _ => false,
            },
            Element::Header(a) => match other {
                Element::Header(b) => *a == *b,
                _ => false,
            },
            Element::Label(a) => match other {
                Element::Label(b) => *a == *b,
                _ => false,
            },
            Element::Textbox(a) => match other {
                Element::Textbox(b) => *a == *b,
                _ => false,
            },
            Element::Button { text } => match other {
                Element::Button { text: t } => same_text(text, t),
                _ => false,
            },
            Element::Checkbox { text, checked } => match other {
                Element::Checkbox { text: t, checked: c } => same_text(text, t) && *checked == *c,
                _ => false,
            },
            Element::Number { text, min, max, step, value } => match other {
                Element::Number { text: t, min: lo, max: hi, step: s, value: v } => same_text(
                    text,
                    t,
                ) && same_bound(min, lo) && same_bound(max, hi) && same_bound(step, s) && *value
                    == *v,
                _ => false,
            },
            Element::StackLayout { children } => match other {
                Element::StackLayout { children: c } => same_children(children, c),
                _ => false,
            },
            Element::Columns { left, right } => match other {
                Element::Columns { left: l, right: r } => left.0 == l.0 && right.0 == r.0,
                _ => false,
            },
        }
    }

    /// A copy with the same content.
    pub fn duplicate(&self) -> (e: Element)
        ensures
            e@ == self@,
    {
        match self {
            Element::Indeterminate => Element::Indeterminate,
            Element::Header(s) => Element::Header(s.clone()),
            Element::Label(s) => Element::Label(s.clone()),
            Element::Textbox(s) => Element::Textbox(s.clone()),
            Element::Button { text } => Element::Button { text: copy_text(text) },
            Element::Checkbox { text, checked } => Element::Checkbox {
                text: copy_text(text),
                checked: *checked,
            },
            Element::Number { text, min, max, step, value } => Element::Number {
                text: copy_text(text),
                min: *min,
                max: *max,
                step: *step,
                value: *value,
            },
            Element::StackLayout { children } => Element::StackLayout {
                children: copy_children(children),
            },
            Element::Columns { left, right } => Element::Columns { left: *left, right: *right },
        }
    }
}

} // verus!

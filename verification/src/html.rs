//! A tree as static markup, for a client that cannot build the page itself.
//!
//! Only the kinds of node that need no script have markup: text, buttons and
//! the two layouts. A tree that holds any other kind has none, nor has a
//! tree that names a child it does not hold or that is deeper than the
//! depth allowed.
use vstd::prelude::*;
use vstd::string::StringExecFns;
use crate::element::{Element, ElementView};
use crate::gui::Gui;
use crate::handle::HandleHash;

verus! {

/// The caption of a button that has none of its own.
pub open spec fn caption(text: Option<Seq<char>>) -> Seq<char> {
    match text {
        Some(t) => t,
        None => "Button"@,
    }
}

/// The markup of the node `e` of the tree `elements`, going at most `fuel`
/// levels down from it.
pub open spec fn spec_html(
    elements: Map<HandleHash, ElementView>,
    e: ElementView,
    fuel: nat,
) -> Option<Seq<char>>
    decreases fuel, 0nat,
{
    match e {
        ElementView::Indeterminate => Some(Seq::empty()),
        ElementView::Header(text) => Some("<h1>"@ + text + "</h1>"@),
        ElementView::Label(text) => Some("<div>"@ + text + "</div>"@),
        ElementView::Button { text } => Some("<button>"@ + caption(text) + "</button>"@),
        ElementView::StackLayout { children } => if fuel == 0 {
            None
        } else {
            match children_html(elements, children, (fuel - 1) as nat) {
                Some(inner) => Some("<div>"@ + inner + "</div>"@),
                None => None,
            }
        },
        ElementView::Columns { left, right } => if fuel == 0 {
            None
        } else {
            match (
                child_html(elements, left, (fuel - 1) as nat),
                child_html(elements, right, (fuel - 1) as nat),
            ) {
                (Some(l), Some(r)) => Some(
                    "<div class=\"row\"><div class=\"column\">"@ + l
                        + "</div><div class=\"column\">"@ + r + "</div></div>"@,
                ),
                _ => None,
            }
        },
        _ => None,
    }
}

/// The markup of the child `id`, if the tree holds it.
pub open spec fn child_html(
    elements: Map<HandleHash, ElementView>,
    id: HandleHash,
    fuel: nat,
) -> Option<Seq<char>>
    decreases fuel, 1nat,
{
    if elements.contains_key(id) {
        spec_html(elements, elements[id], fuel)
    } else {
        None
    }
}

/// The markup of the children `children`, one line each.
pub open spec fn children_html(
    elements: Map<HandleHash, ElementView>,
    children: Seq<HandleHash>,
    fuel: nat,
) -> Option<Seq<char>>
    decreases fuel, 2 + children.len(),
{
    if children.len() == 0 {
        Some(Seq::empty())
    } else {
        match (
            children_html(elements, children.drop_last(), fuel),
            child_html(elements, children.last(), fuel),
        ) {
            (Some(before), Some(last)) => Some(
                if children.len() == 1 {
                    last
                } else {
                    before + "\n"@ + last
                },
            ),
            _ => None,
        }
    }
}

/// The characters of an optional text.
pub open spec fn optional_text(text: Option<String>) -> Option<Seq<char>> {
    match text {
        Some(s) => Some(s@),
        None => None,
    }
}

/// The markup of the child `id` of the tree `gui`.
fn child_to_html(gui: &Gui, id: HandleHash, depth: usize) -> (r: Option<String>)
    ensures
        optional_text(r) == child_html(gui@.elements, id, depth as nat),
    decreases depth, 1nat,
{
    match gui.get(id) {
        Some(e) => e.to_html(gui, depth),
        None => None,
    }
}

impl Element {
    /// The markup of this node of the tree `gui`, going at most `depth`
    /// levels down from it.
    pub fn to_html(&self, gui: &Gui, depth: usize) -> (r: Option<String>)
        ensures
            optional_text(r) == spec_html(gui@.elements, self@, depth as nat),
        decreases depth, 0nat,
    {
        match self {
            Element::Indeterminate => Some(String::new()),
            Element::Header(text) => Some(
                String::from_str("<h1>").concat(text.as_str()).concat("</h1>"),
            ),
            Element::Label(value) => Some(
                String::from_str("<div>").concat(value.as_str()).concat("</div>"),
            ),
            Element::Button { text } => {
                let text = match text {
                    Some(t) => t.as_str(),
                    None => "Button",
                };
                Some(String::from_str("<button>").concat(text).concat("</button>"))
            },
            Element::StackLayout { children } => {
                if depth == 0 {
                    return None;
                }
                let mut inner = String::new();
                let mut i: usize = 0;
                while i < children.len()
                    invariant
                        i <= children.len(),
                        depth > 0,
                        self@ == (ElementView::StackLayout { children: children@ }),
                        Some(inner@) == children_html(
                            gui@.elements,
                            children@.take(i as int),
                            (depth - 1) as nat,
                        ),
                    decreases children.len() - i,
                {
                    assert(children@.take(i + 1).drop_last() =~= children@.take(i as int));
                    let child = match child_to_html(gui, children[i], depth - 1) {
                        Some(c) => c,
                        None => {
                            proof {
                                lemma_children_need_each(
                                    gui@.elements,
                                    children@,
                                    (depth - 1) as nat,
                                    i as int,
                                );
                            }
                            return None;
                        },
                    };
                    if i > 0 {
                        inner.append("\n");
                    }
                    inner.append(child.as_str());
                    assert(Seq::<char>::empty() + child@ =~= child@);
                    i += 1;
                }
                assert(children@.take(children@.len() as int) =~= children@);
                Some(String::from_str("<div>").concat(inner.as_str()).concat("</div>"))
            },
            Element::Columns { left, right } => {
                if depth == 0 {
                    return None;
                }
                let l = match child_to_html(gui, *left, depth - 1) {
                    Some(l) => l,
                    None => {
                        return None;
                    },
                };
                let r = match child_to_html(gui, *right, depth - 1) {
                    Some(r) => r,
                    None => {
                        return None;
                    },
                };
                Some(
                    String::from_str("<div class=\"row\"><div class=\"column\">").concat(
                        l.as_str(),
                    ).concat("</div><div class=\"column\">").concat(r.as_str()).concat(
                        "</div></div>",
                    ),
                )
            },
            _ => None,
        }
    }
}

/// Children have markup only if each of them has.
proof fn lemma_children_need_each(
    elements: Map<HandleHash, ElementView>,
    children: Seq<HandleHash>,
    fuel: nat,
    i: int,
)
    requires
        0 <= i < children.len(),
        child_html(elements, children[i], fuel) is None,
    ensures
        children_html(elements, children, fuel) is None,
    decreases children.len(),
{
    if i < children.len() - 1 {
        lemma_children_need_each(elements, children.drop_last(), fuel, i);
    }
}

impl Gui {
    /// The markup of the whole tree, from the root down; none where the
    /// tree has no root.
    pub fn to_html(&self) -> (r: Option<String>)
        ensures
            optional_text(r) == match self@.root {
                Some(root) => child_html(self@.elements, root, self@.elements.dom().len()),
                None => None,
            },
    {
        match self.root_id() {
            Some(root) => child_to_html(self, root, self.len()),
            None => None,
        }
    }
}

} // verus!

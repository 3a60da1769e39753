//! Identities that carry a name.
//!
//! Where an application names its widgets itself, an identity is a string:
//! `Auto.` and a number for a widget that was numbered by the tree, `User.`
//! and the name for a widget that the application named.
use vstd::prelude::*;
use vstd::string::StringExecFns;
use crate::text::{
    after, decimal, lemma_decimal_reads_back, lemma_decimal_spells, numbered, parse_usize,
    parsed_usize, same_text, starts_with,
};

verus! {

/// The names that an application gives to its widgets. The application
/// decides how a name is written as text and which texts are names.
pub trait Id: Sized {
    /// The name as text.
    spec fn text(&self) -> Seq<char>;

    /// The name that a text stands for, if it is one.
    spec fn of_text(s: Seq<char>) -> Option<Self>;

    /// The name as text.
    fn to_string(&self) -> (s: String)
        ensures
            s@ == self.text(),
    ;

    /// The name that `s` stands for, if it is one.
    fn from_str(s: &str) -> (id: Option<Self>)
        ensures
            id == Self::of_text(s@),
    ;
}

/// The identity of a widget as text.
#[derive(Debug, PartialEq, Eq, PartialOrd, Ord, Clone)]
pub struct GuiId(pub String);

impl View for GuiId {
    type V = Seq<char>;

    open spec fn view(&self) -> Seq<char> {
        self.0@
    }
}

/// Whether `s` begins with `prefix`.
pub open spec fn has_prefix(s: Seq<char>, prefix: Seq<char>) -> bool {
    prefix.len() <= s.len() && s.take(prefix.len() as int) == prefix
}

/// The identity of the `i`-th widget that the tree numbered.
pub open spec fn auto_id(i: usize) -> Seq<char> {
    "Auto."@ + decimal(i as nat)
}

/// The identity of the widget that the application named `id`.
pub open spec fn user_id<I: Id>(id: I) -> Seq<char> {
    "User."@ + id.text()
}

/// The number of the numbered widget that `s` identifies, if it does:
/// `Auto.` and an unsigned decimal number.
pub open spec fn auto_number(s: Seq<char>) -> Option<usize> {
    if has_prefix(s, "Auto."@) {
        parsed_usize(s.skip(5))
    } else {
        None
    }
}

/// The text behind `User.`, if `s` begins with it: what the application
/// has to recognise as a name.
pub open spec fn user_name(s: Seq<char>) -> Option<Seq<char>> {
    if has_prefix(s, "User."@) {
        Some(s.skip(5))
    } else {
        None
    }
}

/// The identity that the text `s` is read as. A numbered identity is read
/// as itself, with the number written plainly. A text that begins with
/// `User.` is read as the identity of the name that the application takes
/// the rest for, if it takes it for one. Any other text is no identity.
pub open spec fn read_id<I: Id>(s: Seq<char>) -> Option<Seq<char>> {
    match auto_number(s) {
        Some(i) => Some(auto_id(i)),
        None => match user_name(s) {
            Some(rest) => match I::of_text(rest) {
                Some(id) => Some(user_id(id)),
                None => None,
            },
            None => None,
        },
    }
}

/// The characters of an optional identity.
pub open spec fn optional_id_view(id: Option<GuiId>) -> Option<Seq<char>> {
    match id {
        Some(g) => Some(g@),
        None => None,
    }
}

impl GuiId {
    /// The identity of the `i`-th widget that the tree numbered.
    pub fn new_auto(i: usize) -> (id: GuiId)
        ensures
            id@ == auto_id(i),
    {
        GuiId(numbered("Auto.", i))
    }

    /// The identity of the widget whose name is written `name`.
    pub fn user_named(name: &str) -> (id: GuiId)
        ensures
            id@ == "User."@ + name@,
    {
        GuiId(String::from_str("User.").concat(name))
    }

    /// The identity of the widget that the application named `id`.
    pub fn new_user<I: Id>(id: I) -> (g: GuiId)
        ensures
            g@ == user_id(id),
    {
        let name = id.to_string();
        GuiId::user_named(name.as_str())
    }

    /// The number in `s`, if `s` identifies a numbered widget.
    pub fn auto_number(s: &str) -> (r: Option<usize>)
        ensures
            r == auto_number(s@),
    {
        proof {
            reveal_strlit("Auto.");
        }
        if starts_with(s, "Auto.") {
            parse_usize(after(s, 5))
        } else {
            None
        }
    }

    /// The text behind `User.`, if `s` begins with it.
    pub fn user_name(s: &str) -> (r: Option<&str>)
        ensures
            match r {
                Some(name) => user_name(s@) == Some(name@),
                None => user_name(s@) is None,
            },
    {
        proof {
            reveal_strlit("User.");
        }
        if starts_with(s, "User.") {
            Some(after(s, 5))
        } else {
            None
        }
    }

    /// Reads an identity from text, as [`read_id`] says.
    pub fn from_str<I: Id>(s: &str) -> (r: Option<GuiId>)
        ensures
            optional_id_view(r) == read_id::<I>(s@),
    {
        if let Some(i) = GuiId::auto_number(s) {
            return Some(GuiId::new_auto(i));
        }
        if let Some(name) = GuiId::user_name(s) {
            if let Some(id) = I::from_str(name) {
                return Some(GuiId::new_user(id));
            }
        }
        None
    }
}

/// An interaction with a named widget.
#[derive(Debug, PartialEq, Eq)]
pub enum Event {
    ButtonPressed(GuiId),
}

/// An interaction as the client reports it, the widget's identity still
/// text that nobody has read.
#[derive(Debug, PartialEq, Eq)]
pub enum BrowserServerEvent {
    ButtonPressed(String),
}

impl Event {
    /// Reads the identity in what the client reported. There is no event
    /// where the text is no identity.
    pub fn from<I: Id>(event: BrowserServerEvent) -> (r: Option<Event>)
        ensures
            match event {
                BrowserServerEvent::ButtonPressed(identifier) => match read_id::<I>(identifier@) {
                    Some(id) => r matches Some(Event::ButtonPressed(g)) && g@ == id,
                    None => r is None,
                },
            },
    {
        match event {
            BrowserServerEvent::ButtonPressed(identifier) => {
                match GuiId::from_str::<I>(identifier.as_str()) {
                    Some(id) => Some(Event::ButtonPressed(id)),
                    None => None,
                }
            },
        }
    }
}

/// The identity of a numbered widget is read as itself.
pub proof fn law_numbered_id_reads_back<I: Id>(i: usize)
    ensures
        read_id::<I>(auto_id(i)) == Some(auto_id(i)),
{
    reveal_strlit("Auto.");
    lemma_decimal_reads_back(i);
    let s = auto_id(i);
    assert(s.take(5) =~= "Auto."@);
    assert(s.skip(5) =~= decimal(i as nat));
}

/// The identity of a named widget is read as itself, where the
/// application reads the text of the name as that name.
pub proof fn law_named_id_reads_back<I: Id>(id: I)
    requires
        I::of_text(id.text()) == Some(id),
    ensures
        read_id::<I>(user_id(id)) == Some(user_id(id)),
{
    reveal_strlit("Auto.");
    reveal_strlit("User.");
    let s = user_id(id);
    assert(s.take(5) =~= "User."@);
    assert(s.skip(5) =~= id.text());
    assert("User."@[0] != "Auto."@[0]);
    assert(s.take(5) != "Auto."@);
}

/// A text is no identity exactly where it is neither `Auto.` and a number
/// nor `User.` and a text that the application takes for a name.
pub proof fn law_unread_ids<I: Id>(s: Seq<char>)
    ensures
        read_id::<I>(s) is None <==> auto_number(s) is None && (user_name(s) matches Some(rest)
            ==> I::of_text(rest) is None),
{
}

/// A small set of names, as an application may have it: a few widgets by
/// name, and a row of buttons on the right by number.
#[derive(Debug, PartialEq, Eq, PartialOrd, Ord, Clone, Copy, Structural)]
pub enum MyId {
    Any,
    Button1,
    Button2,
    RightButton(usize),
    LateButton,
}

impl MyId {
    /// The name as text.
    pub open spec fn name(self) -> Seq<char> {
        match self {
            MyId::Any => "Any"@,
            MyId::Button1 => "Button1"@,
            MyId::Button2 => "Button2"@,
            MyId::RightButton(i) => "RightButton."@ + decimal(i as nat),
            MyId::LateButton => "LateButton"@,
        }
    }

    /// The name that a text stands for, if it is one. The number of a
    /// button on the right is read as any unsigned decimal number is.
    pub open spec fn named(s: Seq<char>) -> Option<MyId> {
        if s == "Any"@ {
            Some(MyId::Any)
        } else if s == "Button1"@ {
            Some(MyId::Button1)
        } else if s == "Button2"@ {
            Some(MyId::Button2)
        } else if s == "LateButton"@ {
            Some(MyId::LateButton)
        } else if has_prefix(s, "RightButton."@) {
            match parsed_usize(s.skip(12)) {
                Some(i) => Some(MyId::RightButton(i)),
                None => None,
            }
        } else {
            None
        }
    }

    /// The name as text.
    pub fn write(&self) -> (s: String)
        ensures
            s@ == self.name(),
    {
        match self {
            MyId::Any => String::from_str("Any"),
            MyId::Button1 => String::from_str("Button1"),
            MyId::Button2 => String::from_str("Button2"),
            MyId::RightButton(i) => numbered("RightButton.", *i),
            MyId::LateButton => String::from_str("LateButton"),
        }
    }

    /// The name that `s` stands for, if it is one.
    pub fn read(s: &str) -> (id: Option<MyId>)
        ensures
            id == MyId::named(s@),
    {
        proof {
            reveal_strlit("RightButton.");
        }
        if same_text(s, "Any") {
            Some(MyId::Any)
        } else if same_text(s, "Button1") {
            Some(MyId::Button1)
        } else if same_text(s, "Button2") {
            Some(MyId::Button2)
        } else if same_text(s, "LateButton") {
            Some(MyId::LateButton)
        } else if starts_with(s, "RightButton.") {
            match parse_usize(after(s, 12)) {
                Some(i) => Some(MyId::RightButton(i)),
                None => None,
            }
        } else {
            None
        }
    }
}

impl Default for MyId {
    fn default() -> (id: MyId)
        ensures
            id == MyId::Any,
    {
        MyId::Any
    }
}

impl Id for MyId {
    open spec fn text(&self) -> Seq<char> {
        self.name()
    }

    open spec fn of_text(s: Seq<char>) -> Option<MyId> {
        MyId::named(s)
    }

    fn to_string(&self) -> (s: String) {
        self.write()
    }

    fn from_str(s: &str) -> (id: Option<MyId>) {
        MyId::read(s)
    }
}

/// Each of these names is read from its text as itself.
pub proof fn law_names_read_back(id: MyId)
    ensures
        MyId::named(id.name()) == Some(id),
{
    reveal_strlit("Any");
    reveal_strlit("Button1");
    reveal_strlit("Button2");
    reveal_strlit("LateButton");
    reveal_strlit("RightButton.");
    assert("Any"@.len() == 3);
    assert("Button1"@.len() == 7);
    assert("Button2"@.len() == 7);
    assert("LateButton"@.len() == 10);
    assert("Button1"@[6] != "Button2"@[6]);
    match id {
        MyId::RightButton(i) => {
            lemma_decimal_reads_back(i);
            lemma_decimal_spells(i as nat);
            let s = id.name();
            assert(s.len() >= 13);
            assert(s.take(12) =~= "RightButton."@);
            assert(s.skip(12) =~= decimal(i as nat));
        },
        _ => {},
    }
}

} // verus!

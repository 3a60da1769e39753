//! Sessions and their registry.
//!
//! A client is one session, known by the uuid of its page. It connects
//! twice: over one socket the server pushes updates, over the other the
//! client reports events. Each socket opens with a welcome that says which
//! of the two it is. The registry matches the two by uuid.
//!
//! The registry is shared by whoever reads the sockets and whoever runs the
//! ticks, behind one lock. The events of a session wait in a mailbox with a
//! lock of its own, so that a reader holds the registry only to look the
//! mailbox up. What a mailbox is, is the server's business: here it is
//! carried and never looked into, as the sockets are.
use vstd::prelude::*;
use crate::event::{inbox_of, Event, EventInbox};
use crate::gui::{update_of, Gui, GuiView, ServerBrowserUpdate};

verus! {

/// What a session's socket is for, as its welcome says.
#[derive(Debug, Clone, Copy, PartialEq, Eq, Structural)]
pub enum WebsocketDirection {
    /// The server pushes updates over it.
    ToBrowser,
    /// The client reports events over it.
    ToServer,
}

/// The uuid that a text spells, as the `uuid` crate reads it, as a 128-bit
/// number with the first byte in the highest place; none where the text is
/// no uuid.
pub uninterp spec fn parsed_uuid(text: Seq<char>) -> Option<u128>;

/// Calls `uuid::Uuid::parse_str` and turns the uuid into its 128-bit
/// number with `Uuid::as_u128`. The result is fixed by the text.
#[verifier::external_body]
fn parse_uuid(text: &str) -> (r: Option<u128>)
    ensures
        r == parsed_uuid(text@),
{
    match uuid::Uuid::parse_str(text) {
        Ok(uuid) => Some(uuid.as_u128()),
        Err(_) => None,
    }
}

/// What a [`Connection`] holds, as a mathematical value.
pub struct ConnectionView<S, Q> {
    pub uuid: u128,
    /// The socket that updates are pushed over, once it has said welcome.
    pub socket: Option<S>,
    /// The tree of the tick before; none before the first tick.
    pub last_gui: Option<GuiView>,
    /// The mailbox in which the events of the session wait for its tick.
    pub mailbox: Q,
}

/// One session: a client with up to two sockets. `S` is the socket type
/// and `Q` the type of the mailbox for its events; both are carried and
/// never looked into.
pub struct Connection<S, Q> {
    uuid: u128,
    to_browser_websocket: Option<S>,
    last_gui: Option<Gui>,
    pending_events: Q,
}

/// What is to be done with the tree that a tick has declared.
#[derive(Debug)]
pub enum ShowAction {
    /// The tree is empty: the tick declared nothing, and nothing changes.
    Nothing,
    /// The session has no socket to push over yet.
    NoSocket,
    /// The client already shows this tree: there is nothing to send.
    Unchanged,
    /// The update is to be sent over the session's socket.
    Send(ServerBrowserUpdate),
}

/// How writing an update to a session's socket ended.
#[derive(Debug, Clone, Copy, PartialEq, Eq, Structural)]
pub enum WriteOutcome {
    /// The update is on its way.
    Sent,
    /// The client went away while the update was written, as it does when
    /// its page is loaded anew. The socket may still serve.
    Aborted,
    /// The socket failed in any other way.
    Failed,
}

/// The view of an optional tree.
pub open spec fn last_view(gui: Option<Gui>) -> Option<GuiView> {
    match gui {
        Some(g) => Some(g@),
        None => None,
    }
}

impl<S, Q> View for Connection<S, Q> {
    type V = ConnectionView<S, Q>;

    closed spec fn view(&self) -> ConnectionView<S, Q> {
        ConnectionView {
            uuid: self.uuid,
            socket: self.to_browser_websocket,
            last_gui: last_view(self.last_gui),
            mailbox: self.pending_events,
        }
    }
}

impl<S, Q> Connection<S, Q> {
    /// A session for the page `uuid`, with the socket to push over if it
    /// is there already, and the mailbox for its events.
    pub fn new(uuid: u128, socket: Option<S>, mailbox: Q) -> (c: Connection<S, Q>)
        ensures
            c@ == fresh(uuid, socket, mailbox),
    {
        Connection { uuid, to_browser_websocket: socket, last_gui: None, pending_events: mailbox }
    }

    /// The uuid of the session's page.
    pub fn uuid(&self) -> (uuid: u128)
        ensures
            uuid == self@.uuid,
    {
        self.uuid
    }

    /// The mailbox in which the events of the session wait.
    pub fn mailbox(&self) -> (mailbox: &Q)
        ensures
            *mailbox == self@.mailbox,
    {
        &self.pending_events
    }

    /// Whether the session has a socket to push over.
    pub fn has_socket(&self) -> (r: bool)
        ensures
            r == (self@.socket is Some),
    {
        self.to_browser_websocket.is_some()
    }

    /// Takes the socket out of the session, to write to it.
    pub fn take_socket(&mut self) -> (socket: Option<S>)
        ensures
            socket == old(self)@.socket,
            final(self)@ == (ConnectionView { socket: None, ..old(self)@ }),
    {
        self.to_browser_websocket.take()
    }

    /// Gives the session the socket to push over.
    pub fn set_socket(&mut self, socket: S)
        ensures
            final(self)@ == (ConnectionView { socket: Some(socket), ..old(self)@ }),
    {
        self.to_browser_websocket = Some(socket);
    }

    /// Takes the socket back after an update was written to it. A socket
    /// that failed is not kept: the session is without one until its
    /// client connects anew, and no other session is touched. A socket
    /// that did not fail is the session's again.
    pub fn written(&mut self, socket: S, outcome: WriteOutcome)
        ensures
            final(self)@ == (ConnectionView {
                socket: if outcome == WriteOutcome::Failed {
                    None
                } else {
                    Some(socket)
                },
                ..old(self)@
            }),
    {
        match outcome {
            WriteOutcome::Failed => {
                self.to_browser_websocket = None;
            },
            _ => {
                self.to_browser_websocket = Some(socket);
            },
        }
    }

    /// Begins a tick: an empty tree whose widgets consume the events
    /// `events`, which were taken out of the session's mailbox. Each
    /// widget finds what was done to it, in the order in which it came in.
    pub fn gui(&self, events: Vec<Event>) -> (gui: Gui)
        ensures
            gui@ == (GuiView {
                root: None,
                next_id: 0,
                elements: Map::empty(),
                events: inbox_of(events@),
            }),
    {
        Gui::empty(EventInbox::from_events(events))
    }

    /// Ends a tick with the tree it declared. An empty tree changes
    /// nothing. Any other tree becomes the tree of the tick before, and is
    /// to be sent as its update against the tree it replaces, where the
    /// session has a socket and the update reports anything.
    pub fn show_gui(&mut self, gui: Gui) -> (action: ShowAction)
        ensures
            gui@.root is None ==> action is Nothing && final(self)@ == old(self)@,
            gui@.root is Some ==> final(self)@ == (ConnectionView {
                last_gui: Some(gui@),
                ..old(self)@
            }),
            gui@.root is Some && old(self)@.socket is None ==> action is NoSocket,
            gui@.root is Some && old(self)@.socket is Some ==> match action {
                ShowAction::Send(update) => update_of(old(self)@.last_gui, gui@, update@)
                    && !update@.is_empty(),
                ShowAction::Unchanged => forall|u|
                    update_of(old(self)@.last_gui, gui@, u) ==> u.is_empty(),
                _ => false,
            },
    {
        if gui.is_empty() {
            return ShowAction::Nothing;
        }
        let action = if self.to_browser_websocket.is_some() {
            let update = Gui::server_browser_update(self.last_gui.as_ref(), &gui);
            if update.is_empty() {
                proof {
                    assert forall|u| update_of(old(self)@.last_gui, gui@, u) implies u.is_empty() by {
                        crate::gui::law_update_unique(old(self)@.last_gui, gui@, u, update@);
                    }
                }
                ShowAction::Unchanged
            } else {
                ShowAction::Send(update)
            }
        } else {
            ShowAction::NoSocket
        };
        self.last_gui = Some(gui);
        action
    }
}

/// What a welcome came to.
#[derive(Debug)]
pub enum Welcome<S> {
    /// The welcome named no uuid. The socket is handed back, to be closed.
    Rejected(S),
    /// The socket is the one to push over. The session keeps it, and
    /// nothing more is read from it.
    PushRole,
    /// The socket is the one that reports events. It is handed back, to be
    /// read until it fails, each frame going to the session `uuid`.
    EventsRole { uuid: u128, websocket: S },
}

/// What the first frame on a socket turned out to hold.
#[derive(Debug)]
pub enum FirstFrame {
    /// A welcome: the direction it named, and the text it gave as its
    /// uuid.
    Welcome { direction: WebsocketDirection, uuid: String },
    /// Anything else: an event, text that could not be read, or no text.
    Other,
}

/// What a text frame on an events socket turned out to hold.
#[derive(Debug)]
pub enum Incoming {
    /// An interaction with a widget.
    Event(Event),
    /// A welcome, which has no place after the first frame.
    Welcome,
    /// Nothing that could be read.
    Malformed,
}

/// What is to be done after a frame on an events socket.
#[derive(Debug)]
pub enum Dispatch<'a, Q> {
    /// The event is to be put into the mailbox, behind what waits there;
    /// the reader goes on.
    Queue { mailbox: &'a Q, event: Event },
    /// No session has the uuid; the frame is dropped and the reader goes
    /// on.
    NoSession,
    /// The frame was not an event; the reader ends, and only this one.
    Terminate,
}

/// Whether one of the sessions `s` has the uuid `uuid`.
pub open spec fn has_uuid<S, Q>(s: Seq<ConnectionView<S, Q>>, uuid: u128) -> bool {
    exists|i: int| 0 <= i < s.len() && (#[trigger] s[i]).uuid == uuid
}

/// Whether the session at `i` is the first of the sessions `s` that has
/// the uuid `uuid`.
pub open spec fn is_first_with_uuid<S, Q>(s: Seq<ConnectionView<S, Q>>, uuid: u128, i: int) -> bool {
    &&& 0 <= i < s.len()
    &&& s[i].uuid == uuid
    &&& forall|k: int| 0 <= k < i ==> (#[trigger] s[k]).uuid != uuid
}

/// Where among the sessions `s` the first one with the uuid `uuid` stands.
pub open spec fn index_of_uuid<S, Q>(s: Seq<ConnectionView<S, Q>>, uuid: u128) -> int {
    choose|i: int| is_first_with_uuid(s, uuid, i)
}

/// Whether no two of the sessions `s` have the same uuid.
pub open spec fn distinct_uuids<S, Q>(s: Seq<ConnectionView<S, Q>>) -> bool {
    forall|i: int, j: int|
        0 <= i < j < s.len() ==> (#[trigger] s[i]).uuid != (#[trigger] s[j]).uuid
}

/// A session that has just been made.
pub open spec fn fresh<S, Q>(uuid: u128, socket: Option<S>, mailbox: Q) -> ConnectionView<S, Q> {
    ConnectionView { uuid, socket, last_gui: None, mailbox }
}

/// The sessions after the socket to push over has said welcome for
/// `uuid`. The first session that has the uuid gets the socket and starts
/// over with no tree of a tick before, so that the socket is sent a whole
/// tree first; its mailbox stays. Otherwise a new session is made, with
/// the mailbox `mailbox`.
pub open spec fn with_push_socket<S, Q>(
    s: Seq<ConnectionView<S, Q>>,
    uuid: u128,
    socket: S,
    mailbox: Q,
) -> Seq<ConnectionView<S, Q>> {
    if has_uuid(s, uuid) {
        let i = index_of_uuid(s, uuid);
        s.update(i, ConnectionView { socket: Some(socket), last_gui: None, ..s[i] })
    } else {
        s.push(fresh(uuid, Some(socket), mailbox))
    }
}

/// The sessions after the socket that reports events has said welcome for
/// `uuid`: a new session is made, with the mailbox `mailbox`, unless one
/// is there.
pub open spec fn with_events_socket<S, Q>(
    s: Seq<ConnectionView<S, Q>>,
    uuid: u128,
    mailbox: Q,
) -> Seq<ConnectionView<S, Q>> {
    if has_uuid(s, uuid) {
        s
    } else {
        s.push(fresh(uuid, None, mailbox))
    }
}

/// The sessions after a socket has said welcome: none is touched where the
/// welcome named no uuid.
pub open spec fn welcomed<S, Q>(
    s: Seq<ConnectionView<S, Q>>,
    websocket: S,
    direction: WebsocketDirection,
    uuid: Option<u128>,
    mailbox: Q,
) -> Seq<ConnectionView<S, Q>> {
    match uuid {
        None => s,
        Some(id) => match direction {
            WebsocketDirection::ToBrowser => with_push_socket(s, id, websocket, mailbox),
            WebsocketDirection::ToServer => with_events_socket(s, id, mailbox),
        },
    }
}

/// What a welcome comes to: the socket is handed back where the welcome
/// named no uuid, kept where updates are pushed over it, and handed back
/// to be read where events are reported over it.
pub open spec fn welcome_of<S>(
    websocket: S,
    direction: WebsocketDirection,
    uuid: Option<u128>,
) -> Welcome<S> {
    match uuid {
        None => Welcome::Rejected(websocket),
        Some(id) => match direction {
            WebsocketDirection::ToBrowser => Welcome::PushRole,
            WebsocketDirection::ToServer => Welcome::EventsRole { uuid: id, websocket },
        },
    }
}

/// The sessions of a server, in the order in which they were made.
pub struct Connections<S, Q> {
    sessions: Vec<Connection<S, Q>>,
}

impl<S, Q> View for Connections<S, Q> {
    type V = Seq<ConnectionView<S, Q>>;

    closed spec fn view(&self) -> Seq<ConnectionView<S, Q>> {
        self.sessions@.map_values(|c: Connection<S, Q>| c@)
    }
}

impl<S, Q> Connections<S, Q> {
    /// Whether no two sessions have the same uuid. A registry starts so,
    /// and every welcome keeps it so.
    pub open spec fn wf(&self) -> bool {
        distinct_uuids(self@)
    }

    /// A registry without sessions.
    pub fn new() -> (r: Connections<S, Q>)
        ensures
            r.wf(),
            r@ == Seq::<ConnectionView<S, Q>>::empty(),
    {
        let r = Connections { sessions: Vec::new() };
        assert(r@ =~= Seq::<ConnectionView<S, Q>>::empty());
        r
    }

    /// The number of sessions.
    pub fn len(&self) -> (n: usize)
        ensures
            n == self@.len(),
    {
        self.sessions.len()
    }

    /// Where the first session with the uuid `uuid` stands, if there is
    /// one.
    pub fn find(&self, uuid: u128) -> (r: Option<usize>)
        ensures
            match r {
                Some(i) => is_first_with_uuid(self@, uuid, i as int) && has_uuid(self@, uuid) && i
                    == index_of_uuid(self@, uuid),
                None => !has_uuid(self@, uuid),
            },
    {
        let mut i: usize = 0;
        while i < self.sessions.len()
            invariant
                i <= self.sessions.len(),
                forall|k: int| 0 <= k < i ==> (#[trigger] self@[k]).uuid != uuid,
            decreases self.sessions.len() - i,
        {
            if self.sessions[i].uuid == uuid {
                proof {
                    assert(is_first_with_uuid(self@, uuid, i as int));
                    let j = index_of_uuid(self@, uuid);
                    assert(is_first_with_uuid(self@, uuid, j));
                    if j < i {
                        assert(self@[j].uuid != uuid);
                    }
                    if i < j {
                        assert(self@[i as int].uuid != uuid);
                    }
                }
                return Some(i);
            }
            i += 1;
        }
        None
    }

    /// The session at `index`, to begin and end its tick.
    pub fn connection(&mut self, index: usize) -> (c: &mut Connection<S, Q>)
        requires
            index < old(self)@.len(),
        ensures
            c@ == old(self)@[index as int],
            final(self)@ == old(self)@.update(index as int, final(c)@),
    {
        &mut self.sessions[index]
    }

    /// Takes a socket into the registry whose welcome named the session
    /// `uuid`, or none where the welcome named no uuid. The mailbox
    /// `mailbox` is for the session that the welcome may make; it is let
    /// go where none is made.
    pub fn welcome(
        &mut self,
        websocket: S,
        direction: WebsocketDirection,
        uuid: Option<u128>,
        mailbox: Q,
    ) -> (r: Welcome<S>)
        ensures
            old(self).wf() ==> final(self).wf(),
            r == welcome_of(websocket, direction, uuid),
            final(self)@ == welcomed(old(self)@, websocket, direction, uuid, mailbox),
    {
        let id = match uuid {
            Some(id) => id,
            None => {
                return Welcome::Rejected(websocket);
            },
        };
        let found = self.find(id);
        match direction {
            WebsocketDirection::ToBrowser => {
                match found {
                    Some(i) => {
                        let mut c = self.sessions.remove(i);
                        c.to_browser_websocket = Some(websocket);
                        c.last_gui = None;
                        self.sessions.insert(i, c);
                    },
                    None => {
                        self.sessions.push(Connection::new(id, Some(websocket), mailbox));
                    },
                }
                assert(self@ =~= with_push_socket(old(self)@, id, websocket, mailbox));
                Welcome::PushRole
            },
            WebsocketDirection::ToServer => {
                match found {
                    Some(_) => {},
                    None => {
                        self.sessions.push(Connection::new(id, None, mailbox));
                    },
                }
                assert(self@ =~= with_events_socket(old(self)@, id, mailbox));
                Welcome::EventsRole { uuid: id, websocket }
            },
        }
    }

    /// Takes a socket into the registry after its welcome: the direction
    /// it named, and the text it gave as its uuid.
    pub fn handle_welcome_message(
        &mut self,
        websocket: S,
        direction: WebsocketDirection,
        uuid: &str,
        mailbox: Q,
    ) -> (r: Welcome<S>)
        ensures
            old(self).wf() ==> final(self).wf(),
            r == welcome_of(websocket, direction, parsed_uuid(uuid@)),
            final(self)@ == welcomed(
                old(self)@,
                websocket,
                direction,
                parsed_uuid(uuid@),
                mailbox,
            ),
    {
        let id = parse_uuid(uuid);
        self.welcome(websocket, direction, id, mailbox)
    }

    /// Takes a socket into the registry on its first frame. A socket has
    /// no role before it has said welcome: a first frame that is anything
    /// else ends the attempt, as does a welcome that names no uuid.
    pub fn handle_first_frame(&mut self, websocket: S, frame: FirstFrame, mailbox: Q) -> (r:
        Welcome<S>)
        ensures
            old(self).wf() ==> final(self).wf(),
            match frame {
                FirstFrame::Other => r == Welcome::Rejected(websocket) && final(self)@ == old(
                    self,
                )@,
                FirstFrame::Welcome { direction, uuid } => {
                    &&& r == welcome_of(websocket, direction, parsed_uuid(uuid@))
                    &&& final(self)@ == welcomed(
                        old(self)@,
                        websocket,
                        direction,
                        parsed_uuid(uuid@),
                        mailbox,
                    )
                },
            },
    {
        match frame {
            FirstFrame::Welcome { direction, uuid } => self.handle_welcome_message(
                websocket,
                direction,
                uuid.as_str(),
                mailbox,
            ),
            FirstFrame::Other => Welcome::Rejected(websocket),
        }
    }

    /// Decides what is done with a frame that came in on the events socket
    /// of the session `uuid`. A frame that is no event ends the reader,
    /// whatever the registry holds. An event goes to the mailbox of the
    /// first session with that uuid, which is looked up here and filled by
    /// the reader once the registry is let go; it is dropped where no
    /// session has the uuid. The registry is not changed.
    pub fn handle_incoming_event(&self, uuid: u128, message: Incoming) -> (r: Dispatch<'_, Q>)
        ensures
            match message {
                Incoming::Event(incoming) => if has_uuid(self@, uuid) {
                    r matches Dispatch::Queue { mailbox, event } && *mailbox
                        == self@[index_of_uuid(self@, uuid)].mailbox && event == incoming
                } else {
                    r is NoSession
                },
                _ => r is Terminate,
            },
    {
        let event = match message {
            Incoming::Event(event) => event,
            _ => {
                return Dispatch::Terminate;
            },
        };
        match self.find(uuid) {
            Some(i) => Dispatch::Queue { mailbox: self.sessions[i].mailbox(), event },
            None => Dispatch::NoSession,
        }
    }
}

} // verus!

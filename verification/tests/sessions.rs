use iwgui::connection::{
    Connection, Connections, Dispatch, FirstFrame, Incoming, ShowAction, WebsocketDirection,
    Welcome, WriteOutcome,
};
use iwgui::element::Element;
use iwgui::elements::Elements;
use iwgui::event::{Event, EventInbox, EventKind};
use iwgui::handle::HandleHash;
use iwgui::layout::Layout;
use std::cell::RefCell;
use std::rc::Rc;

const PAGE: &str = "936DA01F-9ABD-4D9D-80C7-02AF85C822A8";
const PAGE_NUMBER: u128 = 0x936D_A01F_9ABD_4D9D_80C7_02AF_85C8_22A8;
const OTHER: &str = "00000000-0000-0000-0000-00000000002a";

type Mailbox = Rc<RefCell<Vec<Event>>>;

fn mailbox() -> Mailbox {
    Rc::new(RefCell::new(Vec::new()))
}

fn event(id: u32, kind: EventKind) -> Event {
    Event { handle_hash: HandleHash(id), kind }
}

fn pressed(id: u32) -> Incoming {
    Incoming::Event(event(id, EventKind::ButtonPressed))
}

/// What a reader does with a frame: the registry decides, the mailbox is filled.
fn read(registry: &Connections<u8, Mailbox>, uuid: u128, frame: Incoming) -> &'static str {
    match registry.handle_incoming_event(uuid, frame) {
        Dispatch::Queue { mailbox, event } => {
            mailbox.borrow_mut().push(event);
            "queued"
        }
        Dispatch::NoSession => "no session",
        Dispatch::Terminate => "terminate",
    }
}

/// What a tick does first: the mailbox is emptied into a new tree.
fn begin(session: &Connection<u8, Mailbox>) -> iwgui::gui::Gui {
    let events = std::mem::take(&mut *session.mailbox().borrow_mut());
    session.gui(events)
}

#[test]
fn welcome_reads_the_uuid() {
    let mut registry: Connections<&str, u8> = Connections::new();
    match registry.handle_welcome_message("events", WebsocketDirection::ToServer, PAGE, 1) {
        Welcome::EventsRole { uuid, websocket } => {
            assert_eq!(uuid, PAGE_NUMBER);
            assert_eq!(websocket, "events");
        }
        other => panic!("unexpected: {:?}", other),
    }
    match registry.handle_welcome_message("events", WebsocketDirection::ToServer, OTHER, 2) {
        Welcome::EventsRole { uuid, .. } => assert_eq!(uuid, 42),
        other => panic!("unexpected: {:?}", other),
    }
    // The same uuid without hyphens, and as a urn.
    assert_eq!(registry.len(), 2);
    registry.handle_welcome_message("e", WebsocketDirection::ToServer, "936da01f9abd4d9d80c702af85c822a8", 3);
    registry.handle_welcome_message(
        "e",
        WebsocketDirection::ToServer,
        "urn:uuid:936da01f-9abd-4d9d-80c7-02af85c822a8",
        4,
    );
    assert_eq!(registry.len(), 2);
    assert_eq!(registry.find(PAGE_NUMBER), Some(0));
    assert_eq!(registry.find(42), Some(1));
    assert_eq!(registry.find(43), None);
    // Each session keeps the mailbox it was made with.
    assert_eq!(*registry.connection(0).mailbox(), 1);
    assert_eq!(*registry.connection(1).mailbox(), 2);
}

#[test]
fn welcome_without_a_uuid_is_rejected() {
    let mut registry: Connections<u8, u8> = Connections::new();
    for text in ["", "936DA01F-9ABD-4D9D-80C7", "936DA01F-9ABD-4D9D-80C7-02AF85C822AZ", "not a uuid"] {
        match registry.handle_welcome_message(7, WebsocketDirection::ToBrowser, text, 0) {
            Welcome::Rejected(socket) => assert_eq!(socket, 7),
            other => panic!("unexpected: {:?}", other),
        }
    }
    assert_eq!(registry.len(), 0);
    assert!(matches!(registry.welcome(7, WebsocketDirection::ToServer, None, 0), Welcome::Rejected(7)));
}

#[test]
fn two_sockets_of_one_page_are_one_session() {
    let mut registry: Connections<&str, u8> = Connections::new();
    assert!(matches!(
        registry.handle_welcome_message("events", WebsocketDirection::ToServer, PAGE, 1),
        Welcome::EventsRole { .. }
    ));
    assert_eq!(registry.len(), 1);
    assert!(!registry.connection(0).has_socket());
    assert!(matches!(
        registry.handle_welcome_message("push", WebsocketDirection::ToBrowser, PAGE, 2),
        Welcome::PushRole
    ));
    assert_eq!(registry.len(), 1);
    assert_eq!(registry.connection(0).uuid(), PAGE_NUMBER);
    assert_eq!(*registry.connection(0).mailbox(), 1);
    assert_eq!(registry.connection(0).take_socket(), Some("push"));
    assert_eq!(registry.connection(0).take_socket(), None);

    // The other way round, for another page.
    registry.handle_welcome_message("push 2", WebsocketDirection::ToBrowser, OTHER, 3);
    registry.handle_welcome_message("events 2", WebsocketDirection::ToServer, OTHER, 4);
    assert_eq!(registry.len(), 2);
    assert_eq!(registry.connection(1).uuid(), 42);
    assert_eq!(*registry.connection(1).mailbox(), 3);
    assert!(registry.connection(1).has_socket());
}

#[test]
fn events_go_to_the_mailbox_of_their_page() {
    let mut registry: Connections<u8, Mailbox> = Connections::new();
    registry.welcome(1, WebsocketDirection::ToBrowser, Some(10), mailbox());
    registry.welcome(2, WebsocketDirection::ToBrowser, Some(20), mailbox());
    assert_eq!(read(&registry, 20, pressed(5)), "queued");
    assert_eq!(read(&registry, 30, pressed(5)), "no session");
    // A frame that is no event ends the reader, session or not.
    assert_eq!(read(&registry, 30, Incoming::Malformed), "terminate");
    assert_eq!(read(&registry, 30, Incoming::Welcome), "terminate");
    assert_eq!(read(&registry, 10, Incoming::Malformed), "terminate");
    assert_eq!(read(&registry, 10, Incoming::Welcome), "terminate");
    let empty: Connections<u8, Mailbox> = Connections::new();
    assert_eq!(read(&empty, 10, Incoming::Malformed), "terminate");
    assert_eq!(read(&empty, 10, pressed(5)), "no session");

    let mut gui = begin(registry.connection(0));
    assert!(gui.take_events(HandleHash(5)).is_empty());
    let mut gui = begin(registry.connection(1));
    assert_eq!(gui.take_events(HandleHash(5)), vec![EventKind::ButtonPressed]);
    // A tick takes the events with it.
    let mut gui = begin(registry.connection(1));
    assert!(gui.take_events(HandleHash(5)).is_empty());
}

#[test]
fn a_tick_finds_the_events_of_each_widget_in_their_order() {
    let session: Connection<u8, u8> = Connection::new(1, None, 0);
    let mut gui = session.gui(vec![
        event(1, EventKind::TextboxChanged("a".to_string())),
        event(2, EventKind::CheckboxChecked(true)),
        event(1, EventKind::TextboxChanged("ab".to_string())),
        event(2, EventKind::CheckboxChecked(false)),
        event(1, EventKind::ButtonPressed),
    ]);
    assert!(gui.is_empty());
    assert_eq!(
        gui.take_events(HandleHash(1)),
        vec![
            EventKind::TextboxChanged("a".to_string()),
            EventKind::TextboxChanged("ab".to_string()),
            EventKind::ButtonPressed,
        ]
    );
    assert_eq!(
        gui.take_events(HandleHash(2)),
        vec![EventKind::CheckboxChecked(true), EventKind::CheckboxChecked(false)]
    );
    assert!(gui.take_events(HandleHash(3)).is_empty());
    let mut inbox = EventInbox::from_events(vec![event(4, EventKind::NumberChanged(1))]);
    assert_eq!(inbox.take(HandleHash(4)), vec![EventKind::NumberChanged(1)]);
    assert!(EventInbox::from_events(vec![]).is_empty());
}

#[test]
fn show_gui_sends_what_changed() {
    let mut session: Connection<u8, u8> = Connection::new(1, Some(0), 0);

    // A tick that declares nothing leaves everything as it is.
    let gui = session.gui(vec![]);
    assert!(matches!(session.show_gui(gui), ShowAction::Nothing));

    let mut gui = session.gui(vec![]);
    let stack = gui.root(HandleHash(1)).stacklayout(&mut gui);
    stack.button(&mut gui, HandleHash(2)).finish();
    match session.show_gui(gui) {
        ShowAction::Send(update) => {
            assert_eq!(update.root(), Some(HandleHash(1)));
            assert_eq!(update.added_ids(), vec![HandleHash(1), HandleHash(2)]);
        }
        other => panic!("unexpected: {:?}", other),
    }

    let mut gui = session.gui(vec![]);
    let stack = gui.root(HandleHash(1)).stacklayout(&mut gui);
    stack.button(&mut gui, HandleHash(2)).finish();
    assert!(matches!(session.show_gui(gui), ShowAction::Unchanged));

    // An empty tree does not become the tree of the tick before.
    let gui = session.gui(vec![]);
    assert!(matches!(session.show_gui(gui), ShowAction::Nothing));

    let mut gui = session.gui(vec![]);
    let stack = gui.root(HandleHash(1)).stacklayout(&mut gui);
    stack.button(&mut gui, HandleHash(2)).text("now".to_string()).finish();
    match session.show_gui(gui) {
        ShowAction::Send(update) => {
            assert_eq!(update.root(), None);
            assert_eq!(update.updated_ids(), vec![HandleHash(2)]);
            assert_eq!(
                update.updated(HandleHash(2)),
                Some(Element::Button { text: Some("now".to_string()) })
            );
            assert!(update.added_ids().is_empty() && update.removed().is_empty());
        }
        other => panic!("unexpected: {:?}", other),
    }
}

#[test]
fn session_without_a_socket_is_skipped_and_remembers_the_tree() {
    let mut session: Connection<u8, u8> = Connection::new(1, None, 0);
    let mut gui = session.gui(vec![]);
    gui.root(HandleHash(1)).stacklayout(&mut gui);
    assert!(matches!(session.show_gui(gui), ShowAction::NoSocket));
    session.set_socket(9);
    let mut gui = session.gui(vec![]);
    gui.root(HandleHash(1)).stacklayout(&mut gui);
    assert!(matches!(session.show_gui(gui), ShowAction::Unchanged));
}

#[test]
fn a_socket_that_failed_is_not_kept() {
    let mut session: Connection<u8, u8> = Connection::new(1, Some(5), 0);
    let socket = session.take_socket().unwrap();
    session.written(socket, WriteOutcome::Sent);
    assert_eq!(session.take_socket(), Some(5));
    session.written(5, WriteOutcome::Aborted);
    assert_eq!(session.take_socket(), Some(5));
    session.written(5, WriteOutcome::Failed);
    assert!(!session.has_socket());
    assert_eq!(session.take_socket(), None);
    // The session goes on without a socket.
    let mut gui = session.gui(vec![]);
    gui.root(HandleHash(1)).stacklayout(&mut gui);
    assert!(matches!(session.show_gui(gui), ShowAction::NoSocket));
    assert_eq!(session.uuid(), 1);
}

#[test]
fn a_new_push_socket_is_sent_the_whole_tree() {
    let mut registry: Connections<u8, Mailbox> = Connections::new();
    registry.welcome(1, WebsocketDirection::ToBrowser, Some(10), mailbox());
    assert_eq!(read(&registry, 10, pressed(2)), "queued");
    let mut gui = begin(registry.connection(0));
    let stack = gui.root(HandleHash(1)).stacklayout(&mut gui);
    assert!(stack.button(&mut gui, HandleHash(2)).finish());
    assert!(matches!(registry.connection(0).show_gui(gui), ShowAction::Send(_)));

    // The events that wait stay with the session.
    assert_eq!(read(&registry, 10, pressed(2)), "queued");
    registry.welcome(2, WebsocketDirection::ToBrowser, Some(10), mailbox());
    assert_eq!(registry.len(), 1);
    let mut gui = begin(registry.connection(0));
    let stack = gui.root(HandleHash(1)).stacklayout(&mut gui);
    assert!(stack.button(&mut gui, HandleHash(2)).finish());
    match registry.connection(0).show_gui(gui) {
        ShowAction::Send(update) => {
            assert_eq!(update.root(), Some(HandleHash(1)));
            assert_eq!(update.added_ids(), vec![HandleHash(1), HandleHash(2)]);
        }
        other => panic!("unexpected: {:?}", other),
    }
    assert_eq!(registry.connection(0).take_socket(), Some(2));
}

#[test]
fn a_socket_has_no_role_before_its_welcome() {
    let mut registry: Connections<u8, u8> = Connections::new();
    assert!(matches!(registry.handle_first_frame(3, FirstFrame::Other, 0), Welcome::Rejected(3)));
    assert_eq!(registry.len(), 0);
    let welcome = FirstFrame::Welcome { direction: WebsocketDirection::ToBrowser, uuid: "?".to_string() };
    assert!(matches!(registry.handle_first_frame(3, welcome, 0), Welcome::Rejected(3)));
    let welcome = FirstFrame::Welcome { direction: WebsocketDirection::ToBrowser, uuid: PAGE.to_string() };
    assert!(matches!(registry.handle_first_frame(3, welcome, 0), Welcome::PushRole));
    let welcome = FirstFrame::Welcome { direction: WebsocketDirection::ToServer, uuid: PAGE.to_string() };
    assert!(matches!(
        registry.handle_first_frame(4, welcome, 0),
        Welcome::EventsRole { uuid: PAGE_NUMBER, websocket: 4 }
    ));
    assert_eq!(registry.len(), 1);
    assert_eq!(registry.connection(0).take_socket(), Some(3));
}

#[test]
fn the_first_session_with_a_uuid_is_the_one_found() {
    let mut registry: Connections<u8, u8> = Connections::new();
    registry.welcome(1, WebsocketDirection::ToBrowser, Some(10), 100);
    registry.welcome(2, WebsocketDirection::ToBrowser, Some(20), 101);
    registry.welcome(3, WebsocketDirection::ToBrowser, Some(30), 102);
    *registry.connection(2) = Connection::new(20, None, 103);
    assert_eq!(registry.find(20), Some(1));
    assert_eq!(registry.find(30), None);
    match registry.handle_incoming_event(20, pressed(1)) {
        Dispatch::Queue { mailbox, event } => {
            assert_eq!(*mailbox, 101);
            assert_eq!(event.handle_hash, HandleHash(1));
        }
        other => panic!("unexpected: {:?}", other),
    }
    registry.welcome(4, WebsocketDirection::ToBrowser, Some(20), 104);
    assert_eq!(registry.len(), 3);
    assert_eq!(registry.connection(1).take_socket(), Some(4));
    assert_eq!(registry.connection(2).take_socket(), None);
}

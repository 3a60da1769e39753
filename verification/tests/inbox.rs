use iwgui::event::{EventInbox, EventKind};
use iwgui::handle::HandleHash;

#[test]
fn take_returns_every_event_once_in_push_order() {
    let x = HandleHash(11);
    let mut inbox = EventInbox::new();
    inbox.push(x, EventKind::TextboxChanged("a".to_string()));
    inbox.push(x, EventKind::TextboxChanged("ab".to_string()));
    inbox.push(x, EventKind::ButtonPressed);
    inbox.push(x, EventKind::NumberChanged(-4));
    assert_eq!(
        inbox.take(x),
        vec![
            EventKind::TextboxChanged("a".to_string()),
            EventKind::TextboxChanged("ab".to_string()),
            EventKind::ButtonPressed,
            EventKind::NumberChanged(-4),
        ]
    );
    assert_eq!(inbox.take(x), Vec::<EventKind>::new());
    assert!(inbox.is_empty());
}

#[test]
fn take_leaves_other_widgets_alone() {
    let x = HandleHash(1);
    let y = HandleHash(2);
    let mut inbox = EventInbox::new();
    inbox.push(x, EventKind::CheckboxChecked(true));
    inbox.push(y, EventKind::ButtonPressed);
    inbox.push(x, EventKind::CheckboxChecked(false));
    assert_eq!(
        inbox.take(x),
        vec![EventKind::CheckboxChecked(true), EventKind::CheckboxChecked(false)]
    );
    assert!(!inbox.is_empty());
    assert_eq!(inbox.take(y), vec![EventKind::ButtonPressed]);
    assert!(inbox.is_empty());
}

#[test]
fn take_of_an_unknown_widget_is_empty() {
    let mut inbox = EventInbox::new();
    assert!(inbox.is_empty());
    assert_eq!(inbox.take(HandleHash(99)), Vec::<EventKind>::new());
    inbox.push(HandleHash(1), EventKind::ButtonPressed);
    assert_eq!(inbox.take(HandleHash(99)), Vec::<EventKind>::new());
    assert_eq!(inbox.take(HandleHash(1)), vec![EventKind::ButtonPressed]);
}

#[test]
fn push_after_take_starts_a_new_queue() {
    let x = HandleHash(5);
    let mut inbox = EventInbox::new();
    inbox.push(x, EventKind::NumberChanged(1));
    assert_eq!(inbox.take(x), vec![EventKind::NumberChanged(1)]);
    inbox.push(x, EventKind::NumberChanged(2));
    assert_eq!(inbox.take(x), vec![EventKind::NumberChanged(2)]);
}

#[test]
fn peek_shows_what_waits_and_takes_nothing() {
    let x = HandleHash(5);
    let mut inbox = EventInbox::new();
    assert!(inbox.peek(x).is_empty());
    inbox.push(x, EventKind::TextboxChanged("a".to_string()));
    inbox.push(x, EventKind::ButtonPressed);
    let waiting = vec![EventKind::TextboxChanged("a".to_string()), EventKind::ButtonPressed];
    assert_eq!(inbox.peek(x), waiting);
    assert_eq!(inbox.peek(x), waiting);
    assert!(inbox.peek(HandleHash(6)).is_empty());
    assert_eq!(inbox.take(x), waiting);
    assert!(inbox.peek(x).is_empty());
    let kind = EventKind::TextboxChanged("b".to_string());
    assert_eq!(kind.duplicate(), kind);
}

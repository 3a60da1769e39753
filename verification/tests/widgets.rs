use iwgui::element::Element;
use iwgui::elements::Elements;
use iwgui::event::{EventInbox, EventKind};
use iwgui::gui::Gui;
use iwgui::handle::{manual_handle, HandleHash};
use iwgui::layout::{Layout, StackLayout};
use iwgui::widgets::ConvertError;

const ROOT: HandleHash = HandleHash(1);
const SITE: HandleHash = HandleHash(50);

fn tick(events: Vec<(HandleHash, EventKind)>) -> (Gui, StackLayout) {
    let mut inbox = EventInbox::new();
    for (id, kind) in events {
        inbox.push(id, kind);
    }
    let mut gui = Gui::empty(inbox);
    let stack = gui.root(ROOT).stacklayout(&mut gui);
    (gui, stack)
}

fn children(gui: &Gui) -> Vec<HandleHash> {
    match gui.get(ROOT) {
        Some(Element::StackLayout { children }) => children,
        other => panic!("the root is no stack: {:?}", other),
    }
}

#[test]
fn header_and_label_are_stored_in_declaration_order() {
    let (mut gui, stack) = tick(vec![]);
    stack.header(&mut gui, HandleHash(30), "Ducks".to_string());
    stack.label(&mut gui, HandleHash(20), "Robin".to_string()).finish();
    stack.label(&mut gui, HandleHash(40), "Jenny".to_string()).finish();
    assert_eq!(children(&gui), vec![HandleHash(30), HandleHash(20), HandleHash(40)]);
    assert_eq!(gui.get(HandleHash(30)), Some(Element::Header("Ducks".to_string())));
    assert_eq!(gui.get(HandleHash(20)), Some(Element::Label("Robin".to_string())));
    assert_eq!(gui.get(HandleHash(40)), Some(Element::Label("Jenny".to_string())));
    assert_eq!(gui.len(), 4);
}

#[test]
fn handle_replaces_the_identity_of_the_site() {
    let (mut gui, stack) = tick(vec![]);
    stack.label(&mut gui, SITE, "a".to_string()).handle(HandleHash(60), &0usize).finish();
    stack.label(&mut gui, SITE, "b".to_string()).handle(HandleHash(60), &1usize).finish();
    let first = manual_handle(HandleHash(60), &0usize);
    let second = manual_handle(HandleHash(60), &1usize);
    assert_ne!(first, second);
    assert_eq!(children(&gui), vec![first, second]);
    assert_eq!(gui.get(first), Some(Element::Label("a".to_string())));
    assert_eq!(gui.get(second), Some(Element::Label("b".to_string())));
    assert_eq!(gui.get(SITE), None);
}

#[test]
fn redeclared_widget_is_overwritten_and_listed_twice() {
    let (mut gui, stack) = tick(vec![]);
    stack.label(&mut gui, SITE, "old".to_string()).finish();
    stack.label(&mut gui, SITE, "new".to_string()).finish();
    assert_eq!(gui.get(SITE), Some(Element::Label("new".to_string())));
    assert_eq!(children(&gui), vec![SITE, SITE]);
}

#[test]
fn button_is_pressed_by_any_event_and_consumes_it() {
    let (mut gui, stack) = tick(vec![
        (SITE, EventKind::CheckboxChecked(true)),
        (HandleHash(51), EventKind::ButtonPressed),
    ]);
    assert!(stack.button(&mut gui, SITE).text("Wave".to_string()).finish());
    assert!(!stack.button(&mut gui, SITE).text("Wave".to_string()).finish());
    assert!(!stack.button(&mut gui, HandleHash(52)).finish());
    assert!(stack.button(&mut gui, HandleHash(51)).finish());
    assert_eq!(gui.get(SITE), Some(Element::Button { text: Some("Wave".to_string()) }));
    assert_eq!(gui.get(HandleHash(52)), Some(Element::Button { text: None }));
}

#[test]
fn checkbox_takes_the_last_change_and_passes_over_other_kinds() {
    let (mut gui, stack) = tick(vec![
        (SITE, EventKind::CheckboxChecked(true)),
        (SITE, EventKind::CheckboxChecked(false)),
        (SITE, EventKind::CheckboxChecked(true)),
        (SITE, EventKind::ButtonPressed),
        (SITE, EventKind::NumberChanged(0)),
    ]);
    let mut in_the_water = false;
    stack.checkbox(&mut gui, SITE, &mut in_the_water).text("In the water".to_string()).finish();
    assert!(in_the_water);
    assert_eq!(
        gui.get(SITE),
        Some(Element::Checkbox { text: Some("In the water".to_string()), checked: true })
    );
    // The events are gone: a second declaration leaves the flag alone.
    in_the_water = false;
    stack.checkbox(&mut gui, SITE, &mut in_the_water).finish();
    assert!(!in_the_water);
    assert_eq!(gui.get(SITE), Some(Element::Checkbox { text: None, checked: false }));
}

#[test]
fn checkbox_without_events_shows_the_bound_flag() {
    let (mut gui, stack) = tick(vec![(HandleHash(77), EventKind::CheckboxChecked(false))]);
    let mut flag = true;
    stack.checkbox(&mut gui, SITE, &mut flag).finish();
    assert!(flag);
    assert_eq!(gui.get(SITE), Some(Element::Checkbox { text: None, checked: true }));
}

#[test]
fn text_box_takes_the_last_text() {
    let (mut gui, stack) = tick(vec![
        (SITE, EventKind::TextboxChanged("u".to_string())),
        (SITE, EventKind::TextboxChanged("un".to_string())),
        (SITE, EventKind::CheckboxChecked(true)),
    ]);
    let mut name = "unknown".to_string();
    stack.text_box(&mut gui, SITE, &mut name).finish();
    assert_eq!(name, "un");
    assert_eq!(gui.get(SITE), Some(Element::Textbox("un".to_string())));
    let mut other = "kept".to_string();
    stack.text_box(&mut gui, HandleHash(90), &mut other).handle(HandleHash(91), &4usize).finish();
    assert_eq!(other, "kept");
    assert_eq!(
        gui.get(manual_handle(HandleHash(91), &4usize)),
        Some(Element::Textbox("kept".to_string()))
    );
}

#[test]
fn number_shows_the_value_before_the_event_and_binds_the_value_after() {
    let (mut gui, stack) = tick(vec![
        (SITE, EventKind::NumberChanged(3)),
        (SITE, EventKind::NumberChanged(12)),
        (SITE, EventKind::ButtonPressed),
    ]);
    let mut paper_size: usize = 1;
    let result = stack.number(&mut gui, SITE, &mut paper_size).text("Paper Size".to_string()).finish();
    assert_eq!(result, Ok(()));
    assert_eq!(paper_size, 12);
    assert_eq!(
        gui.get(SITE),
        Some(Element::Number {
            text: Some("Paper Size".to_string()),
            min: None,
            max: None,
            step: None,
            value: 1
        })
    );
}

#[test]
fn number_that_does_not_fit_the_wire_is_reported_and_nothing_happens() {
    let (mut gui, stack) = tick(vec![(SITE, EventKind::NumberChanged(3))]);
    let mut big: u64 = 3_000_000_000;
    let result = stack.number(&mut gui, SITE, &mut big).finish();
    assert_eq!(result, Err(ConvertError::CouldNotConvertServerValue));
    assert_eq!(big, 3_000_000_000);
    assert_eq!(gui.get(SITE), None);
    assert_eq!(children(&gui), Vec::<HandleHash>::new());
    // The event still waits.
    let mut small: u64 = 0;
    assert_eq!(stack.number(&mut gui, SITE, &mut small).finish(), Ok(()));
    assert_eq!(small, 3);
}

#[test]
fn number_from_the_client_that_does_not_fit_is_reported() {
    let (mut gui, stack) = tick(vec![
        (SITE, EventKind::NumberChanged(8)),
        (SITE, EventKind::NumberChanged(-1)),
    ]);
    let mut count: usize = 5;
    let result = stack.number(&mut gui, SITE, &mut count).finish();
    assert_eq!(result, Err(ConvertError::CouldNotConvertBrowserValue));
    assert_eq!(count, 5);
    assert_eq!(gui.get(SITE), None);
    // The events were consumed.
    assert_eq!(stack.number(&mut gui, SITE, &mut count).finish(), Ok(()));
    assert_eq!(count, 5);
    assert_eq!(
        gui.get(SITE),
        Some(Element::Number { text: None, min: None, max: None, step: None, value: 5 })
    );
}

#[test]
fn only_the_last_number_is_converted() {
    let (mut gui, stack) = tick(vec![
        (SITE, EventKind::NumberChanged(-1)),
        (SITE, EventKind::NumberChanged(8)),
    ]);
    let mut count: u32 = 5;
    assert_eq!(stack.number(&mut gui, SITE, &mut count).finish(), Ok(()));
    assert_eq!(count, 8);
}

#[test]
fn numbers_convert_where_they_are_in_range() {
    let (mut gui, stack) = tick(vec![
        (HandleHash(60), EventKind::NumberChanged(-7)),
        (HandleHash(61), EventKind::NumberChanged(-7)),
        (HandleHash(62), EventKind::NumberChanged(i32::MAX)),
        (HandleHash(63), EventKind::NumberChanged(0)),
        (HandleHash(64), EventKind::NumberChanged(-1)),
        (HandleHash(65), EventKind::NumberChanged(-1)),
    ]);
    let mut a: i32 = i32::MIN;
    assert_eq!(stack.number(&mut gui, HandleHash(60), &mut a).finish(), Ok(()));
    assert_eq!(a, -7);
    assert_eq!(
        gui.get(HandleHash(60)),
        Some(Element::Number { text: None, min: None, max: None, step: None, value: i32::MIN })
    );
    let mut b: i64 = i32::MAX as i64;
    assert_eq!(stack.number(&mut gui, HandleHash(61), &mut b).finish(), Ok(()));
    assert_eq!(b, -7);
    let mut c: u32 = i32::MAX as u32;
    assert_eq!(stack.number(&mut gui, HandleHash(62), &mut c).finish(), Ok(()));
    assert_eq!(c, i32::MAX as u32);
    let mut d: u64 = i32::MAX as u64;
    assert_eq!(stack.number(&mut gui, HandleHash(63), &mut d).finish(), Ok(()));
    assert_eq!(d, 0);
    let mut e: u32 = 1;
    assert_eq!(
        stack.number(&mut gui, HandleHash(64), &mut e).finish(),
        Err(ConvertError::CouldNotConvertBrowserValue)
    );
    let mut f: u64 = 1;
    assert_eq!(
        stack.number(&mut gui, HandleHash(65), &mut f).finish(),
        Err(ConvertError::CouldNotConvertBrowserValue)
    );
    let mut g: i64 = i32::MAX as i64 + 1;
    assert_eq!(
        stack.number(&mut gui, HandleHash(66), &mut g).finish(),
        Err(ConvertError::CouldNotConvertServerValue)
    );
    let mut h: i64 = i32::MIN as i64 - 1;
    assert_eq!(
        stack.number(&mut gui, HandleHash(66), &mut h).finish(),
        Err(ConvertError::CouldNotConvertServerValue)
    );
    let mut i: u32 = i32::MAX as u32 + 1;
    assert_eq!(
        stack.number(&mut gui, HandleHash(66), &mut i).finish(),
        Err(ConvertError::CouldNotConvertServerValue)
    );
    let mut j: usize = i32::MAX as usize + 1;
    assert_eq!(
        stack.number(&mut gui, HandleHash(66), &mut j).finish(),
        Err(ConvertError::CouldNotConvertServerValue)
    );
    let mut k: i64 = i32::MIN as i64;
    assert_eq!(stack.number(&mut gui, HandleHash(67), &mut k).finish(), Ok(()));
    assert_eq!(
        gui.get(HandleHash(67)),
        Some(Element::Number { text: None, min: None, max: None, step: None, value: i32::MIN })
    );
}

#[test]
fn every_integer_type_can_be_bound() {
    let (mut gui, stack) = tick(vec![
        (HandleHash(70), EventKind::NumberChanged(-128)),
        (HandleHash(71), EventKind::NumberChanged(128)),
        (HandleHash(72), EventKind::NumberChanged(-32768)),
        (HandleHash(73), EventKind::NumberChanged(-32769)),
        (HandleHash(74), EventKind::NumberChanged(i32::MIN)),
        (HandleHash(75), EventKind::NumberChanged(i32::MIN)),
        (HandleHash(76), EventKind::NumberChanged(255)),
        (HandleHash(77), EventKind::NumberChanged(256)),
        (HandleHash(78), EventKind::NumberChanged(65535)),
        (HandleHash(79), EventKind::NumberChanged(65536)),
        (HandleHash(80), EventKind::NumberChanged(i32::MAX)),
        (HandleHash(81), EventKind::NumberChanged(-1)),
        (HandleHash(82), EventKind::NumberChanged(-1)),
        (HandleHash(83), EventKind::NumberChanged(-1)),
    ]);
    let shown = |gui: &Gui, id: u32| match gui.get(HandleHash(id)) {
        Some(Element::Number { value, .. }) => Some(value),
        _ => None,
    };
    let browser = Err(ConvertError::CouldNotConvertBrowserValue);
    let server = Err(ConvertError::CouldNotConvertServerValue);

    let mut a: i8 = 127;
    assert_eq!(stack.number(&mut gui, HandleHash(70), &mut a).finish(), Ok(()));
    assert_eq!((a, shown(&gui, 70)), (-128, Some(127)));
    let mut a: i8 = -128;
    assert_eq!(stack.number(&mut gui, HandleHash(71), &mut a).finish(), browser);
    assert_eq!(a, -128);

    let mut b: i16 = i16::MAX;
    assert_eq!(stack.number(&mut gui, HandleHash(72), &mut b).finish(), Ok(()));
    assert_eq!((b, shown(&gui, 72)), (i16::MIN, Some(32767)));
    let mut b: i16 = i16::MIN;
    assert_eq!(stack.number(&mut gui, HandleHash(73), &mut b).finish(), browser);
    assert_eq!((b, shown(&gui, 73)), (i16::MIN, None));

    let mut c: i128 = i32::MAX as i128;
    assert_eq!(stack.number(&mut gui, HandleHash(74), &mut c).finish(), Ok(()));
    assert_eq!((c, shown(&gui, 74)), (i32::MIN as i128, Some(i32::MAX)));
    let mut c: i128 = i32::MAX as i128 + 1;
    assert_eq!(stack.number(&mut gui, HandleHash(90), &mut c).finish(), server);
    let mut c: i128 = i32::MIN as i128 - 1;
    assert_eq!(stack.number(&mut gui, HandleHash(90), &mut c).finish(), server);

    let mut d: isize = i32::MIN as isize;
    assert_eq!(stack.number(&mut gui, HandleHash(75), &mut d).finish(), Ok(()));
    assert_eq!((d, shown(&gui, 75)), (i32::MIN as isize, Some(i32::MIN)));
    if isize::BITS == 64 {
        let mut d: isize = i32::MAX as isize + 1;
        assert_eq!(stack.number(&mut gui, HandleHash(90), &mut d).finish(), server);
        let mut d: isize = isize::MIN;
        assert_eq!(stack.number(&mut gui, HandleHash(90), &mut d).finish(), server);
    }

    let mut e: u8 = 0;
    assert_eq!(stack.number(&mut gui, HandleHash(76), &mut e).finish(), Ok(()));
    assert_eq!((e, shown(&gui, 76)), (255, Some(0)));
    let mut e: u8 = 255;
    assert_eq!(stack.number(&mut gui, HandleHash(77), &mut e).finish(), browser);
    assert_eq!(e, 255);
    let mut e: u8 = 255;
    assert_eq!(stack.number(&mut gui, HandleHash(81), &mut e).finish(), browser);

    let mut f: u16 = u16::MAX;
    assert_eq!(stack.number(&mut gui, HandleHash(78), &mut f).finish(), Ok(()));
    assert_eq!((f, shown(&gui, 78)), (65535, Some(65535)));
    let mut f: u16 = 1;
    assert_eq!(stack.number(&mut gui, HandleHash(79), &mut f).finish(), browser);
    let mut f: u16 = 1;
    assert_eq!(stack.number(&mut gui, HandleHash(82), &mut f).finish(), browser);

    let mut g: u128 = 0;
    assert_eq!(stack.number(&mut gui, HandleHash(80), &mut g).finish(), Ok(()));
    assert_eq!((g, shown(&gui, 80)), (i32::MAX as u128, Some(0)));
    let mut g: u128 = 7;
    assert_eq!(stack.number(&mut gui, HandleHash(83), &mut g).finish(), browser);
    let mut g: u128 = i32::MAX as u128 + 1;
    assert_eq!(stack.number(&mut gui, HandleHash(90), &mut g).finish(), server);
    let mut g: u128 = u128::MAX;
    assert_eq!(stack.number(&mut gui, HandleHash(90), &mut g).finish(), server);
}

#[test]
fn events_of_another_kind_can_be_seen_before_they_are_passed_over() {
    let (mut gui, stack) = tick(vec![
        (SITE, EventKind::ButtonPressed),
        (SITE, EventKind::CheckboxChecked(true)),
        (SITE, EventKind::NumberChanged(4)),
        (SITE, EventKind::TextboxChanged("t".to_string())),
        (SITE, EventKind::NumberChanged(5)),
        (HandleHash(51), EventKind::CheckboxChecked(false)),
    ]);
    assert_eq!(gui.waiting(SITE).len(), 5);
    assert_eq!(gui.waiting(HandleHash(51)), vec![EventKind::CheckboxChecked(false)]);
    assert!(gui.waiting(HandleHash(52)).is_empty());

    let mut flag = false;
    let checkbox = stack.checkbox(&mut gui, SITE, &mut flag);
    assert_eq!(
        checkbox.unexpected(),
        vec![
            EventKind::ButtonPressed,
            EventKind::NumberChanged(4),
            EventKind::TextboxChanged("t".to_string()),
            EventKind::NumberChanged(5),
        ]
    );
    // Looking takes nothing.
    assert_eq!(checkbox.unexpected().len(), 4);

    let mut text = String::new();
    let text_box = stack.text_box(&mut gui, SITE, &mut text);
    assert_eq!(
        text_box.unexpected(),
        vec![
            EventKind::ButtonPressed,
            EventKind::CheckboxChecked(true),
            EventKind::NumberChanged(4),
            EventKind::NumberChanged(5),
        ]
    );

    let mut count: usize = 0;
    let number = stack.number(&mut gui, SITE, &mut count);
    assert_eq!(
        number.unexpected(),
        vec![
            EventKind::ButtonPressed,
            EventKind::CheckboxChecked(true),
            EventKind::TextboxChanged("t".to_string()),
        ]
    );
    assert_eq!(number.finish(), Ok(()));
    assert_eq!(count, 5);
    assert!(gui.waiting(SITE).is_empty());

    let mut other = true;
    let checkbox = stack.checkbox(&mut gui, HandleHash(51), &mut other);
    assert!(checkbox.unexpected().is_empty());
    checkbox.finish();
    assert!(!other);
}

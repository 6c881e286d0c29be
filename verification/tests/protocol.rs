use rustsimplegui::protocol::{decode_line, event_id, DecodedEvent};
use rustsimplegui::wish::{mainloop, start_wish, Phase, Wish};

fn padded(line: &str) -> Vec<u8> {
    let mut buffer = vec![32u8; 10000];
    buffer[..line.len()].copy_from_slice(line.as_bytes());
    buffer
}

#[test]
fn decodes_a_click() {
    match decode_line("clicked .r3\n") {
        DecodedEvent::WidgetClicked(id) => assert_eq!(".r3", id),
        other => panic!("{:?}", other),
    }
}

#[test]
fn decodes_a_click_with_any_separator() {
    match decode_line("clicked-.r12\n   ") {
        DecodedEvent::WidgetClicked(id) => assert_eq!(".r12", id),
        other => panic!("{:?}", other),
    }
}

#[test]
fn decodes_a_state_that_is_on() {
    match decode_line("cb1b-.r5-1") {
        DecodedEvent::BooleanChanged(id, on) => {
            assert_eq!(".r5", id);
            assert!(on);
        }
        other => panic!("{:?}", other),
    }
}

#[test]
fn decodes_a_state_that_is_off() {
    match decode_line("cb1b-.r5-0") {
        DecodedEvent::BooleanChanged(id, on) => {
            assert_eq!(".r5", id);
            assert!(!on);
        }
        other => panic!("{:?}", other),
    }
}

#[test]
fn decodes_any_other_state_as_off() {
    match decode_line("cb1b- .r5 - yes \n") {
        DecodedEvent::BooleanChanged(id, on) => {
            assert_eq!(".r5", id);
            assert!(!on);
        }
        other => panic!("{:?}", other),
    }
}

#[test]
fn decodes_a_padded_state() {
    match decode_line("cb1b-.r5-1\n        ") {
        DecodedEvent::BooleanChanged(id, on) => {
            assert_eq!(".r5", id);
            assert!(on);
        }
        other => panic!("{:?}", other),
    }
}

#[test]
fn decodes_a_value() {
    match decode_line("cb1f-.r7-0.25\n") {
        DecodedEvent::NumericChanged(id, value) => {
            assert_eq!(".r7", id);
            assert_eq!("0.25", value);
        }
        other => panic!("{:?}", other),
    }
}

#[test]
fn decodes_a_value_below_zero() {
    match decode_line("cb1f-.r7--3\n") {
        DecodedEvent::NumericChanged(id, value) => {
            assert_eq!(".r7", id);
            assert_eq!("-3", value);
        }
        other => panic!("{:?}", other),
    }
}

#[test]
fn decodes_a_value_line_without_a_value() {
    match decode_line("cb1-.r7") {
        DecodedEvent::NumericChanged(id, value) => {
            assert_eq!(".r7", id);
            assert_eq!("", value);
        }
        other => panic!("{:?}", other),
    }
}

#[test]
fn decodes_exit() {
    assert!(matches!(decode_line("exit"), DecodedEvent::Exit));
    assert!(matches!(decode_line("exit\n"), DecodedEvent::Exit));
}

#[test]
fn decodes_garbage_as_unrecognized() {
    assert!(matches!(decode_line("garbage"), DecodedEvent::Unrecognized));
    assert!(matches!(decode_line(""), DecodedEvent::Unrecognized));
    assert!(matches!(decode_line("font {Helvetica 12}"), DecodedEvent::Unrecognized));
}

#[test]
fn decodes_a_click_without_line_feed_as_unrecognized() {
    assert!(matches!(decode_line("clicked .r3"), DecodedEvent::Unrecognized));
}

#[test]
fn decodes_a_click_without_identifier_as_unrecognized() {
    assert!(matches!(decode_line("clicked\n"), DecodedEvent::Unrecognized));
}

#[test]
fn decodes_an_empty_identifier_after_the_prefix() {
    match decode_line("clicked-\n") {
        DecodedEvent::WidgetClicked(id) => assert_eq!("", id),
        other => panic!("{:?}", other),
    }
}

#[test]
fn decodes_a_state_line_that_lacks_a_part_as_unrecognized() {
    assert!(matches!(decode_line("cb1b"), DecodedEvent::Unrecognized));
    assert!(matches!(decode_line("cb1b-.r5"), DecodedEvent::Unrecognized));
    assert!(matches!(decode_line("cb1"), DecodedEvent::Unrecognized));
}

#[test]
fn event_id_of_each_event() {
    assert_eq!(Some(".r3".to_string()), event_id(DecodedEvent::WidgetClicked(".r3".to_string())));
    assert_eq!(
        Some(".r5-cbsep-true".to_string()),
        event_id(DecodedEvent::BooleanChanged(".r5".to_string(), true))
    );
    assert_eq!(
        Some(".r5-cbsep-false".to_string()),
        event_id(DecodedEvent::BooleanChanged(".r5".to_string(), false))
    );
    assert_eq!(
        Some(".r7".to_string()),
        event_id(DecodedEvent::NumericChanged(".r7".to_string(), "0.5".to_string()))
    );
    assert_eq!(Some("Quit".to_string()), event_id(DecodedEvent::Exit));
    assert_eq!(None, event_id(DecodedEvent::FontChosen("Helvetica".to_string())));
    assert_eq!(None, event_id(DecodedEvent::Unrecognized));
}

#[test]
fn mainloop_yields_the_widget_of_a_click() {
    let mut wish = Wish::new();
    start_wish(&mut wish, true).unwrap();
    let buffer = padded("clicked-.r3\n");
    assert_eq!(Some(".r3".to_string()), mainloop(&mut wish, Some(&buffer)));
    assert_eq!(Phase::Running, wish.phase());
}

#[test]
fn mainloop_yields_the_composite_of_a_state() {
    let mut wish = Wish::new();
    start_wish(&mut wish, true).unwrap();
    assert_eq!(
        Some(".r5-cbsep-true".to_string()),
        mainloop(&mut wish, Some(&padded("cb1b-.r5-1\n")))
    );
    assert_eq!(
        Some(".r5-cbsep-false".to_string()),
        mainloop(&mut wish, Some(&padded("cb1b-.r5-0\n")))
    );
}

#[test]
fn mainloop_yields_the_widget_of_a_value() {
    let mut wish = Wish::new();
    start_wish(&mut wish, true).unwrap();
    assert_eq!(Some(".r7".to_string()), mainloop(&mut wish, Some(&padded("cb1f-.r7-42.0\n"))));
}

#[test]
fn mainloop_yields_nothing_for_a_failed_read() {
    let mut wish = Wish::new();
    start_wish(&mut wish, true).unwrap();
    assert_eq!(None, mainloop(&mut wish, None));
    assert_eq!(Phase::Running, wish.phase());
}

#[test]
fn mainloop_yields_nothing_for_what_it_does_not_know() {
    let mut wish = Wish::new();
    start_wish(&mut wish, true).unwrap();
    assert_eq!(None, mainloop(&mut wish, Some(&padded("garbage\n"))));
    assert_eq!(None, mainloop(&mut wish, Some(&padded(""))));
}

#[test]
fn mainloop_yields_nothing_for_bytes_that_are_no_text() {
    let mut wish = Wish::new();
    start_wish(&mut wish, true).unwrap();
    let bytes: Vec<u8> = vec![b'e', b'x', b'i', b't', 0xff, 0xfe];
    assert_eq!(None, mainloop(&mut wish, Some(&bytes)));
    assert_eq!(Phase::Running, wish.phase());
}

#[test]
fn mainloop_reads_text_beyond_ascii() {
    let mut wish = Wish::new();
    start_wish(&mut wish, true).unwrap();
    let line = "clicked-.r\u{e9}\n";
    assert_eq!(Some(".r\u{e9}".to_string()), mainloop(&mut wish, Some(line.as_bytes())));
}

#[test]
fn mainloop_quits_and_closes_on_exit() {
    let mut wish = Wish::new();
    start_wish(&mut wish, true).unwrap();
    assert_eq!(Some("Quit".to_string()), mainloop(&mut wish, Some(&padded("exit\n"))));
    assert_eq!(Phase::Closed, wish.phase());
}

#[test]
fn mainloop_quits_on_exit_before_any_start() {
    let mut wish = Wish::new();
    assert_eq!(Some("Quit".to_string()), mainloop(&mut wish, Some(b"exit")));
    assert_eq!(Phase::Idle, wish.phase());
}

use x11::xlib::{XAnyEvent, XEvent};
use xlib_client::{Event, EventType, RawXEvent, XError};

fn raw_with_code(code: i64) -> RawXEvent {
    let mut pad = [0 as libc::c_long; 24];
    pad[0] = code;
    pad[1] = 77;
    pad[4] = 4242;
    XEvent { pad }
}

#[test]
fn key_press_code_decodes_to_key_press() {
    let e = Event::from_raw(raw_with_code(2)).unwrap();
    assert_eq!(e.typ, EventType::KeyPress);
    assert_eq!(XAnyEvent::from(e.event).type_, 2);
}

#[test]
fn unknown_code_gives_no_event() {
    assert_eq!(Event::from_raw(raw_with_code(999)).unwrap_err(), XError::UnknownEventType);
    assert_eq!(Event::from_raw(raw_with_code(1)).unwrap_err(), XError::UnknownEventType);
}

#[test]
fn decoding_twice_gives_equal_events() {
    let raw = raw_with_code(28);
    let a = Event::from_raw(raw).unwrap();
    let b = Event::from_raw(raw).unwrap();
    assert_eq!(a.typ, b.typ);
    assert_eq!(a.typ, EventType::PropertyNotify);
    let (x, y) = (XAnyEvent::from(a.event), XAnyEvent::from(b.event));
    assert_eq!((x.type_, x.serial, x.window), (y.type_, y.serial, y.window));
    assert_eq!((x.serial, x.window), (77, 4242));
    assert_eq!(format!("{:?}", a), format!("{:?}", b));
}

#[test]
fn from_code_pairs_kind_and_record() {
    let raw = raw_with_code(33);
    let e = Event::from_code(33, raw).unwrap();
    assert_eq!(e.typ, EventType::ClientMessage);
    assert_eq!(XAnyEvent::from(e.event).window, 4242);
    assert_eq!(Event::from_code(34, raw).unwrap_err(), XError::UnknownEventType);
}

use xlib_client::property::{ANY_PROPERTY_TYPE, FULL_LENGTH, WRITE_FORMAT};
use xlib_client::{PropertyReply, Window, XError};

fn reply(status: i32, format: i32, items: Vec<u64>) -> PropertyReply {
    PropertyReply { status, actual_type: 6, format, items, bytes_after: 0 }
}

#[test]
fn read_request_asks_for_the_whole_value() {
    let r = Window(0x400001).get_property_request(301);
    assert_eq!(r.window, 0x400001);
    assert_eq!(r.property, 301);
    assert_eq!(r.long_offset, 0);
    assert_eq!(r.long_length, 0xFFFF_FFFF);
    assert_eq!(r.long_length, FULL_LENGTH);
    assert!(!r.delete);
    assert_eq!(r.req_type, ANY_PROPERTY_TYPE);
}

#[test]
fn write_request_declares_width_and_count_of_the_buffer() {
    let c = Window(9).change_property_request(301, 6, 2, vec![1, 2, 3]);
    assert_eq!((c.window, c.property, c.typ, c.mode), (9, 301, 6, 2));
    assert_eq!(c.format, 32);
    assert_eq!(c.format, WRITE_FORMAT);
    assert_eq!(c.data, vec![1, 2, 3]);
    assert_eq!(c.nelements, 3);
    let empty = Window(9).change_property_request(301, 6, 0, vec![]);
    assert_eq!(empty.nelements, 0);
}

#[test]
fn written_value_reads_back() {
    let (a, t) = (301u64, 6u64);
    let c = Window(9).change_property_request(a, t, 0, vec![7]);
    let served = PropertyReply {
        status: 0,
        actual_type: c.typ,
        format: c.format,
        items: c.data.clone(),
        bytes_after: 0,
    };
    assert_eq!(served.bytes(), Some(vec![7]));
    let v = served.value().unwrap().unwrap();
    assert_eq!((v.typ, v.format, v.items), (t, 32, vec![7]));
}

#[test]
fn absent_property_reads_nothing() {
    let r = reply(0, 0, vec![]);
    assert_eq!(r.bytes(), None);
    assert!(r.value().unwrap().is_none());
}

#[test]
fn failed_read_is_an_error() {
    let r = reply(1, 32, vec![5]);
    assert_eq!(r.bytes(), None);
    assert_eq!(r.value().unwrap_err(), XError::BadProperty);
    let odd = reply(0, 12, vec![5]);
    assert_eq!(odd.bytes(), None);
    assert_eq!(odd.value().unwrap_err(), XError::BadProperty);
}

#[test]
fn elements_are_narrowed_to_bytes() {
    let r = reply(0, 32, vec![2, 300, 255, 256]);
    assert_eq!(r.bytes(), Some(vec![2, 44, 255, 0]));
    let v = r.value().unwrap().unwrap();
    assert_eq!(v.items, vec![2, 300, 255, 256]);
    assert_eq!(v.format, 32);
    assert_eq!(v.typ, 6);
    let bytes = reply(0, 8, vec![104, 105]);
    assert_eq!(bytes.bytes(), Some(vec![104, 105]));
    assert_eq!(reply(0, 16, vec![]).bytes(), Some(vec![]));
}

#[test]
fn current_desktop_value_reads_back() {
    let atom = 312u64;
    let c = Window(0x2a0).change_property_request(atom, atom, 0, vec![2]);
    assert_eq!((c.property, c.typ, c.nelements), (atom, atom, 1));
    let served = PropertyReply {
        status: 0,
        actual_type: c.typ,
        format: c.format,
        items: c.data.clone(),
        bytes_after: 0,
    };
    assert!(Some(vec![2]) == served.bytes());
}

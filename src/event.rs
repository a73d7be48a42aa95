use vstd::prelude::*;

use crate::error::XError;
use crate::kind::{classified, EventType};

verus! {

/// The raw wire event record, a fixed-size union laid out by the server. It is
/// carried through unread.
#[verifier::external_type_specification]
#[verifier::external_body]
pub struct ExXEvent(x11::xlib::XEvent);

/// The type code held in a raw record's leading field.
pub uninterp spec fn type_code_of(e: x11::xlib::XEvent) -> i32;

/// Relies on x11's `XEvent::get_type`, which reads the record's leading type
/// field and depends on nothing else.
pub assume_specification[ x11::xlib::XEvent::get_type ](e: &x11::xlib::XEvent) -> (r: i32)
    ensures
        r == type_code_of(*e),
;

/// A raw event together with the kind its type code stands for.
#[derive(Debug, Clone, Copy)]
pub struct Event {
    pub typ: EventType,
    pub event: x11::xlib::XEvent,
}

/// The outcome of decoding a raw record whose type code is `code`.
pub open spec fn decoded(code: int, raw: x11::xlib::XEvent) -> Result<Event, XError> {
    match classified(code) {
        Ok(k) => Ok(Event { typ: k, event: raw }),
        Err(e) => Err(e),
    }
}

impl Event {
    /// Pairs `raw` with the kind of `code`; a code outside the table gives no
    /// event.
    pub fn from_code(code: i32, raw: x11::xlib::XEvent) -> (r: Result<Event, XError>)
        ensures
            r == decoded(code as int, raw),
    {
        match EventType::from_i32(code) {
            Ok(k) => Ok(Event { typ: k, event: raw }),
            Err(e) => Err(e),
        }
    }

    /// Decodes a raw record by the type code it carries: the outcome is the
    /// decoding of that code with the record kept bit for bit.
    pub fn from_raw(raw: x11::xlib::XEvent) -> (r: Result<Event, XError>)
        ensures
            r == decoded(type_code_of(raw) as int, raw),
    {
        Event::from_code(raw.get_type(), raw)
    }
}

/// Every decoded event keeps its record and carries the kind whose code the
/// record gave; a code that gives no kind gives the unknown-code failure.
pub proof fn lemma_decoded_consistent(code: int, raw: x11::xlib::XEvent)
    ensures
        decoded(code, raw) matches Ok(e) ==> e.event == raw && e.typ.spec_code() == code
            && classified(code) == Ok::<EventType, XError>(e.typ),
        decoded(code, raw) is Err ==> decoded(code, raw) == Err::<Event, XError>(
            XError::UnknownEventType,
        ),
{
    crate::kind::lemma_classify_exact(code);
}

} // verus!

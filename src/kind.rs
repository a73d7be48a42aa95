use vstd::prelude::*;

use crate::error::XError;

verus! {

/// The closed set of event categories that the classifier recognizes.
#[derive(Debug, Clone, Copy, PartialEq, Eq, Structural)]
pub enum EventType {
    KeyPress,
    ButtonPress,
    ButtonRelease,
    MotionNotify,
    EnterNotify,
    LeaveNotify,
    DestroyNotify,
    UnmapNotify,
    MapRequest,
    ConfigureRequest,
    PropertyNotify,
    ClientMessage,
}

/// The kind that a wire event code stands for, if the code is one of the table.
pub open spec fn kind_of(code: int) -> Option<EventType> {
    if code == 2 {
        Some(EventType::KeyPress)
    } else if code == 4 {
        Some(EventType::ButtonPress)
    } else if code == 5 {
        Some(EventType::ButtonRelease)
    } else if code == 6 {
        Some(EventType::MotionNotify)
    } else if code == 7 {
        Some(EventType::EnterNotify)
    } else if code == 8 {
        Some(EventType::LeaveNotify)
    } else if code == 17 {
        Some(EventType::DestroyNotify)
    } else if code == 18 {
        Some(EventType::UnmapNotify)
    } else if code == 20 {
        Some(EventType::MapRequest)
    } else if code == 23 {
        Some(EventType::ConfigureRequest)
    } else if code == 28 {
        Some(EventType::PropertyNotify)
    } else if code == 33 {
        Some(EventType::ClientMessage)
    } else {
        None
    }
}

/// What classifying `code` gives: its kind, or the unknown-code failure.
pub open spec fn classified(code: int) -> Result<EventType, XError> {
    match kind_of(code) {
        Some(k) => Ok(k),
        None => Err(XError::UnknownEventType),
    }
}

impl EventType {
    /// The wire code of this kind.
    pub open spec fn spec_code(self) -> int {
        match self {
            EventType::KeyPress => 2,
            EventType::ButtonPress => 4,
            EventType::ButtonRelease => 5,
            EventType::MotionNotify => 6,
            EventType::EnterNotify => 7,
            EventType::LeaveNotify => 8,
            EventType::DestroyNotify => 17,
            EventType::UnmapNotify => 18,
            EventType::MapRequest => 20,
            EventType::ConfigureRequest => 23,
            EventType::PropertyNotify => 28,
            EventType::ClientMessage => 33,
        }
    }

    pub fn code(&self) -> (r: i32)
        ensures
            r as int == self.spec_code(),
    {
        match self {
            EventType::KeyPress => 2,
            EventType::ButtonPress => 4,
            EventType::ButtonRelease => 5,
            EventType::MotionNotify => 6,
            EventType::EnterNotify => 7,
            EventType::LeaveNotify => 8,
            EventType::DestroyNotify => 17,
            EventType::UnmapNotify => 18,
            EventType::MapRequest => 20,
            EventType::ConfigureRequest => 23,
            EventType::PropertyNotify => 28,
            EventType::ClientMessage => 33,
        }
    }

    /// Classifies a wire event code; a code outside the table is an error.
    pub fn classify(code: i64) -> (r: Result<EventType, XError>)
        ensures
            r == classified(code as int),
    {
        match code {
            2 => Ok(EventType::KeyPress),
            4 => Ok(EventType::ButtonPress),
            5 => Ok(EventType::ButtonRelease),
            6 => Ok(EventType::MotionNotify),
            7 => Ok(EventType::EnterNotify),
            8 => Ok(EventType::LeaveNotify),
            17 => Ok(EventType::DestroyNotify),
            18 => Ok(EventType::UnmapNotify),
            20 => Ok(EventType::MapRequest),
            23 => Ok(EventType::ConfigureRequest),
            28 => Ok(EventType::PropertyNotify),
            33 => Ok(EventType::ClientMessage),
            _ => Err(XError::UnknownEventType),
        }
    }

    pub fn from_u64(code: u64) -> (r: Result<EventType, XError>)
        ensures
            r == classified(code as int),
    {
        if code <= 33 {
            EventType::classify(code as i64)
        } else {
            Err(XError::UnknownEventType)
        }
    }

    pub fn from_i32(code: i32) -> (r: Result<EventType, XError>)
        ensures
            r == classified(code as int),
    {
        EventType::classify(code as i64)
    }

    pub fn from_u32(code: u32) -> (r: Result<EventType, XError>)
        ensures
            r == classified(code as int),
    {
        EventType::classify(code as i64)
    }

    pub fn from_i16(code: i16) -> (r: Result<EventType, XError>)
        ensures
            r == classified(code as int),
    {
        EventType::classify(code as i64)
    }

    pub fn from_u16(code: u16) -> (r: Result<EventType, XError>)
        ensures
            r == classified(code as int),
    {
        EventType::classify(code as i64)
    }

    pub fn from_i8(code: i8) -> (r: Result<EventType, XError>)
        ensures
            r == classified(code as int),
    {
        EventType::classify(code as i64)
    }

    pub fn from_u8(code: u8) -> (r: Result<EventType, XError>)
        ensures
            r == classified(code as int),
    {
        EventType::classify(code as i64)
    }
}

/// Every kind is recognized from its own code, and a code is recognized only as
/// the kind whose code it is.
pub proof fn lemma_classify_code(k: EventType)
    ensures
        kind_of(k.spec_code()) == Some(k),
        classified(k.spec_code()) == Ok::<EventType, XError>(k),
{
}

/// A code that is no kind's code fails to classify; a code that classifies is
/// the code of the kind it gives.
pub proof fn lemma_classify_exact(code: int)
    ensures
        (forall|k: EventType| k.spec_code() != code) ==> classified(code) == Err::<EventType, XError>(XError::UnknownEventType),
        kind_of(code) matches Some(k) ==> k.spec_code() == code,
{
    if (forall|k: EventType| k.spec_code() != code) {
        assert(EventType::KeyPress.spec_code() != code);
        assert(EventType::ButtonPress.spec_code() != code);
        assert(EventType::ButtonRelease.spec_code() != code);
        assert(EventType::MotionNotify.spec_code() != code);
        assert(EventType::EnterNotify.spec_code() != code);
        assert(EventType::LeaveNotify.spec_code() != code);
        assert(EventType::DestroyNotify.spec_code() != code);
        assert(EventType::UnmapNotify.spec_code() != code);
        assert(EventType::MapRequest.spec_code() != code);
        assert(EventType::ConfigureRequest.spec_code() != code);
        assert(EventType::PropertyNotify.spec_code() != code);
        assert(EventType::ClientMessage.spec_code() != code);
    }
}

} // verus!

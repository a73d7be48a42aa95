use vstd::prelude::*;

verus! {

/// Failures reported by the library to its immediate caller.
#[derive(Debug, Clone, Copy, PartialEq, Eq, Structural)]
pub enum XError {
    OpenDisplayError,
    BadAtom,
    BadProperty,
    UnknownEventType,
    BadKeyCode,
    BadKeyString,
}

} // verus!

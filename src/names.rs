use vstd::prelude::*;
use vstd::string::StrSliceExecFns;

use crate::error::XError;

verus! {

/// A name that the transport can carry: it holds no NUL character, which would
/// end it early on the wire.
pub open spec fn encodable(s: Seq<char>) -> bool {
    forall|i: int| 0 <= i < s.len() ==> s[i] != '\0'
}

/// Whether `s` holds no NUL character.
pub fn is_encodable(s: &str) -> (r: bool)
    ensures
        r == encodable(s@),
{
    let n = s.unicode_len();
    let mut i: usize = 0;
    while i < n
        invariant
            n == s@.len(),
            i <= n,
            forall|j: int| 0 <= j < i ==> s@[j] != '\0',
        decreases n - i,
    {
        if s.get_char(i) == '\0' {
            return false;
        }
        i = i + 1;
    }
    true
}

/// Accepts a name to be interned as an atom; one that the transport cannot
/// carry is refused.
pub fn check_atom_name(s: &str) -> (r: Result<(), XError>)
    ensures
        r is Ok <==> encodable(s@),
        r is Err ==> r == Err::<(), XError>(XError::BadAtom),
{
    if is_encodable(s) {
        Ok(())
    } else {
        Err(XError::BadAtom)
    }
}

/// Accepts a key name to be looked up as a key symbol; one that the transport
/// cannot carry is refused.
pub fn check_key_string(s: &str) -> (r: Result<(), XError>)
    ensures
        r is Ok <==> encodable(s@),
        r is Err ==> r == Err::<(), XError>(XError::BadKeyString),
{
    if is_encodable(s) {
        Ok(())
    } else {
        Err(XError::BadKeyString)
    }
}

/// The text of a fetched window attribute: present only where the fetch
/// reported success (a nonzero status) and handed back text.
pub fn fetched_text(status: i32, text: Option<String>) -> (r: Result<String, XError>)
    ensures
        status != 0 && text is Some <==> r is Ok,
        r matches Ok(t) ==> text == Some(t),
        r is Err ==> r == Err::<String, XError>(XError::BadProperty),
{
    if status == 0 {
        Err(XError::BadProperty)
    } else {
        match text {
            Some(t) => Ok(t),
            None => Err(XError::BadProperty),
        }
    }
}

/// The text of a field of a window's class hint: present only where the fetch
/// reported success, the hint's class is set, and the field handed back text.
pub fn hint_text(status: i32, class_set: bool, text: Option<String>) -> (r: Result<String, XError>)
    ensures
        status != 0 && class_set && text is Some <==> r is Ok,
        r matches Ok(t) ==> text == Some(t),
        r is Err ==> r == Err::<String, XError>(XError::BadProperty),
{
    if !class_set {
        Err(XError::BadProperty)
    } else {
        fetched_text(status, text)
    }
}

} // verus!

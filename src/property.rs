use vstd::prelude::*;

use crate::error::XError;
use crate::window::Window;

verus! {

/// The length, in 32-bit units, asked for on every read: large enough that no
/// property comes back truncated.
pub const FULL_LENGTH: i64 = 0xFFFF_FFFF;

/// The request type that accepts a property of any type.
pub const ANY_PROPERTY_TYPE: u64 = 0;

/// The element width, in bits, declared for every write.
pub const WRITE_FORMAT: i32 = 32;

/// The arguments of one property-read round trip.
#[derive(Debug, Clone, Copy, PartialEq, Eq, Structural)]
pub struct PropertyRequest {
    pub window: u64,
    pub property: u64,
    pub long_offset: i64,
    pub long_length: i64,
    pub delete: bool,
    pub req_type: u64,
}

/// What the server answered to a property read: the request's status (zero on
/// success), the value's type, its element width in bits (zero when the
/// property does not exist), its elements, and the bytes left untransferred.
#[derive(Debug)]
pub struct PropertyReply {
    pub status: i32,
    pub actual_type: u64,
    pub format: i32,
    pub items: Vec<u64>,
    pub bytes_after: u64,
}

/// A property's value: its type atom, its element width and its elements.
#[derive(Debug)]
pub struct PropertyValue {
    pub typ: u64,
    pub format: i32,
    pub items: Vec<u64>,
}

/// The arguments of one property-write request.
#[derive(Debug)]
pub struct PropertyChange {
    pub window: u64,
    pub property: u64,
    pub typ: u64,
    pub format: i32,
    pub mode: i32,
    pub data: Vec<u64>,
    pub nelements: i32,
}

/// An element width that the protocol knows.
pub open spec fn is_width(format: int) -> bool {
    format == 8 || format == 16 || format == 32
}

/// Each element narrowed to a byte.
pub open spec fn narrowed(items: Seq<u64>) -> Seq<u8> {
    items.map_values(|x: u64| x as u8)
}

impl PropertyReply {
    /// The request failed, or the server reported a width that no property has.
    pub open spec fn failed(&self) -> bool {
        self.status != 0 || (self.format != 0 && !is_width(self.format as int))
    }

    /// The request succeeded and the property does not exist.
    pub open spec fn absent(&self) -> bool {
        self.status == 0 && self.format == 0
    }

    /// Whether `v` is the value this reply carries.
    pub open spec fn carries(&self, v: PropertyValue) -> bool {
        &&& v.typ == self.actual_type
        &&& v.format == self.format
        &&& v.items@ == self.items@
    }

    /// The reply as a value: an error where the request failed, nothing where
    /// the property is absent, else its type, width and elements.
    pub fn value(&self) -> (r: Result<Option<PropertyValue>, XError>)
        ensures
            self.failed() <==> r == Err::<Option<PropertyValue>, XError>(XError::BadProperty),
            self.absent() <==> r matches Ok(None),
            r matches Ok(Some(v)) ==> self.carries(v),
            r is Ok || r == Err::<Option<PropertyValue>, XError>(XError::BadProperty),
    {
        if self.status != 0 {
            Err(XError::BadProperty)
        } else if self.format == 0 {
            Ok(None)
        } else if self.format == 8 || self.format == 16 || self.format == 32 {
            Ok(Some(PropertyValue { typ: self.actual_type, format: self.format, items: self.items.clone() }))
        } else {
            Err(XError::BadProperty)
        }
    }

    /// The reply's elements narrowed to bytes; nothing where the request failed
    /// or the property is absent.
    pub fn bytes(&self) -> (r: Option<Vec<u8>>)
        ensures
            r is None <==> (self.failed() || self.absent()),
            r matches Some(b) ==> b@ == narrowed(self.items@),
    {
        if self.status != 0 || self.format == 0 || !(self.format == 8 || self.format == 16
            || self.format == 32) {
            return None;
        }
        let mut out: Vec<u8> = Vec::new();
        let mut i: usize = 0;
        while i < self.items.len()
            invariant
                i <= self.items@.len(),
                out@ == narrowed(self.items@.subrange(0, i as int)),
            decreases self.items@.len() - i,
        {
            proof {
                assert(narrowed(self.items@.subrange(0, i as int + 1)) =~= narrowed(
                    self.items@.subrange(0, i as int),
                ).push(self.items@[i as int] as u8));
            }
            out.push(self.items[i] as u8);
            i = i + 1;
        }
        assert(self.items@.subrange(0, self.items@.len() as int) =~= self.items@);
        Some(out)
    }

    /// Whether this is the reply of a server that holds exactly what `c` wrote.
    pub open spec fn serves(&self, c: PropertyChange) -> bool {
        &&& self.status == 0
        &&& self.actual_type == c.typ
        &&& self.format == c.format
        &&& self.items@ == c.data@
    }
}

impl PropertyChange {
    /// Whether this request writes `data`, typed `typ`, into `property` of `w`
    /// with `mode`, declaring 32-bit elements and as many of them as `data` holds.
    pub open spec fn writes(
        &self,
        w: Window,
        property: u64,
        typ: u64,
        mode: i32,
        data: Seq<u64>,
    ) -> bool {
        &&& self.window == w.0
        &&& self.property == property
        &&& self.typ == typ
        &&& self.format == WRITE_FORMAT
        &&& self.mode == mode
        &&& self.data@ == data
        &&& self.nelements as int == data.len()
    }
}

impl Window {
    /// The read of `atom` on this window: from offset zero, for the whole value,
    /// of any type, without deleting it.
    pub fn get_property_request(&self, atom: u64) -> (r: PropertyRequest)
        ensures
            r == (PropertyRequest {
                window: self.0,
                property: atom,
                long_offset: 0,
                long_length: FULL_LENGTH,
                delete: false,
                req_type: ANY_PROPERTY_TYPE,
            }),
    {
        PropertyRequest {
            window: self.0,
            property: atom,
            long_offset: 0,
            long_length: FULL_LENGTH,
            delete: false,
            req_type: ANY_PROPERTY_TYPE,
        }
    }

    /// The write of `data` into `property` of this window. The mode goes to the
    /// server unchecked.
    pub fn change_property_request(&self, property: u64, typ: u64, mode: i32, data: Vec<u64>) -> (r:
        PropertyChange)
        requires
            data@.len() <= i32::MAX,
        ensures
            r.writes(*self, property, typ, mode, data@),
    {
        let n = data.len() as i32;
        PropertyChange {
            window: self.0,
            property,
            typ,
            format: WRITE_FORMAT,
            mode,
            data,
            nelements: n,
        }
    }
}

/// A value written and then read back from a server that kept it comes out as
/// the elements written, with the type and the width declared for them; as
/// bytes, it is those elements narrowed, and the same values where each fits in
/// a byte.
pub proof fn lemma_write_then_read(
    w: Window,
    property: u64,
    typ: u64,
    mode: i32,
    data: Seq<u64>,
    c: PropertyChange,
    r: PropertyReply,
)
    requires
        data.len() <= i32::MAX,
        c.writes(w, property, typ, mode, data),
        r.serves(c),
    ensures
        !r.failed(),
        !r.absent(),
        r.items@ == data,
        r.actual_type == typ,
        r.format == WRITE_FORMAT,
        narrowed(r.items@).len() == data.len(),
        forall|v: PropertyValue| #[trigger] r.carries(v) ==> v.items@ == data && v.typ == typ,
        (forall|i: int| 0 <= i < data.len() ==> data[i] < 256) ==> forall|i: int|
            0 <= i < data.len() ==> #[trigger] narrowed(r.items@)[i] as u64 == data[i],
{
    assert forall|i: int| 0 <= i < data.len() && data[i] < 256 implies #[trigger] narrowed(
        r.items@,
    )[i] as u64 == data[i] by {
        let x = data[i];
        assert(x as u8 as u64 == x) by (bit_vector)
            requires
                x < 256,
        ;
    }
}

/// Reading a property that the window does not hold gives no value and no
/// bytes, and is no failure.
pub proof fn lemma_absent_reads_nothing(r: PropertyReply)
    requires
        r.status == 0,
        r.format == 0,
    ensures
        r.absent(),
        !r.failed(),
{
}

} // verus!

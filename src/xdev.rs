//! Records of the generic trackers that the runtime reports.
use vstd::prelude::*;
use vstd::std_specs::cmp::PartialEqSpec;

verus! {

/// Size of the fixed byte buffers in a device's property snapshot.
pub const XDEV_STRING_CAPACITY: usize = 256;

/// A device's properties as the runtime reported them at enumeration time.
#[derive(Clone, Copy)]
pub struct XdevProperties {
    /// NUL-terminated display name.
    pub name: [u8; XDEV_STRING_CAPACITY],
    /// NUL-terminated serial number.
    pub serial: [u8; XDEV_STRING_CAPACITY],
    /// Whether the runtime can create a space that tracks this device.
    pub can_create_space: bool,
}

/// A byte buffer that should hold a NUL-terminated string holds none.
#[derive(Clone, Copy, Debug, PartialEq, Eq, Structural)]
pub struct MissingTerminator;

/// `s` is what a NUL-terminated string stored at the start of `buf` reads as:
/// the bytes before the first NUL, or nothing when `buf` holds no NUL.
pub open spec fn c_string_of(buf: Seq<u8>, s: Option<Seq<u8>>) -> bool {
    match s {
        Some(s) => {
            &&& s.len() < buf.len()
            &&& buf[s.len() as int] == 0
            &&& s == buf.take(s.len() as int)
            &&& forall|j: int| 0 <= j < s.len() ==> #[trigger] s[j] != 0
        },
        None => forall|j: int| 0 <= j < buf.len() ==> #[trigger] buf[j] != 0,
    }
}

pub open spec fn bytes_of<E>(r: Result<Vec<u8>, E>) -> Option<Seq<u8>> {
    match r {
        Ok(v) => Some(v@),
        Err(_) => None,
    }
}

/// Reads the NUL-terminated string at the start of `buf`, failing when the
/// buffer holds no terminator.
pub fn decode_c_string(buf: &[u8]) -> (r: Result<Vec<u8>, MissingTerminator>)
    ensures
        c_string_of(buf@, bytes_of(r)),
{
    let mut out: Vec<u8> = Vec::new();
    let mut i: usize = 0;
    while i < buf.len()
        invariant
            i <= buf@.len(),
            out@ == buf@.take(i as int),
            forall|j: int| 0 <= j < i ==> #[trigger] buf@[j] != 0,
        decreases buf@.len() - i,
    {
        if buf[i] == 0 {
            return Ok(out);
        }
        out.push(buf[i]);
        i += 1;
        assert(out@ =~= buf@.take(i as int));
    }
    Err(MissingTerminator)
}

/// The string a buffer decodes to is unique: every reader of a device's
/// identity sees the same value.
pub proof fn lemma_c_string_unique(buf: Seq<u8>, a: Option<Seq<u8>>, b: Option<Seq<u8>>)
    requires
        c_string_of(buf, a),
        c_string_of(buf, b),
    ensures
        a == b,
{
    if let (Some(x), Some(y)) = (a, b) {
        if x.len() < y.len() {
            assert(y[x.len() as int] == buf[x.len() as int]);
        } else if y.len() < x.len() {
            assert(x[y.len() as int] == buf[y.len() as int]);
        }
    } else if let Some(x) = a {
        assert(buf[x.len() as int] == 0);
    } else if let Some(y) = b {
        assert(buf[y.len() as int] == 0);
    }
}

/// One generic tracker. Its space, when present, is owned by the record and
/// released with it. Records compare by id alone.
pub struct Xdev<S> {
    pub id: u64,
    pub properties: XdevProperties,
    pub space: Option<S>,
    /// The serial number, decoded once when the record is made.
    pub serial: Result<Vec<u8>, MissingTerminator>,
}

impl<S> Xdev<S> {
    /// The record has a space exactly when the device can have one, and its
    /// serial is the one held in its property snapshot.
    pub open spec fn wf(&self) -> bool {
        &&& (self.space is Some) == self.properties.can_create_space
        &&& c_string_of(self.properties.serial@, bytes_of(self.serial))
    }

    pub fn new(id: u64, properties: XdevProperties, space: Option<S>) -> (r: Self)
        requires
            (space is Some) == properties.can_create_space,
        ensures
            r.wf(),
            r.id == id,
            r.properties == properties,
            r.space == space,
    {
        let serial = decode_c_string(properties.serial.as_slice());
        Xdev { id, properties, space, serial }
    }

    /// The device's serial number. It is derived when the record is made and
    /// never changes afterwards, so every call, from any thread, returns the
    /// same bytes.
    pub fn get_or_init_serial(&self) -> (r: Result<&[u8], MissingTerminator>)
        requires
            self.wf(),
        ensures
            c_string_of(self.properties.serial@, match r {
                Ok(s) => Some(s@),
                Err(_) => None,
            }),
    {
        match &self.serial {
            Ok(s) => Ok(s.as_slice()),
            Err(e) => Err(*e),
        }
    }
}

impl<S> PartialEq for Xdev<S> {
    fn eq(&self, other: &Self) -> (r: bool) {
        self.id == other.id
    }
}

impl<S> vstd::std_specs::cmp::PartialEqSpecImpl for Xdev<S> {
    open spec fn obeys_eq_spec() -> bool {
        true
    }

    open spec fn eq_spec(&self, other: &Self) -> bool {
        self.id == other.id
    }
}

/// Two records are equal exactly when their ids are, whatever their
/// snapshots, spaces or serials hold.
pub proof fn lemma_xdev_eq_is_id_eq<S>(a: &Xdev<S>, b: &Xdev<S>)
    ensures
        a.eq_spec(b) <==> a.id == b.id,
{
}

} // verus!

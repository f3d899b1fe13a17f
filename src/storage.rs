//! The persisted configuration record: magic bytes, saved positions and calibration,
//! loaded lazily and written back whole.

use vstd::prelude::*;

use crate::calibration::{insert_outcome, sorted_keys, Calibration, CalibrationError};
use crate::millimeters::Millimeters;
use crate::points::{buffer_points, Point, PointBuffer};

verus! {

/// postcard's error type, carried through opaque.
#[verifier::external_type_specification]
#[verifier::external_body]
pub struct ExPostcardError(postcard::Error);

/// A record as it is encoded: magic bytes, the two saved positions in mm, and the
/// calibration points.
pub type RecordParts = ([u8; 4], Option<u16>, Option<u16>, PointBuffer);

/// The view of a record's parts.
pub type RecordView = (Seq<u8>, Option<u16>, Option<u16>, Seq<Point>);

/// The bytes that postcard writes for a record.
pub uninterp spec fn postcard_encoding(magic: Seq<u8>, position_1: Option<u16>, position_2: Option<u16>, points: Seq<Point>) -> Seq<u8>;

/// The record that postcard reads from the start of `bytes`, if it reads one.
pub uninterp spec fn postcard_decoding(bytes: Seq<u8>) -> Option<RecordView>;

/// Relies on postcard::to_allocvec: the bytes are postcard's encoding of the tuple
/// (magic, position 1, position 2, points), which postcard's `from_bytes` reads
/// back as the same tuple. Encoding into a growable vector cannot fail here:
/// the vector flavor never refuses bytes, and heapless gives its length up front.
#[verifier::external_body]
fn encode_record(magic: &[u8; 4], position_1: Option<u16>, position_2: Option<u16>, points: &PointBuffer) -> (r: Result<Vec<u8>, postcard::Error>)
    ensures
        r is Ok,
        r matches Ok(b) ==> b@ == postcard_encoding(magic@, position_1, position_2, buffer_points(*points)),
        r matches Ok(b) ==> postcard_decoding(b@) == Some((magic@, position_1, position_2, buffer_points(*points))),
{
    postcard::to_allocvec(&(magic, position_1, position_2, points))
}

/// Relies on postcard::from_bytes: the record decoded from the start of `bytes`,
/// trailing bytes ignored.
#[verifier::external_body]
fn decode_record(bytes: &[u8]) -> (r: Result<RecordParts, postcard::Error>)
    ensures
        r matches Ok(p) ==> postcard_decoding(bytes@) == Some((p.0@, p.1, p.2, buffer_points(p.3))),
        r is Err ==> postcard_decoding(bytes@) is None,
{
    postcard::from_bytes::<RecordParts>(bytes)
}

/// The marker that starts every valid record.
pub open spec fn magic_spec() -> Seq<u8> {
    seq![123u8, 52u8, 61u8, 53u8]
}

pub fn magic_bytes() -> (r: [u8; 4])
    ensures
        r@ == magic_spec(),
{
    let r: [u8; 4] = [123, 52, 61, 53];
    assert(r@ =~= magic_spec());
    r
}

fn same_bytes(a: &[u8; 4], b: &[u8; 4]) -> (r: bool)
    ensures
        r == (a@ == b@),
{
    let mut i: usize = 0;
    while i < 4
        invariant
            i <= 4,
            forall|j: int| 0 <= j < i ==> a@[j] == b@[j],
        decreases 4 - i,
    {
        if a[i] != b[i] {
            return false;
        }
        i += 1;
    }
    assert(a@ =~= b@);
    true
}

pub open spec fn opt_mm(p: Option<Millimeters>) -> Option<u16> {
    match p {
        Some(m) => Some(m.0),
        None => None,
    }
}

fn opt_mm_exec(p: Option<Millimeters>) -> (r: Option<u16>)
    ensures
        r == opt_mm(p),
{
    match p {
        Some(m) => Some(m.0),
        None => None,
    }
}

fn opt_from_mm(p: Option<u16>) -> (r: Option<Millimeters>)
    ensures
        opt_mm(r) == p,
{
    match p {
        Some(v) => Some(Millimeters(v)),
        None => None,
    }
}

/// `(position 1, position 2, calibration points)` of a configuration.
pub type ConfigView = (Option<u16>, Option<u16>, Seq<Point>);

/// The persisted configuration: two saved positions and the calibration table.
pub struct InnerData {
    pub position_1: Option<Millimeters>,
    pub position_2: Option<Millimeters>,
    pub calibration: Calibration,
}

impl View for InnerData {
    type V = ConfigView;

    open spec fn view(&self) -> ConfigView {
        (opt_mm(self.position_1), opt_mm(self.position_2), self.calibration@)
    }
}

pub open spec fn default_config() -> ConfigView {
    (None, None, Seq::empty())
}

impl InnerData {
    pub open spec fn wf(&self) -> bool {
        self.calibration.wf()
    }

    /// No saved positions, no calibration.
    pub fn const_default() -> (r: Self)
        ensures
            r@ == default_config(),
            r.wf(),
    {
        Self { position_1: None, position_2: None, calibration: Calibration::new() }
    }
}

impl Clone for InnerData {
    fn clone(&self) -> (r: Self)
        ensures
            r@ == self@,
    {
        InnerData {
            position_1: self.position_1,
            position_2: self.position_2,
            calibration: self.calibration.clone(),
        }
    }
}

/// A change to the configuration.
#[derive(Debug, Clone, Copy, PartialEq, Eq, Structural)]
pub enum ConfigChange {
    SetPosition1(Millimeters),
    SetPosition2(Millimeters),
    InsertPoint(u16, Millimeters),
    ClearCalibration,
    RemovePoint(usize),
}

/// A change applies when a point it removes exists.
pub open spec fn change_ok(v: ConfigView, c: ConfigChange) -> bool {
    match c {
        ConfigChange::RemovePoint(i) => i < v.2.len(),
        _ => true,
    }
}

/// An insertion into a full table without a point of that reading is refused.
pub open spec fn change_refused(v: ConfigView, c: ConfigChange) -> bool {
    match c {
        ConfigChange::InsertPoint(adc, h) => insert_outcome(v.2, (adc, h.0)) is None,
        _ => false,
    }
}

/// The configuration after a change; an insertion into a full table leaves it as
/// it was.
pub open spec fn apply_spec(v: ConfigView, c: ConfigChange) -> ConfigView {
    match c {
        ConfigChange::SetPosition1(h) => (Some(h.0), v.1, v.2),
        ConfigChange::SetPosition2(h) => (v.0, Some(h.0), v.2),
        ConfigChange::InsertPoint(adc, h) => match insert_outcome(v.2, (adc, h.0)) {
            Some(t) => (v.0, v.1, t),
            None => v,
        },
        ConfigChange::ClearCalibration => (v.0, v.1, Seq::empty()),
        ConfigChange::RemovePoint(i) => (v.0, v.1, v.2.remove(i as int)),
    }
}

/// The configuration that a decoded record gives: its content when the magic
/// bytes match and the points are sorted, none otherwise.
pub open spec fn record_config(r: RecordView) -> Option<ConfigView> {
    if r.0 == magic_spec() && sorted_keys(r.3) {
        Some((r.1, r.2, r.3))
    } else {
        None
    }
}

/// The configuration that stored bytes give, if any.
pub open spec fn stored_config(bytes: Seq<u8>) -> Option<ConfigView> {
    match postcard_decoding(bytes) {
        Some(r) => record_config(r),
        None => None,
    }
}

/// The configuration record: magic bytes and content, loaded lazily from storage.
/// The magic field doubles as the "loaded" flag of the copy in memory.
pub struct StorageData {
    magic_identifier: [u8; 4],
    inner: InnerData,
}

impl View for StorageData {
    type V = (Seq<u8>, ConfigView);

    closed spec fn view(&self) -> (Seq<u8>, ConfigView) {
        (self.magic_identifier@, self.inner@)
    }
}

impl StorageData {
    pub closed spec fn wf(&self) -> bool {
        self.inner.wf()
    }

    pub open spec fn initialized(&self) -> bool {
        self@.0 == magic_spec()
    }

    /// Not loaded yet: zero magic, default content.
    pub fn const_default() -> (r: Self)
        ensures
            r@ == (seq![0u8, 0u8, 0u8, 0u8], default_config()),
            !r.initialized(),
            r.wf(),
    {
        let z: [u8; 4] = [0, 0, 0, 0];
        let r = Self { magic_identifier: z, inner: InnerData::const_default() };
        assert(z@ =~= seq![0u8, 0u8, 0u8, 0u8]);
        assert(z@ != magic_spec()) by {
            assert(z@[0] != magic_spec()[0]);
        }
        r
    }

    /// Whether the content has been loaded (or defaulted) already.
    pub fn is_initialized(&self) -> (r: bool)
        ensures
            r == self.initialized(),
    {
        same_bytes(&self.magic_identifier, &magic_bytes())
    }

    /// The current configuration.
    pub fn get(&self) -> (r: &InnerData)
        requires
            self.wf(),
        ensures
            r@ == self@.1,
            r.wf(),
    {
        &self.inner
    }

    /// A record from decoded parts: kept when its magic bytes match and its points
    /// are sorted by reading.
    pub fn from_record(parts: RecordParts) -> (r: Option<Self>)
        ensures
            r is Some <==> record_config((parts.0@, parts.1, parts.2, buffer_points(parts.3))) is Some,
            r matches Some(d) ==> d.wf() && d.initialized() && Some(d@.1) == record_config(
                (parts.0@, parts.1, parts.2, buffer_points(parts.3)),
            ),
    {
        let (magic, position_1, position_2, points) = parts;
        if !same_bytes(&magic, &magic_bytes()) {
            return None;
        }
        match Calibration::from_buffer(points) {
            Some(calibration) => Some(
                Self {
                    magic_identifier: magic,
                    inner: InnerData {
                        position_1: opt_from_mm(position_1),
                        position_2: opt_from_mm(position_2),
                        calibration,
                    },
                },
            ),
            None => None,
        }
    }

    /// The record stored in `bytes`, if they hold a valid one.
    pub fn load(bytes: &[u8]) -> (r: Option<Self>)
        ensures
            r is Some <==> stored_config(bytes@) is Some,
            r matches Some(d) ==> d.wf() && d.initialized() && Some(d@.1) == stored_config(bytes@),
    {
        match decode_record(bytes) {
            Ok(parts) => Self::from_record(parts),
            Err(_) => None,
        }
    }

    /// Loads the configuration from the stored bytes on first use: a record that
    /// does not decode, or whose magic bytes differ, gives the default
    /// configuration. Once loaded, it stays as it is.
    pub fn init_inner(&mut self, stored: &[u8])
        requires
            old(self).wf(),
        ensures
            final(self).wf(),
            final(self).initialized(),
            old(self).initialized() ==> final(self)@ == old(self)@,
            !old(self).initialized() ==> final(self)@.1 == match stored_config(stored@) {
                Some(c) => c,
                None => default_config(),
            },
    {
        if self.is_initialized() {
            return;
        }
        *self = match Self::load(stored) {
            Some(d) => d,
            None => Self::const_default(),
        };
        self.magic_identifier = magic_bytes();
    }

    /// The bytes to write for this record. Stored bytes read back as the same
    /// configuration: loading them gives exactly what was stored.
    pub fn store(&self) -> (r: Option<Vec<u8>>)
        ensures
            r is Some,
            self.wf() && self.initialized() ==> stored_config(r->Some_0@) == Some(self@.1),
            r matches Some(b) ==> b@ == postcard_encoding(
                self@.0,
                self@.1.0,
                self@.1.1,
                self@.1.2,
            ),
    {
        match encode_record(
            &self.magic_identifier,
            opt_mm_exec(self.inner.position_1),
            opt_mm_exec(self.inner.position_2),
            self.inner.calibration.buffer(),
        ) {
            Ok(bytes) => Some(bytes),
            Err(_) => None,
        }
    }

    /// Applies a change to the loaded configuration and returns the outcome of
    /// the change and the bytes of the whole record to write back.
    pub fn update(&mut self, change: ConfigChange) -> (r: (Result<(), CalibrationError>, Option<Vec<u8>>))
        requires
            old(self).wf(),
            old(self).initialized(),
            change_ok(old(self)@.1, change),
        ensures
            final(self).wf(),
            final(self).initialized(),
            final(self)@.1 == apply_spec(old(self)@.1, change),
            r.0 is Err <==> change_refused(old(self)@.1, change),
            r.1 is Some,
            stored_config(r.1->Some_0@) == Some(final(self)@.1),
            r.1 matches Some(b) ==> b@ == postcard_encoding(
                final(self)@.0,
                final(self)@.1.0,
                final(self)@.1.1,
                final(self)@.1.2,
            ),
    {
        let result = match change {
            ConfigChange::SetPosition1(h) => {
                self.inner.position_1 = Some(h);
                Ok(())
            },
            ConfigChange::SetPosition2(h) => {
                self.inner.position_2 = Some(h);
                Ok(())
            },
            ConfigChange::InsertPoint(adc, h) => self.inner.calibration.insert(adc, h),
            ConfigChange::ClearCalibration => {
                self.inner.calibration.clear();
                Ok(())
            },
            ConfigChange::RemovePoint(i) => {
                self.inner.calibration.remove(i);
                Ok(())
            },
        };
        let bytes = self.store();
        (result, bytes)
    }
}

} // verus!

//! Piecewise-linear mapping of raw sensor readings to lengths over a sorted, bounded
//! table of calibration points.

use vstd::prelude::*;

use crate::millimeters::{abs_diff, saturating_add_spec, saturating_sub_spec, Millimeters};
use crate::points::{
    buffer_clear, buffer_clone, buffer_insert, buffer_new, buffer_points, buffer_remove,
    buffer_set, buffer_slice, Point, PointBuffer, CAPACITY,
};

verus! {

/// Keys (raw readings) strictly ascend, hence are unique.
pub open spec fn sorted_keys(s: Seq<Point>) -> bool {
    forall|i: int, j: int| 0 <= i < j < s.len() ==> s[i].0 < s[j].0
}

/// A well-formed table: sorted by reading, no repeated reading, within capacity.
pub open spec fn valid_points(s: Seq<Point>) -> bool {
    sorted_keys(s) && s.len() <= CAPACITY
}

/// Number of leading points whose reading lies below `x`; for a sorted table this
/// is the position where a point for `x` stands or would be inserted.
pub open spec fn lower_bound(s: Seq<Point>, x: u16) -> int
    decreases s.len(),
{
    if s.len() == 0 {
        0
    } else if s[0].0 >= x {
        0
    } else {
        1 + lower_bound(s.subrange(1, s.len() as int), x)
    }
}

/// Whether the table holds a point for reading `x`.
pub open spec fn has_key(s: Seq<Point>, x: u16) -> bool {
    exists|i: int| 0 <= i < s.len() && s[i].0 == x
}

/// The table with `p` put in place: it replaces the point of the same reading, or
/// goes in at its sorted position.
pub open spec fn inserted(s: Seq<Point>, p: Point) -> Seq<Point> {
    let k = lower_bound(s, p.0);
    if k < s.len() && s[k].0 == p.0 {
        s.update(k, p)
    } else {
        s.insert(k, p)
    }
}

/// What an insertion leaves: `None` when the table is full and has no point of that
/// reading, else the new table.
pub open spec fn insert_outcome(s: Seq<Point>, p: Point) -> Option<Seq<Point>> {
    if !has_key(s, p.0) && s.len() >= CAPACITY {
        None
    } else {
        Some(inserted(s, p))
    }
}

pub open spec fn min_int(a: int, b: int) -> int {
    if a < b {
        a
    } else {
        b
    }
}

/// Length for reading `x` on the line through `left` and `right`: the offset from
/// `left` is `|dlength| * |x - left.reading| / |dreading|`, truncated and capped at
/// the largest `u16`; it is subtracted left of `left` and added otherwise, both
/// saturating.
pub open spec fn interpolate(left: Point, right: Point, x: u16) -> int {
    let dh = abs_diff(right.1 as int, left.1 as int);
    let dr = abs_diff(right.0 as int, left.0 as int);
    let d = abs_diff(x as int, left.0 as int);
    let offset = if dr == 0 {
        0
    } else {
        min_int(dh * d / dr, u16::MAX as int)
    };
    if x < left.0 {
        saturating_sub_spec(left.1 as int, offset)
    } else {
        saturating_add_spec(left.1 as int, offset)
    }
}

/// The length that a table gives for reading `x`: zero for an empty table, the
/// stored length on an exact match, the single length of a one-point table, else
/// the line through the two points around `x` (the two first below the table, the
/// two last above it).
pub open spec fn transform_spec(s: Seq<Point>, x: u16) -> int {
    let k = lower_bound(s, x);
    let n = s.len() as int;
    if n == 0 {
        0
    } else if k < n && s[k].0 == x {
        s[k].1 as int
    } else if n == 1 {
        s[0].1 as int
    } else if k == 0 {
        interpolate(s[0], s[1], x)
    } else if k == n {
        interpolate(s[n - 2], s[n - 1], x)
    } else {
        interpolate(s[k - 1], s[k], x)
    }
}

/// A partition point found by other means is `lower_bound`.
pub proof fn lemma_lower_bound_at(s: Seq<Point>, x: u16, i: int)
    requires
        0 <= i <= s.len(),
        forall|j: int| 0 <= j < i ==> s[j].0 < x,
        forall|j: int| i <= j < s.len() ==> s[j].0 >= x,
    ensures
        lower_bound(s, x) == i,
    decreases i,
{
    if i > 0 {
        let t = s.subrange(1, s.len() as int);
        assert forall|j: int| 0 <= j < i - 1 implies t[j].0 < x by {
            assert(t[j] == s[j + 1]);
        }
        assert forall|j: int| i - 1 <= j < t.len() implies t[j].0 >= x by {
            assert(t[j] == s[j + 1]);
        }
        lemma_lower_bound_at(t, x, i - 1);
    }
}

/// In a sorted table, `lower_bound` splits the readings below `x` from the others.
pub proof fn lemma_lower_bound_splits(s: Seq<Point>, x: u16)
    requires
        sorted_keys(s),
    ensures
        0 <= lower_bound(s, x) <= s.len(),
        forall|j: int| 0 <= j < lower_bound(s, x) ==> s[j].0 < x,
        forall|j: int| lower_bound(s, x) <= j < s.len() ==> s[j].0 >= x,
    decreases s.len(),
{
    if s.len() > 0 && s[0].0 < x {
        let t = s.subrange(1, s.len() as int);
        lemma_lower_bound_splits(t, x);
        assert forall|j: int| 0 <= j < lower_bound(s, x) implies s[j].0 < x by {
            if j > 0 {
                assert(s[j] == t[j - 1]);
            }
        }
        assert forall|j: int| lower_bound(s, x) <= j < s.len() implies s[j].0 >= x by {
            assert(s[j] == t[j - 1]);
        }
    }
}

/// Binary search by reading: `Ok(i)` where point `i` has reading `x`, else `Err(i)`
/// with `i` the position where such a point would go.
pub fn search(points: &[Point], x: u16) -> (r: Result<usize, usize>)
    requires
        sorted_keys(points@),
    ensures
        match r {
            Ok(i) => i < points@.len() && points@[i as int].0 == x && i == lower_bound(points@, x),
            Err(i) => i <= points@.len() && i == lower_bound(points@, x) && !has_key(points@, x),
        },
{
    let mut lo: usize = 0;
    let mut hi: usize = points.len();
    while lo < hi
        invariant
            lo <= hi <= points@.len(),
            sorted_keys(points@),
            forall|j: int| 0 <= j < lo ==> points@[j].0 < x,
            forall|j: int| hi <= j < points@.len() ==> points@[j].0 > x,
        decreases hi - lo,
    {
        let mid = lo + (hi - lo) / 2;
        let key = points[mid].0;
        if key == x {
            proof {
                lemma_lower_bound_at(points@, x, mid as int);
            }
            return Ok(mid);
        } else if key < x {
            lo = mid + 1;
        } else {
            hi = mid;
        }
    }
    proof {
        lemma_lower_bound_at(points@, x, lo as int);
    }
    Err(lo)
}

/// `interpolate` computed in 64-bit integers, which hold every intermediate value.
pub fn interpolate_exec(left: Point, right: Point, x: u16) -> (r: u16)
    ensures
        r == interpolate(left, right, x),
{
    let dh: u16 = if right.1 < left.1 {
        left.1 - right.1
    } else {
        right.1 - left.1
    };
    let dr: u16 = if right.0 < left.0 {
        left.0 - right.0
    } else {
        right.0 - left.0
    };
    let d: u16 = if x < left.0 {
        left.0 - x
    } else {
        x - left.0
    };
    let offset: u16 = if dr == 0 {
        0
    } else {
        let dh64 = dh as u64;
        let d64 = d as u64;
        assert(dh64 * d64 <= 0xffff * 0xffff) by (nonlinear_arith)
            requires
                dh64 <= 0xffff,
                d64 <= 0xffff,
        ;
        let scaled: u64 = dh64 * d64 / (dr as u64);
        if scaled > 0xffff {
            0xffff
        } else {
            scaled as u16
        }
    };
    if x < left.0 {
        left.1.saturating_sub(offset)
    } else {
        left.1.saturating_add(offset)
    }
}

/// The length that a sorted list of points gives for reading `x`.
pub fn transform_points(points: &[Point], x: u16) -> (r: u16)
    requires
        sorted_keys(points@),
    ensures
        r == transform_spec(points@, x),
{
    let n = points.len();
    if n == 0 {
        return 0;
    }
    match search(points, x) {
        Ok(i) => points[i].1,
        Err(i) => {
            if n == 1 {
                points[0].1
            } else if i == 0 {
                interpolate_exec(points[0], points[1], x)
            } else if i == n {
                interpolate_exec(points[n - 2], points[n - 1], x)
            } else {
                interpolate_exec(points[i - 1], points[i], x)
            }
        },
    }
}

/// Facts about `inserted` on a sorted table: it stays sorted, `p` stands at the
/// partition point of its reading, and the table grows by one exactly when no
/// point of that reading was there.
pub proof fn lemma_inserted(s: Seq<Point>, p: Point)
    requires
        sorted_keys(s),
    ensures
        ({
            let k = lower_bound(s, p.0);
            let t = inserted(s, p);
            &&& sorted_keys(t)
            &&& 0 <= k < t.len()
            &&& t[k] == p
            &&& lower_bound(t, p.0) == k
            &&& has_key(s, p.0) <==> (k < s.len() && s[k].0 == p.0)
            &&& has_key(t, p.0)
            &&& t.len() == if has_key(s, p.0) { s.len() } else { s.len() + 1 }
        }),
{
    let x = p.0;
    let k = lower_bound(s, x);
    lemma_lower_bound_splits(s, x);
    if has_key(s, x) {
        let i = choose|i: int| 0 <= i < s.len() && s[i].0 == x;
        if i > k {
            assert(s[k].0 < s[i].0);
        }
    }
    let t = inserted(s, p);
    assert(t[k] == p);
    assert forall|j: int| 0 <= j < k implies t[j].0 < x by {}
    assert forall|j: int| k <= j < t.len() implies t[j].0 >= x by {}
    lemma_lower_bound_at(t, x, k);
    assert forall|i: int, j: int| 0 <= i < j < t.len() implies t[i].0 < t[j].0 by {
        if !(k < s.len() && s[k].0 == x) && j > k {
            assert(t[j] == s[j - 1]);
        }
    }
}

/// Removing a point keeps a table sorted.
pub proof fn lemma_remove_sorted(s: Seq<Point>, index: int)
    requires
        sorted_keys(s),
        0 <= index < s.len(),
    ensures
        sorted_keys(s.remove(index)),
{
    let t = s.remove(index);
    assert forall|i: int, j: int| 0 <= i < j < t.len() implies t[i].0 < t[j].0 by {
        let si = if i < index { i } else { i + 1 };
        let sj = if j < index { j } else { j + 1 };
        assert(t[i] == s[si]);
        assert(t[j] == s[sj]);
    }
}

/// Whether readings strictly ascend.
pub fn is_sorted(pts: &[Point]) -> (r: bool)
    ensures
        r == sorted_keys(pts@),
{
    if pts.len() < 2 {
        return true;
    }
    let mut i: usize = 1;
    while i < pts.len()
        invariant
            1 <= i <= pts@.len(),
            sorted_keys(pts@.subrange(0, i as int)),
        decreases pts@.len() - i,
    {
        if pts[i - 1].0 >= pts[i].0 {
            assert(!sorted_keys(pts@) ) by {
                assert(!(pts@[i - 1].0 < pts@[i as int].0));
            }
            return false;
        }
        proof {
            let pre = pts@.subrange(0, i as int);
            let ext = pts@.subrange(0, i + 1);
            assert forall|a: int, b: int| 0 <= a < b < ext.len() implies ext[a].0 < ext[b].0 by {
                if b < i {
                    assert(ext[a] == pre[a] && ext[b] == pre[b]);
                } else if a < i - 1 {
                    assert(pre[a].0 < pre[i - 1].0);
                }
            }
        }
        i += 1;
    }
    assert(pts@.subrange(0, pts@.len() as int) =~= pts@);
    true
}

/// Reasons a calibration table refuses a change.
#[derive(Debug, Clone, Copy, PartialEq, Eq, Structural)]
pub enum CalibrationError {
    /// The table is at capacity and has no point of that reading to replace.
    Full,
}

/// A sorted, bounded table of calibration points mapping raw sensor readings to
/// lengths.
pub struct Calibration {
    fix_points: PointBuffer,
}

impl View for Calibration {
    type V = Seq<Point>;

    closed spec fn view(&self) -> Seq<Point> {
        buffer_points(self.fix_points)
    }
}

impl Calibration {
    pub open spec fn wf(&self) -> bool {
        valid_points(self@)
    }

    /// An empty table.
    pub fn new() -> (r: Self)
        ensures
            r@ == Seq::<Point>::empty(),
            r.wf(),
    {
        Self { fix_points: buffer_new() }
    }

    /// Takes over a buffer of points when it is sorted by reading without repeats.
    pub fn from_buffer(buffer: PointBuffer) -> (r: Option<Self>)
        ensures
            r is Some <==> sorted_keys(buffer_points(buffer)),
            r matches Some(c) ==> c@ == buffer_points(buffer) && c.wf(),
    {
        let ok = is_sorted(buffer_slice(&buffer));
        if ok {
            Some(Self { fix_points: buffer })
        } else {
            None
        }
    }

    /// Puts `height` in for reading `adc`, replacing a point of the same reading.
    pub fn insert(&mut self, adc: u16, height: Millimeters) -> (r: Result<(), CalibrationError>)
        requires
            old(self).wf(),
        ensures
            final(self).wf(),
            match insert_outcome(old(self)@, (adc, height.0)) {
                Some(t) => r is Ok && final(self)@ == t,
                None => r == Err::<(), CalibrationError>(CalibrationError::Full) && final(self)@ == old(self)@,
            },
    {
        let p: Point = (adc, height.0);
        proof {
            lemma_inserted(self@, p);
        }
        let found = search(buffer_slice(&self.fix_points), adc);
        match found {
            Ok(index) => {
                buffer_set(&mut self.fix_points, index, p);
                Ok(())
            },
            Err(index) => {
                match buffer_insert(&mut self.fix_points, index, p) {
                    Ok(()) => Ok(()),
                    Err(_) => Err(CalibrationError::Full),
                }
            },
        }
    }

    /// Removes every point.
    pub fn clear(&mut self)
        ensures
            final(self)@ == Seq::<Point>::empty(),
            final(self).wf(),
    {
        buffer_clear(&mut self.fix_points);
    }

    /// Removes the point at `index` (in reading order).
    pub fn remove(&mut self, index: usize)
        requires
            old(self).wf(),
            index < old(self)@.len(),
        ensures
            final(self)@ == old(self)@.remove(index as int),
            final(self).wf(),
    {
        proof {
            lemma_remove_sorted(self@, index as int);
        }
        buffer_remove(&mut self.fix_points, index);
    }

    /// The length for a raw reading; zero while the table is empty.
    pub fn transform(&self, reading: u16) -> (r: Millimeters)
        requires
            self.wf(),
        ensures
            r.mm() == transform_spec(self@, reading),
    {
        Millimeters::from_mm(transform_points(buffer_slice(&self.fix_points), reading))
    }

    pub fn len(&self) -> (r: usize)
        ensures
            r == self@.len(),
    {
        buffer_slice(&self.fix_points).len()
    }

    pub fn is_empty(&self) -> (r: bool)
        ensures
            r == (self@.len() == 0),
    {
        self.len() == 0
    }

    /// Whether no further reading can be added.
    pub fn is_full(&self) -> (r: bool)
        ensures
            r == (self@.len() >= CAPACITY),
    {
        self.len() >= CAPACITY
    }

    /// The point at `index`, in reading order.
    pub fn get(&self, index: usize) -> (r: Option<(u16, Millimeters)>)
        ensures
            index < self@.len() ==> r == Some((self@[index as int].0, Millimeters(self@[index as int].1))),
            index >= self@.len() ==> r is None,
    {
        let pts = buffer_slice(&self.fix_points);
        if index < pts.len() {
            let (adc, mm) = pts[index];
            Some((adc, Millimeters::from_mm(mm)))
        } else {
            None
        }
    }

    /// The points in reading order.
    pub fn points(&self) -> (r: Vec<Point>)
        ensures
            r@ == self@,
    {
        let pts = buffer_slice(&self.fix_points);
        let mut out: Vec<Point> = Vec::new();
        let mut i: usize = 0;
        while i < pts.len()
            invariant
                i <= pts@.len(),
                out@ == pts@.subrange(0, i as int),
            decreases pts@.len() - i,
        {
            out.push(pts[i]);
            i += 1;
        }
        proof {
            assert(out@ =~= pts@);
        }
        out
    }

    /// The buffer of points, for encoding.
    pub fn buffer(&self) -> (r: &PointBuffer)
        ensures
            buffer_points(*r) == self@,
    {
        &self.fix_points
    }
}

impl Clone for Calibration {
    fn clone(&self) -> (r: Self)
        ensures
            r@ == self@,
    {
        Calibration { fix_points: buffer_clone(&self.fix_points) }
    }
}

/// Every stored point is reproduced exactly: the length a sorted table gives for a
/// stored reading is the length stored with it.
pub proof fn lemma_transform_exact(s: Seq<Point>, i: int)
    requires
        sorted_keys(s),
        0 <= i < s.len(),
    ensures
        transform_spec(s, s[i].0) == s[i].1,
{
    let x = s[i].0;
    assert forall|j: int| 0 <= j < i implies s[j].0 < x by {}
    assert forall|j: int| i <= j < s.len() implies s[j].0 >= x by {}
    lemma_lower_bound_at(s, x, i);
}

/// After a successful insertion, the table gives exactly the inserted length for
/// the inserted reading.
pub proof fn lemma_insert_then_transform(s: Seq<Point>, p: Point)
    requires
        sorted_keys(s),
        insert_outcome(s, p) is Some,
    ensures
        transform_spec(insert_outcome(s, p).unwrap(), p.0) == p.1,
{
    lemma_inserted(s, p);
}

/// Inserting the same point a second time changes nothing: the table keeps its
/// size and its points, so every reading maps to the same length.
pub proof fn lemma_insert_idempotent(s: Seq<Point>, p: Point)
    requires
        sorted_keys(s),
        insert_outcome(s, p) is Some,
    ensures
        ({
            let t = insert_outcome(s, p).unwrap();
            &&& insert_outcome(t, p) == Some(t)
            &&& t.len() == insert_outcome(t, p).unwrap().len()
            &&& forall|x: u16| transform_spec(insert_outcome(t, p).unwrap(), x) == transform_spec(t, x)
        }),
{
    let t = inserted(s, p);
    lemma_inserted(s, p);
    let k = lower_bound(t, p.0);
    assert(t.update(k, p) =~= t);
}

/// A table never outgrows its capacity: an insertion into a valid table leaves a
/// valid table, and the first reading past capacity is refused with the table
/// unchanged.
pub proof fn lemma_insert_capacity(s: Seq<Point>, p: Point)
    requires
        valid_points(s),
    ensures
        insert_outcome(s, p) matches Some(t) ==> valid_points(t),
        insert_outcome(s, p) is None <==> (!has_key(s, p.0) && s.len() == CAPACITY),
{
    lemma_inserted(s, p);
}

/// Between two neighbouring points whose lengths do not decrease, the length given
/// for a reading strictly between them lies between their lengths.
pub proof fn lemma_transform_between(s: Seq<Point>, i: int, x: u16)
    requires
        sorted_keys(s),
        1 <= i < s.len(),
        s[i - 1].0 < x < s[i].0,
        s[i - 1].1 <= s[i].1,
    ensures
        s[i - 1].1 <= transform_spec(s, x) <= s[i].1,
{
    assert forall|j: int| 0 <= j < i implies s[j].0 < x by {
        if j < i - 1 {
            assert(s[j].0 < s[i - 1].0);
        }
    }
    assert forall|j: int| i <= j < s.len() implies s[j].0 >= x by {
        if j > i {
            assert(s[i].0 < s[j].0);
        }
    }
    lemma_lower_bound_at(s, x, i);
    let left = s[i - 1];
    let right = s[i];
    let dh = right.1 - left.1;
    let dr = right.0 - left.0;
    let d = x - left.0;
    assert(0 <= dh && 0 < d < dr);
    assert(dh * d <= dh * dr) by (nonlinear_arith)
        requires
            0 <= dh,
            0 < d < dr,
    ;
    vstd::arithmetic::div_mod::lemma_div_is_ordered(dh * d, dh * dr, dr);
    vstd::arithmetic::div_mod::lemma_div_by_multiple(dh, dr);
    assert(0 <= dh * d / dr) by {
        vstd::arithmetic::div_mod::lemma_div_pos_is_pos(dh * d, dr);
    }
}

/// The offset of `interpolate` grows with the distance from the left point.
proof fn lemma_offset_monotone(dh: int, dr: int, d1: int, d2: int)
    requires
        0 <= dh,
        0 < dr,
        0 <= d1 <= d2,
    ensures
        min_int(dh * d1 / dr, u16::MAX as int) <= min_int(dh * d2 / dr, u16::MAX as int),
        0 <= dh * d1 / dr,
{
    assert(dh * d1 <= dh * d2) by (nonlinear_arith)
        requires
            0 <= dh,
            d1 <= d2,
    ;
    assert(0 <= dh * d1) by (nonlinear_arith)
        requires
            0 <= dh,
            0 <= d1,
    ;
    vstd::arithmetic::div_mod::lemma_div_is_ordered(dh * d1, dh * d2, dr);
    vstd::arithmetic::div_mod::lemma_div_pos_is_pos(dh * d1, dr);
}

/// On a rising line the interpolated length never decreases with the reading,
/// on either side of the left point, and it meets both points exactly.
pub proof fn lemma_interpolate_monotone(left: Point, right: Point, x1: u16, x2: u16)
    requires
        left.0 < right.0,
        left.1 <= right.1,
        x1 <= x2,
    ensures
        interpolate(left, right, x1) <= interpolate(left, right, x2),
        interpolate(left, right, left.0) == left.1,
        interpolate(left, right, right.0) == right.1,
{
    let dh = right.1 - left.1;
    let dr = right.0 - left.0;
    if x1 >= left.0 {
        lemma_offset_monotone(dh, dr, x1 - left.0, x2 - left.0);
    } else if x2 < left.0 {
        lemma_offset_monotone(dh, dr, left.0 - x2, left.0 - x1);
    } else {
        lemma_offset_monotone(dh, dr, 0, x2 - left.0);
        lemma_offset_monotone(dh, dr, 0, left.0 - x1);
    }
    lemma_offset_monotone(dh, dr, 0, 0);
    vstd::arithmetic::div_mod::lemma_div_by_multiple(dh, dr);
    assert(dh * dr == dr * dh) by (nonlinear_arith);
}

/// `lower_bound` does not decrease with the reading.
proof fn lemma_lower_bound_monotone(s: Seq<Point>, x1: u16, x2: u16)
    requires
        sorted_keys(s),
        x1 <= x2,
    ensures
        lower_bound(s, x1) <= lower_bound(s, x2),
{
    lemma_lower_bound_splits(s, x1);
    lemma_lower_bound_splits(s, x2);
    if lower_bound(s, x2) < lower_bound(s, x1) {
        let j = lower_bound(s, x2);
        assert(s[j].0 < x1);
        assert(s[j].0 >= x2);
    }
}

/// The line of a table with at least two points that `transform_spec` uses at
/// reading `x`: the segment ending at the partition point, clamped to the first
/// and the last segment.
pub open spec fn segment(s: Seq<Point>, x: u16) -> int {
    let k = lower_bound(s, x);
    if k < 1 {
        1
    } else if k > s.len() - 1 {
        s.len() - 1
    } else {
        k
    }
}

/// With two or more points, the length for any reading lies on the line of its
/// segment, exact matches included.
proof fn lemma_transform_on_segment(s: Seq<Point>, x: u16)
    requires
        sorted_keys(s),
        s.len() >= 2,
        forall|j: int| 0 <= j < s.len() - 1 ==> #[trigger] s[j].1 <= s[j + 1].1,
    ensures
        transform_spec(s, x) == interpolate(s[segment(s, x) - 1], s[segment(s, x)], x),
{
    let k = lower_bound(s, x);
    let n = s.len() as int;
    lemma_lower_bound_splits(s, x);
    if k < n && s[k].0 == x {
        if k == 0 {
            lemma_interpolate_monotone(s[0], s[1], x, x);
        } else {
            lemma_interpolate_monotone(s[k - 1], s[k], x, x);
        }
    }
}

/// Lengths of a table whose neighbouring lengths never fall never fall at all.
proof fn lemma_lengths_rise(s: Seq<Point>, i: int, j: int)
    requires
        0 <= i <= j < s.len(),
        forall|m: int| 0 <= m < s.len() - 1 ==> #[trigger] s[m].1 <= s[m + 1].1,
    ensures
        s[i].1 <= s[j].1,
    decreases j - i,
{
    if i < j {
        lemma_lengths_rise(s, i, j - 1);
        assert(s[j - 1].1 <= s[j].1);
    }
}

/// Monotonicity: for a sorted table whose lengths rise from point to point, a
/// larger reading never gives a smaller length, across segments and in both
/// extrapolations, with truncation and saturation.
pub proof fn lemma_transform_monotone(s: Seq<Point>, x1: u16, x2: u16)
    requires
        sorted_keys(s),
        forall|j: int| 0 <= j < s.len() - 1 ==> #[trigger] s[j].1 <= s[j + 1].1,
        x1 <= x2,
    ensures
        transform_spec(s, x1) <= transform_spec(s, x2),
{
    let n = s.len() as int;
    if n == 1 {
        lemma_lower_bound_splits(s, x1);
        lemma_lower_bound_splits(s, x2);
    } else if n >= 2 {
        lemma_transform_on_segment(s, x1);
        lemma_transform_on_segment(s, x2);
        lemma_lower_bound_monotone(s, x1, x2);
        lemma_lower_bound_splits(s, x1);
        lemma_lower_bound_splits(s, x2);
        let a = segment(s, x1);
        let b = segment(s, x2);
        assert(s[a - 1].0 < s[a].0);
        assert(s[a - 1].1 <= s[a].1);
        if a == b {
            lemma_interpolate_monotone(s[a - 1], s[a], x1, x2);
        } else {
            assert(a < b);
            assert(s[b - 1].0 < s[b].0);
            assert(s[b - 1].1 <= s[b].1);
            // x1 lies at or before the right point of its segment, x2 after the
            // left point of its own.
            assert(x1 <= s[a].0);
            assert(x2 > s[b - 1].0);
            lemma_interpolate_monotone(s[a - 1], s[a], x1, s[a].0);
            lemma_interpolate_monotone(s[b - 1], s[b], s[b - 1].0, x2);
            lemma_lengths_rise(s, a, b - 1);
        }
    }
}

} // verus!

//! Shape boundaries: a boundary is a sequence of points, and a collection
//! holds the boundaries that one extraction found.
use crate::native::Request;
use crate::result::{Error, FFIResult};
use vstd::prelude::*;
use vstd::slice::slice_subrange;

verus! {

/// A pixel position.
#[derive(Clone, Copy, Debug, PartialEq, Eq, Structural)]
pub struct Point {
    pub x: i32,
    pub y: i32,
}

/// One boundary. `UM` says who owns it: with `true` it stands alone and
/// releases what it holds when it is dropped; with `false` it is a view
/// into a collection, which releases it together with the rest.
pub struct Contour<const UM: bool> {
    points: Vec<Point>,
}

/// The boundaries that one extraction found, in the order in which they
/// were found.
pub struct Contours {
    inner: Vec<Contour<false>>,
}

/// A walk over the points of one boundary, from its first point on.
pub struct ContourIter<'a, const UM: bool> {
    inner: &'a Contour<UM>,
    index: i32,
    size: i32,
}

/// Where a walk stands: the points that it goes over, and how many of them
/// it has handed out.
pub struct ContourIterView {
    pub points: Seq<Point>,
    pub index: int,
}

/// Whether a boundary of that many points can be held: its point count is
/// reported as a signed 32-bit integer.
pub open spec fn contour_fits(len: nat) -> bool {
    len <= i32::MAX
}

/// Whether every boundary of a raw collection can be held.
pub open spec fn contours_fit(raw: Seq<Vec<Point>>) -> bool {
    forall|i: int| 0 <= i < raw.len() ==> contour_fits(#[trigger] raw[i]@.len())
}

impl<const UM: bool> View for Contour<UM> {
    type V = Seq<Point>;

    closed spec fn view(&self) -> Seq<Point> {
        self.points@
    }
}

impl Default for Contour<true> {
    /// A boundary of its own, without points.
    fn default() -> (c: Contour<true>)
        ensures
            c@ == Seq::<Point>::empty(),
    {
        Contour { points: Vec::new() }
    }
}

impl Contour<false> {
    /// A view of the boundary that holds `points`.
    pub fn from_ref(points: Vec<Point>) -> (c: Contour<false>)
        requires
            contour_fits(points@.len()),
        ensures
            c@ == points@,
    {
        Contour { points }
    }
}

impl<const UM: bool> Contour<UM> {
    #[verifier::type_invariant]
    spec fn inv(self) -> bool {
        contour_fits(self.points@.len())
    }

    /// Whether dropping this boundary releases what it holds: true of a
    /// boundary that stands alone, false of a view into a collection.
    pub fn releases(&self) -> (owned: bool)
        ensures
            owned == UM,
    {
        UM
    }

    /// The number of points.
    pub fn size(&self) -> (n: i32)
        ensures
            n == self@.len(),
    {
        proof {
            use_type_invariant(self);
        }
        self.points.len() as i32
    }

    /// A walk over the points, which starts at the first one. Each call
    /// starts a new walk.
    pub fn iter(&self) -> (it: ContourIter<'_, UM>)
        ensures
            it@.points == self@,
            it@.index == 0,
    {
        ContourIter { inner: self, index: 0, size: self.size() }
    }

    /// The point at `index`.
    pub fn at(&self, index: i32) -> (p: Point)
        requires
            0 <= index < self@.len(),
        ensures
            p == self@[index as int],
    {
        self.points[index as usize]
    }

    /// All points, in order.
    pub fn points(&self) -> (all: Vec<Point>)
        ensures
            all@ == self@,
    {
        let mut it = self.iter();
        let mut all: Vec<Point> = Vec::new();
        loop
            invariant
                it@.points == self@,
                0 <= it@.index <= self@.len(),
                all@ == self@.take(it@.index),
            decreases self@.len() - it@.index,
        {
            match it.next() {
                Some(p) => {
                    all.push(p);
                    assert(all@ =~= self@.take(it@.index));
                },
                None => {
                    assert(self@.take(it@.index) =~= self@);
                    return all;
                },
            }
        }
    }
}

impl<'a, const UM: bool> View for ContourIter<'a, UM> {
    type V = ContourIterView;

    closed spec fn view(&self) -> ContourIterView {
        ContourIterView { points: self.inner@, index: self.index as int }
    }
}

impl<'a, const UM: bool> ContourIter<'a, UM> {
    #[verifier::type_invariant]
    spec fn inv(self) -> bool {
        0 <= self.index <= self.size && self.size == self.inner@.len()
    }

    /// Hands out the next point and steps past it; `None`, and no step,
    /// once every point has been handed out.
    pub fn next(&mut self) -> (p: Option<Point>)
        ensures
            final(self)@.points == old(self)@.points,
            0 <= old(self)@.index <= old(self)@.points.len(),
            old(self)@.index < old(self)@.points.len() ==> p == Some(
                old(self)@.points[old(self)@.index],
            ) && final(self)@.index == old(self)@.index + 1,
            old(self)@.index >= old(self)@.points.len() ==> p is None && final(self)@.index == old(
                self,
            )@.index,
    {
        proof {
            use_type_invariant(&*self);
        }
        if self.size <= self.index {
            None
        } else {
            let point = self.inner.at(self.index);
            self.index += 1;
            Some(point)
        }
    }
}

impl View for Contours {
    type V = Seq<Seq<Point>>;

    closed spec fn view(&self) -> Seq<Seq<Point>> {
        Seq::new(self.inner@.len(), |i: int| self.inner@[i]@)
    }
}

impl Default for Contours {
    /// The empty collection.
    fn default() -> (c: Contours)
        ensures
            c@ == Seq::<Seq<Point>>::empty(),
    {
        Contours::new()
    }
}

impl Contours {
    /// The empty collection, as it is before an extraction fills it.
    pub fn new() -> (c: Contours)
        ensures
            c@ == Seq::<Seq<Point>>::empty(),
    {
        let c = Contours { inner: Vec::new() };
        assert(c@ =~= Seq::<Seq<Point>>::empty());
        c
    }

    /// The number of boundaries.
    pub fn size(&self) -> (n: usize)
        ensures
            n == self@.len(),
    {
        self.inner.len()
    }

    /// The boundary at `index`.
    pub fn at(&self, index: usize) -> (c: &Contour<false>)
        requires
            index < self@.len(),
        ensures
            c@ == self@[index as int],
    {
        &self.inner[index]
    }

    /// The boundaries from `start` up to, and without, `end`.
    pub fn range(&self, start: usize, end: usize) -> (part: &[Contour<false>])
        requires
            start <= end <= self@.len(),
        ensures
            part@.len() == end - start,
            forall|i: int| 0 <= i < end - start ==> (#[trigger] part@[i])@ == self@[start + i],
    {
        let part = slice_subrange(self.inner.as_slice(), start, end);
        assert forall|i: int| 0 <= i < end - start implies (#[trigger] part@[i])@ == self@[start
            + i] by {
            assert(part@[i] == self.inner@[start + i]);
        }
        part
    }

    /// Makes one view for each boundary of a raw collection, in order.
    pub fn get_inner(raw: Vec<Vec<Point>>) -> (c: Contours)
        requires
            contours_fit(raw@),
        ensures
            c@.len() == raw@.len(),
            forall|i: int| 0 <= i < raw@.len() ==> c@[i] == #[trigger] raw@[i]@,
    {
        let ghost all = raw@;
        let n: usize = raw.len();
        let mut rest = backwards(raw);
        let mut inner: Vec<Contour<false>> = Vec::new();
        let mut i: usize = 0;
        while i < n
            invariant
                i <= n,
                n == all.len(),
                contours_fit(all),
                rest@.len() == n - i,
                forall|k: int| 0 <= k < n - i ==> #[trigger] rest@[k] == all[n - 1 - k],
                inner@.len() == i,
                forall|k: int| 0 <= k < i ==> (#[trigger] inner@[k])@ == all[k]@,
            decreases n - i,
        {
            let points = rest.pop().unwrap();
            assert(points == all[i as int]);
            inner.push(Contour::from_ref(points));
            i = i + 1;
        }
        let c = Contours { inner };
        assert(c@.len() == all.len());
        assert forall|k: int| 0 <= k < all.len() implies c@[k] == #[trigger] all[k]@ by {
            assert(c@[k] == c.inner@[k]@);
        }
        c
    }
}

impl Request<Contours> {
    /// Takes what the native call handed back. Where the call succeeded the
    /// result is the collection with one view for each boundary that was
    /// found, in order; where it failed, what came with the failure is
    /// dropped and the result is the failure of the call's kind with the
    /// message that it left. A boundary with more points than can be counted
    /// is a shape mismatch.
    pub fn complete(self, reply: FFIResult<Vec<Vec<Point>>>) -> (r: Result<Contours, Error>)
        ensures
            reply.error is None && contours_fit(reply.ok@) ==> (r matches Ok(c) && c@.len()
                == reply.ok@.len() && forall|i: int|
                0 <= i < reply.ok@.len() ==> c@[i] == #[trigger] reply.ok@[i]@),
            reply.error is None && !contours_fit(reply.ok@) ==> (r matches Err(e) && e
                == Error::ShapeMismatch),
            reply.error is Some ==> (r matches Err(e) && e.spec_origin() == Some(
                self@.spec_origin(),
            ) && e.spec_message() == crate::result::signal_message(reply.error.unwrap()@)),
    {
        let origin = self.call().origin();
        match reply.into_result(origin) {
            Ok(raw) => {
                if all_fit(&raw) {
                    Ok(Contours::get_inner(raw))
                } else {
                    Err(Error::ShapeMismatch)
                }
            },
            Err(e) => Err(e),
        }
    }
}

/// The items of `v`, last first.
fn backwards<T>(v: Vec<T>) -> (r: Vec<T>)
    ensures
        r@.len() == v@.len(),
        forall|k: int| 0 <= k < v@.len() ==> #[trigger] r@[k] == v@[v@.len() - 1 - k],
{
    let ghost all = v@;
    let mut v = v;
    let mut r: Vec<T> = Vec::new();
    while v.len() > 0
        invariant
            v@.len() + r@.len() == all.len(),
            v@ == all.take(v@.len() as int),
            forall|k: int| 0 <= k < r@.len() ==> #[trigger] r@[k] == all[all.len() - 1 - k],
        decreases v@.len(),
    {
        let item = v.pop().unwrap();
        assert(v@ =~= all.take(v@.len() as int));
        assert(item == all[v@.len() as int]);
        r.push(item);
    }
    r
}

/// Whether every boundary of a raw collection can be held.
fn all_fit(raw: &Vec<Vec<Point>>) -> (fit: bool)
    ensures
        fit == contours_fit(raw@),
{
    let mut i: usize = 0;
    while i < raw.len()
        invariant
            i <= raw@.len(),
            forall|k: int| 0 <= k < i ==> contour_fits(#[trigger] raw@[k]@.len()),
        decreases raw@.len() - i,
    {
        if raw[i].len() > 0x7fff_ffff {
            assert(!contour_fits(raw@[i as int]@.len()));
            return false;
        }
        i = i + 1;
    }
    true
}

} // verus!

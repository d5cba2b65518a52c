//! From plain geometry values to what the engine is asked to build.
//!
//! A ring, a polygon or a multi-polygon that is given as points is checked
//! as a whole first. Only a value that passes becomes a plan, so nothing is
//! built in the engine for a value of which a part is refused.

use vstd::prelude::*;
use vstd::string::StringExecFns;
use crate::error::Error;

verus! {

/// A conversion that may be refused.
pub trait TryInto<T>: Sized {
    type Err;

    /// Whether `r` is what the conversion of `self` gives.
    spec fn converts_to(self, r: core::result::Result<T, Self::Err>) -> bool;

    fn try_into(self) -> (r: core::result::Result<T, Self::Err>)
        ensures
            self.converts_to(r),
    ;
}

/// A point of the plane.
#[derive(Debug, Clone, Copy, PartialEq)]
pub struct Point<T> {
    pub x: T,
    pub y: T,
}

/// A line through points; a ring where it is the boundary of a polygon.
#[derive(Debug, Clone, PartialEq)]
pub struct LineString<T>(pub Vec<Point<T>>);

/// An area with an outer boundary and holes.
#[derive(Debug, Clone, PartialEq)]
pub struct Polygon<T> {
    pub exterior: LineString<T>,
    pub interiors: Vec<LineString<T>>,
}

/// Several polygons as one geometry.
#[derive(Debug, Clone, PartialEq)]
pub struct MultiPolygon<T>(pub Vec<Polygon<T>>);

/// The ordinate of a point that is written.
#[derive(Debug, Clone, Copy, PartialEq, Eq, Structural)]
pub enum Axis {
    X,
    Y,
}

/// One write into a coordinate sequence: the ordinate `axis` of the point
/// `index` becomes `value`.
#[derive(Debug, Clone, Copy)]
pub struct Ordinate<T> {
    pub index: u32,
    pub axis: Axis,
    pub value: T,
}

/// How to build a linear ring: make a coordinate sequence of `size` points
/// with `dims` ordinates, make the writes in order, and make a ring of it.
#[derive(Debug)]
pub struct RingPlan<T> {
    pub size: u32,
    pub dims: u32,
    pub writes: Vec<Ordinate<T>>,
}

/// How to build a polygon: its rings, then the polygon from them.
#[derive(Debug)]
pub struct PolygonPlan<T> {
    pub exterior: RingPlan<T>,
    pub interiors: Vec<RingPlan<T>>,
}

/// How to build a multi-polygon: its polygons, then the collection.
#[derive(Debug)]
pub struct MultiPolygonPlan<T> {
    pub polygons: Vec<PolygonPlan<T>>,
}

impl<T> Point<T> {
    /// The point with the ordinates `x` and `y`.
    pub fn new(x: T, y: T) -> (p: Point<T>)
        ensures
            p.x == x,
            p.y == y,
    {
        Point { x, y }
    }
}

impl<T> Polygon<T> {
    /// The polygon with the boundary `exterior` and the holes `interiors`.
    pub fn new(exterior: LineString<T>, interiors: Vec<LineString<T>>) -> (p: Polygon<T>)
        ensures
            p.exterior == exterior,
            p.interiors == interiors,
    {
        Polygon { exterior, interiors }
    }
}

/// The writes that fill a coordinate sequence with `points`: for each point
/// in turn its `x`, then its `y`.
pub open spec fn ring_writes<T>(points: Seq<Point<T>>) -> Seq<Ordinate<T>> {
    Seq::new(
        (2 * points.len()) as nat,
        |k: int|
            if k % 2 == 0 {
                Ordinate { index: (k / 2) as u32, axis: Axis::X, value: points[k / 2].x }
            } else {
                Ordinate { index: (k / 2) as u32, axis: Axis::Y, value: points[k / 2].y }
            },
    )
}

/// A table of points after one write: the ordinate that the write names is
/// replaced. A write to a point that the table does not have changes nothing.
pub open spec fn written<T>(table: Seq<Point<T>>, write: Ordinate<T>) -> Seq<Point<T>> {
    let i = write.index as int;
    if i < table.len() {
        match write.axis {
            Axis::X => table.update(i, Point { x: write.value, y: table[i].y }),
            Axis::Y => table.update(i, Point { x: table[i].x, y: write.value }),
        }
    } else {
        table
    }
}

/// A table of points after a row of writes, made in order.
pub open spec fn filled<T>(table: Seq<Point<T>>, writes: Seq<Ordinate<T>>) -> Seq<Point<T>>
    decreases writes.len(),
{
    if writes.len() == 0 {
        table
    } else {
        written(filled(table, writes.drop_last()), writes.last())
    }
}

/// The first `2 * i` writes of a ring's plan put the ring's first `i` points
/// into a table and leave the rest of it as it was.
proof fn lemma_writes_fill_in_order<T>(points: Seq<Point<T>>, table: Seq<Point<T>>, i: int)
    requires
        table.len() == points.len(),
        points.len() <= u32::MAX,
        0 <= i <= points.len(),
    ensures
        filled(table, ring_writes(points).take(2 * i)) == points.take(i) + table.skip(i),
    decreases i,
{
    let writes = ring_writes(points);
    if i == 0 {
        assert(writes.take(0) =~= Seq::<Ordinate<T>>::empty());
        assert(points.take(0) + table.skip(0) =~= table);
    } else {
        lemma_writes_fill_in_order(points, table, i - 1);
        let before = points.take(i - 1) + table.skip(i - 1);
        let first = writes.take(2 * i - 1);
        let both = writes.take(2 * i);
        assert(first.drop_last() =~= writes.take(2 * (i - 1)));
        assert(both.drop_last() =~= first);
        assert(first.last() == writes[2 * i - 2]);
        assert(both.last() == writes[2 * i - 1]);
        assert((2 * i - 2) % 2 == 0 && (2 * i - 2) / 2 == i - 1);
        assert((2 * i - 1) % 2 == 1 && (2 * i - 1) / 2 == i - 1);
        let half = written(before, first.last());
        assert(filled(table, first) == half);
        assert(filled(table, both) == written(half, both.last()));
        assert(written(half, both.last()) =~= points.take(i) + table.skip(i));
    }
}

/// A ring's plan holds the ring: its writes, made in order on any table of
/// as many points, leave exactly the ring's points in it.
pub proof fn lemma_plan_fills_the_ring<T>(points: Seq<Point<T>>, table: Seq<Point<T>>)
    requires
        table.len() == points.len(),
        points.len() <= u32::MAX,
    ensures
        filled(table, ring_writes(points)) == points,
{
    let n = points.len() as int;
    lemma_writes_fill_in_order(points, table, n);
    assert(ring_writes(points).take(2 * n) =~= ring_writes(points));
    assert(points.take(n) + table.skip(n) =~= points);
}

/// Whether a ring can be put before the engine: it is not a single point,
/// and the engine can count its points.
///
/// One point is the only length that is refused here. An empty ring passes,
/// and so does one of two or three points: whether such a ring is one is left
/// to the engine, which answers with its failure sentinel where it is not.
pub open spec fn ring_fits<T>(ring: LineString<T>) -> bool {
    ring.0@.len() != 1 && ring.0@.len() <= u32::MAX
}

/// Whether `e` is the failure that an unfit ring is refused with:
/// `InvalidGeometry` for a single point, `InvalidGeometryDetail` with its
/// reason for a ring that is too long.
pub open spec fn reports<T>(e: Error, ring: LineString<T>) -> bool {
    &&& !ring_fits(ring)
    &&& if ring.0@.len() == 1 {
        e is InvalidGeometry
    } else {
        e matches Error::InvalidGeometryDetail(words) && words@
            == "more points than a coordinate sequence can hold"@
    }
}

/// The rings of a polygon in the order in which they are checked and built:
/// the exterior first.
pub open spec fn rings_of<T>(polygon: Polygon<T>) -> Seq<LineString<T>> {
    seq![polygon.exterior] + polygon.interiors@
}

/// Whether every ring of a polygon fits.
pub open spec fn polygon_fits<T>(polygon: Polygon<T>) -> bool {
    forall|i: int| 0 <= i < rings_of(polygon).len() ==> ring_fits(#[trigger] rings_of(polygon)[i])
}

/// Whether `e` is the failure that an unfit polygon is refused with: that of
/// its first unfit ring.
pub open spec fn polygon_reports<T>(e: Error, polygon: Polygon<T>) -> bool {
    exists|k: int|
        {
            &&& 0 <= k < rings_of(polygon).len()
            &&& reports(e, #[trigger] rings_of(polygon)[k])
            &&& forall|j: int| 0 <= j < k ==> ring_fits(#[trigger] rings_of(polygon)[j])
        }
}

/// Whether every polygon of a multi-polygon fits.
pub open spec fn multi_polygon_fits<T>(multi: MultiPolygon<T>) -> bool {
    forall|i: int| 0 <= i < multi.0@.len() ==> polygon_fits(#[trigger] multi.0@[i])
}

/// Whether `e` is the failure that an unfit multi-polygon is refused with:
/// that of its first unfit polygon.
pub open spec fn multi_polygon_reports<T>(e: Error, multi: MultiPolygon<T>) -> bool {
    exists|k: int|
        {
            &&& 0 <= k < multi.0@.len()
            &&& polygon_reports(e, #[trigger] multi.0@[k])
            &&& forall|j: int| 0 <= j < k ==> polygon_fits(#[trigger] multi.0@[j])
        }
}

/// A multi-polygon whose first polygon has an exterior ring of exactly one
/// point is refused with `InvalidGeometry`, whatever else it holds.
pub proof fn lemma_single_point_exterior_is_invalid<T>(multi: MultiPolygon<T>, e: Error)
    requires
        multi.0@.len() >= 1,
        multi.0@[0].exterior.0@.len() == 1,
        multi_polygon_reports(e, multi),
    ensures
        !multi_polygon_fits(multi),
        e is InvalidGeometry,
{
    let first = multi.0@[0];
    assert(rings_of(first)[0] == first.exterior);
    assert(!ring_fits(rings_of(first)[0]));
    assert(!polygon_fits(first));
    let k = choose|k: int|
        {
            &&& 0 <= k < multi.0@.len()
            &&& polygon_reports(e, #[trigger] multi.0@[k])
            &&& forall|j: int| 0 <= j < k ==> polygon_fits(#[trigger] multi.0@[j])
        };
    assert(k == 0);
    let r = choose|r: int|
        {
            &&& 0 <= r < rings_of(first).len()
            &&& reports(e, #[trigger] rings_of(first)[r])
            &&& forall|j: int| 0 <= j < r ==> ring_fits(#[trigger] rings_of(first)[j])
        };
    assert(r == 0);
}

impl<T> RingPlan<T> {
    /// Whether this is the plan for `ring`: a sequence of as many points in
    /// two dimensions, filled with the ring's points in order.
    pub open spec fn describes(&self, ring: LineString<T>) -> bool {
        &&& self.size == ring.0@.len()
        &&& self.dims == 2
        &&& self.writes@ == ring_writes(ring.0@)
    }
}

impl<T> PolygonPlan<T> {
    /// Whether this is the plan for `polygon`: the plan of each of its rings,
    /// in place.
    pub open spec fn describes(&self, polygon: Polygon<T>) -> bool {
        &&& self.exterior.describes(polygon.exterior)
        &&& self.interiors@.len() == polygon.interiors@.len()
        &&& forall|i: int|
            0 <= i < self.interiors@.len() ==> (#[trigger] self.interiors@[i]).describes(
                polygon.interiors@[i],
            )
    }
}

impl<T> MultiPolygonPlan<T> {
    /// Whether this is the plan for `multi`: the plan of each of its
    /// polygons, in place.
    pub open spec fn describes(&self, multi: MultiPolygon<T>) -> bool {
        &&& self.polygons@.len() == multi.0@.len()
        &&& forall|i: int|
            0 <= i < self.polygons@.len() ==> (#[trigger] self.polygons@[i]).describes(
                multi.0@[i],
            )
    }
}

impl<'a, T: Copy> TryInto<RingPlan<T>> for &'a LineString<T> {
    type Err = Error;

    /// The plan for a linear ring through the points of the line.
    ///
    /// A line of exactly one point is refused with `InvalidGeometry`, and one
    /// of more points than the engine can count with `InvalidGeometryDetail`.
    open spec fn converts_to(self, r: core::result::Result<RingPlan<T>, Error>) -> bool {
        &&& r is Ok <==> ring_fits(*self)
        &&& r matches Ok(plan) ==> plan.describes(*self)
        &&& r matches Err(e) ==> reports(e, *self)
    }

    /// The plan for a linear ring through the points of the line.
    ///
    /// A line of exactly one point is refused with `InvalidGeometry`, and one
    /// of more points than the engine can count with `InvalidGeometryDetail`.
    fn try_into(self) -> (r: core::result::Result<RingPlan<T>, Error>)
    {
        let n: usize = self.0.len();
        if n == 1 {
            return Err(Error::InvalidGeometry);
        }
        if n > u32::MAX as usize {
            return Err(
                Error::InvalidGeometryDetail(
                    String::from_str("more points than a coordinate sequence can hold"),
                ),
            );
        }
        let mut writes: Vec<Ordinate<T>> = Vec::new();
        let mut i: usize = 0;
        while i < n
            invariant
                n == self.0@.len(),
                n <= u32::MAX,
                i <= n,
                writes@.len() == 2 * i,
                forall|k: int| 0 <= k < 2 * i ==> writes@[k] == ring_writes(self.0@)[k],
            decreases n - i,
        {
            let p = self.0[i];
            writes.push(Ordinate { index: i as u32, axis: Axis::X, value: p.x });
            writes.push(Ordinate { index: i as u32, axis: Axis::Y, value: p.y });
            i += 1;
        }
        assert(writes@ =~= ring_writes(self.0@));
        Ok(RingPlan { size: n as u32, dims: 2, writes })
    }
}

impl<'a, T: Copy> TryInto<PolygonPlan<T>> for &'a Polygon<T> {
    type Err = Error;

    open spec fn converts_to(self, r: core::result::Result<PolygonPlan<T>, Error>) -> bool {
        &&& r is Ok <==> polygon_fits(*self)
        &&& r matches Ok(plan) ==> plan.describes(*self)
        &&& r matches Err(e) ==> polygon_reports(e, *self)
    }

    /// The plan for a polygon: the plans of its exterior ring and of its
    /// interior rings, in order.
    ///
    /// The rings are checked before anything is planned. The first ring that
    /// is refused, the exterior coming first, has the whole polygon refused
    /// with that ring's failure.
    fn try_into(self) -> (r: core::result::Result<PolygonPlan<T>, Error>) {
        let ghost rings = rings_of(*self);
        let first: core::result::Result<RingPlan<T>, Error> = TryInto::try_into(&self.exterior);
        let exterior = match first {
            Ok(plan) => plan,
            Err(e) => {
                assert(reports(e, rings[0]));
                return Err(e);
            },
        };
        let n: usize = self.interiors.len();
        let mut interiors: Vec<RingPlan<T>> = Vec::new();
        let mut i: usize = 0;
        while i < n
            invariant
                rings == rings_of(*self),
                ring_fits(self.exterior),
                exterior.describes(self.exterior),
                n == self.interiors@.len(),
                i <= n,
                interiors@.len() == i,
                forall|j: int| 0 <= j < i ==> ring_fits(self.interiors@[j]),
                forall|j: int|
                    0 <= j < i ==> (#[trigger] interiors@[j]).describes(self.interiors@[j]),
            decreases n - i,
        {
            let next: core::result::Result<RingPlan<T>, Error> = TryInto::try_into(
                &self.interiors[i],
            );
            match next {
                Ok(plan) => {
                    interiors.push(plan);
                },
                Err(e) => {
                    proof {
                        let k = i as int + 1;
                        assert(rings[k] == self.interiors@[i as int]);
                        assert(reports(e, rings[k]));
                        assert forall|j: int| 0 <= j < k implies ring_fits(
                            #[trigger] rings[j],
                        ) by {
                            if j > 0 {
                                assert(rings[j] == self.interiors@[j - 1]);
                            }
                        }
                    }
                    return Err(e);
                },
            }
            i += 1;
        }
        proof {
            assert forall|j: int| 0 <= j < rings.len() implies ring_fits(#[trigger] rings[j]) by {
                if j > 0 {
                    assert(rings[j] == self.interiors@[j - 1]);
                }
            }
        }
        Ok(PolygonPlan { exterior, interiors })
    }
}

impl<'a, T: Copy> TryInto<MultiPolygonPlan<T>> for &'a MultiPolygon<T> {
    type Err = Error;

    open spec fn converts_to(self, r: core::result::Result<MultiPolygonPlan<T>, Error>) -> bool {
        &&& r is Ok <==> multi_polygon_fits(*self)
        &&& r matches Ok(plan) ==> plan.describes(*self)
        &&& r matches Err(e) ==> multi_polygon_reports(e, *self)
    }

    /// The plan for a multi-polygon: the plans of its polygons, in order.
    ///
    /// The polygons are checked before anything is planned. The first one
    /// that is refused has the whole multi-polygon refused with its failure,
    /// so that no part is ever built for a value that is not built whole.
    fn try_into(self) -> (r: core::result::Result<MultiPolygonPlan<T>, Error>) {
        let n: usize = self.0.len();
        let mut polygons: Vec<PolygonPlan<T>> = Vec::new();
        let mut i: usize = 0;
        while i < n
            invariant
                n == self.0@.len(),
                i <= n,
                polygons@.len() == i,
                forall|j: int| 0 <= j < i ==> polygon_fits(#[trigger] self.0@[j]),
                forall|j: int| 0 <= j < i ==> (#[trigger] polygons@[j]).describes(self.0@[j]),
            decreases n - i,
        {
            let next: core::result::Result<PolygonPlan<T>, Error> = TryInto::try_into(&self.0[i]);
            match next {
                Ok(plan) => {
                    polygons.push(plan);
                },
                Err(e) => {
                    assert(polygon_reports(e, self.0@[i as int]));
                    assert(!polygon_fits(self.0@[i as int]));
                    return Err(e);
                },
            }
            i += 1;
        }
        Ok(MultiPolygonPlan { polygons })
    }
}

} // verus!

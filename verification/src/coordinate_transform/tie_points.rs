use vstd::prelude::*;

use crate::coordinate_transform::{Coord, CoordinateTransform, CoordinateTransformView};

verus! {

/// The raster-space point of the `k`-th group of six tie point values.
pub open spec fn raster_point_at<T>(tie_points: Seq<T>, k: int) -> Coord<T> {
    Coord { x: tie_points[6 * k], y: tie_points[6 * k + 1] }
}

/// The model-space point of the `k`-th group of six tie point values.
pub open spec fn model_point_at<T>(tie_points: Seq<T>, k: int) -> Coord<T> {
    Coord { x: tie_points[6 * k + 3], y: tie_points[6 * k + 4] }
}

/// The two index-aligned point sets that tie point values describe.
pub open spec fn tie_points_view<T>(tie_points: Seq<T>) -> CoordinateTransformView<T> {
    CoordinateTransformView::TiePoints {
        raster_points: Seq::new((tie_points.len() / 6) as nat, |k: int| raster_point_at(tie_points, k)),
        model_points: Seq::new((tie_points.len() / 6) as nat, |k: int| model_point_at(tie_points, k)),
    }
}

impl<T: Copy> CoordinateTransform<T> {
    /// Splits tie point values, six to a tie point, into the points of raster
    /// space and the points of model space.
    pub fn from_tie_points(tie_points: &[T]) -> (transform: Self)
        requires
            tie_points.len() % 6 == 0,
        ensures
            transform@ == tie_points_view(tie_points@),
    {
        let count: usize = tie_points.len() / 6;
        let mut raster_points: Vec<Coord<T>> = Vec::with_capacity(count);
        let mut model_points: Vec<Coord<T>> = Vec::with_capacity(count);
        let mut k: usize = 0;
        while k < count
            invariant
                k <= count,
                count == tie_points.len() / 6,
                tie_points.len() % 6 == 0,
                raster_points.len() == k,
                model_points.len() == k,
                forall|j: int| 0 <= j < k ==> raster_points[j] == raster_point_at(tie_points@, j),
                forall|j: int| 0 <= j < k ==> model_points[j] == model_point_at(tie_points@, j),
            decreases count - k,
        {
            let base: usize = 6 * k;
            raster_points.push(Coord { x: tie_points[base], y: tie_points[base + 1] });
            model_points.push(Coord { x: tie_points[base + 3], y: tie_points[base + 4] });
            k += 1;
        }
        let transform = CoordinateTransform::TiePoints { raster_points, model_points };
        assert(transform@ == tie_points_view(tie_points@)) by {
            let view = tie_points_view(tie_points@);
            assert(transform@->TiePoints_raster_points =~= view->TiePoints_raster_points);
            assert(transform@->TiePoints_model_points =~= view->TiePoints_model_points);
        }
        transform
    }
}

/// The hull cycle read from position `start` on and then once more from its
/// beginning: what a walk along the hull from `start` passes, one wrap allowed.
pub open spec fn hull_walk(hull: Seq<usize>, start: int) -> Seq<usize> {
    hull.skip(start) + hull
}

/// Whether a walk along the hull from position `start` begins with `seq`.
pub open spec fn occurs_at(hull: Seq<usize>, seq: Seq<usize>, start: int) -> bool {
    seq.is_prefix_of(hull_walk(hull, start))
}

/// Whether `seq` is a contiguous part of the hull cycle, read forward.
pub open spec fn spec_contains_sequence(hull: Seq<usize>, seq: Seq<usize>) -> bool {
    exists|start: int| 0 <= start < hull.len() && occurs_at(hull, seq, start)
}

/// Whether a walk along the hull from position `start` begins with `seq`.
fn occurs_at_position(hull: &[usize], seq: &[usize], start: usize) -> (found: bool)
    requires
        start < hull.len(),
    ensures
        found == occurs_at(hull@, seq@, start as int),
{
    let len: usize = hull.len();
    let rest: usize = len - start;
    let ghost walk = hull_walk(hull@, start as int);
    if seq.len() > rest && seq.len() - rest > len {
        return false;
    }
    let mut j: usize = 0;
    while j < seq.len()
        invariant
            j <= seq.len(),
            len == hull.len(),
            start < len,
            rest == len - start,
            walk == hull_walk(hull@, start as int),
            seq.len() <= walk.len(),
            forall|i: int| 0 <= i < j ==> seq@[i] == walk[i],
        decreases seq.len() - j,
    {
        let passed: usize = if j < rest {
            hull[start + j]
        } else {
            hull[j - rest]
        };
        assert(passed == walk[j as int]);
        if passed != seq[j] {
            assert(seq@ != walk.subrange(0, seq@.len() as int)) by {
                assert(walk.subrange(0, seq@.len() as int)[j as int] == walk[j as int]);
            }
            return false;
        }
        j += 1;
    }
    assert(seq@ =~= walk.subrange(0, seq@.len() as int));
    true
}

/// Whether `seq` is a contiguous part of the cycle `hull`, read forward: it
/// may run over the end of `hull` and go on from its beginning.
pub fn contains_sequence(hull: &[usize], seq: &[usize]) -> (found: bool)
    ensures
        found == spec_contains_sequence(hull@, seq@),
{
    let mut start: usize = 0;
    while start < hull.len()
        invariant
            start <= hull.len(),
            forall|s: int| 0 <= s < start ==> !occurs_at(hull@, seq@, s),
        decreases hull.len() - start,
    {
        if occurs_at_position(hull, seq, start) {
            return true;
        }
        start += 1;
    }
    false
}

/// Whether the edge between the points `a` and `b` lies on the hull: the two
/// follow one another along the hull cycle, in either direction.
pub open spec fn on_hull(hull: Seq<usize>, a: usize, b: usize) -> bool {
    spec_contains_sequence(hull, seq![a, b]) || spec_contains_sequence(hull, seq![b, a])
}

/// Whether the edge between the points `a` and `b` lies on the hull.
pub fn edge_on_hull(hull: &[usize], a: usize, b: usize) -> (found: bool)
    ensures
        found == on_hull(hull@, a, b),
{
    let forward = [a, b];
    let backward = [b, a];
    assert(forward@ =~= seq![a, b]);
    assert(backward@ =~= seq![b, a]);
    contains_sequence(hull, forward.as_slice()) || contains_sequence(hull, backward.as_slice())
}

/// The position that follows `i` on a cycle of `len` positions.
pub open spec fn next_on_cycle(i: int, len: int) -> int {
    if i + 1 == len {
        0
    } else {
        i + 1
    }
}

/// The points at the `i`-th corner of the hull: the point at position `i`,
/// the one that follows it, at which the corner lies, and the one after that.
pub open spec fn spec_hull_corner(hull: Seq<usize>, i: int) -> (usize, usize, usize) {
    let at = next_on_cycle(i, hull.len() as int);
    (hull[i], hull[at], hull[next_on_cycle(at, hull.len() as int)])
}

/// The point at which the `i`-th corner of the hull lies.
pub open spec fn corner_vertex(hull: Seq<usize>, i: int) -> usize {
    spec_hull_corner(hull, i).1
}

/// The points at the `i`-th corner of the hull, as `(previous, corner, next)`.
/// The bisector of the corner is the normalized sum of the unit vectors from
/// `previous` to `corner` and from `next` to `corner`.
pub fn hull_corner(hull: &[usize], i: usize) -> (corner: (usize, usize, usize))
    requires
        i < hull.len(),
    ensures
        corner == spec_hull_corner(hull@, i as int),
{
    let len: usize = hull.len();
    let at: usize = if i + 1 == len {
        0
    } else {
        i + 1
    };
    let after: usize = if at + 1 == len {
        0
    } else {
        at + 1
    };
    (hull[i], hull[at], hull[after])
}

/// The direction given to `vertex` by the last of the first `corners` corners
/// of the hull that lies at it, if any does.
pub open spec fn bisector_among<T>(
    hull: Seq<usize>,
    directions: Seq<Coord<T>>,
    vertex: usize,
    corners: int,
) -> Option<Coord<T>>
    decreases corners,
{
    if corners <= 0 {
        None
    } else if corner_vertex(hull, corners - 1) == vertex {
        Some(directions[corners - 1])
    } else {
        bisector_among(hull, directions, vertex, corners - 1)
    }
}

/// The bisector at a point: the direction of the hull's corner that lies at
/// it, and none for a point that is no corner of the hull.
pub open spec fn bisector_at<T>(hull: Seq<usize>, directions: Seq<Coord<T>>, vertex: usize) -> Option<
    Coord<T>,
> {
    bisector_among(hull, directions, vertex, hull.len() as int)
}

/// A corner among the first `corners` that lies at `vertex` gives it a bisector.
proof fn lemma_corner_gives_bisector<T>(
    hull: Seq<usize>,
    directions: Seq<Coord<T>>,
    vertex: usize,
    corners: int,
    i: int,
)
    requires
        0 <= i < corners,
        corner_vertex(hull, i) == vertex,
    ensures
        bisector_among(hull, directions, vertex, corners) is Some,
    decreases corners,
{
    if corner_vertex(hull, corners - 1) != vertex {
        lemma_corner_gives_bisector(hull, directions, vertex, corners - 1, i);
    }
}

/// Every point of the hull has a bisector.
pub proof fn lemma_hull_point_has_bisector<T>(hull: Seq<usize>, directions: Seq<Coord<T>>, j: int)
    requires
        0 <= j < hull.len(),
    ensures
        bisector_at(hull, directions, hull[j]) is Some,
{
    let len = hull.len() as int;
    let i = if j == 0 {
        len - 1
    } else {
        j - 1
    };
    assert(next_on_cycle(i, len) == j);
    lemma_corner_gives_bisector(hull, directions, hull[j], len, i);
}

/// Gives each point its bisector. `directions[i]` is the bisector of the
/// `i`-th corner of the hull; a point that is no corner of the hull gets none.
pub fn angle_bisectors<T: Copy>(num_points: usize, hull: &[usize], directions: &[Coord<T>]) -> (bisectors: Vec<
    Option<Coord<T>>,
>)
    requires
        directions.len() == hull.len(),
        forall|i: int| 0 <= i < hull.len() ==> hull[i] < num_points,
    ensures
        bisectors.len() == num_points,
        forall|p: int|
            0 <= p < num_points ==> bisectors[p] == bisector_at(hull@, directions@, p as usize),
{
    let mut bisectors: Vec<Option<Coord<T>>> = Vec::with_capacity(num_points);
    let mut p: usize = 0;
    while p < num_points
        invariant
            p <= num_points,
            bisectors.len() == p,
            forall|q: int| 0 <= q < p ==> bisectors[q] is None,
        decreases num_points - p,
    {
        bisectors.push(None);
        p += 1;
    }
    let mut i: usize = 0;
    while i < hull.len()
        invariant
            i <= hull.len(),
            directions.len() == hull.len(),
            bisectors.len() == num_points,
            forall|k: int| 0 <= k < hull.len() ==> hull[k] < num_points,
            forall|q: int|
                0 <= q < num_points ==> bisectors[q] == bisector_among(
                    hull@,
                    directions@,
                    q as usize,
                    i as int,
                ),
        decreases hull.len() - i,
    {
        let corner = hull_corner(hull, i);
        bisectors.set(corner.1, Some(directions[i]));
        i += 1;
    }
    bisectors
}

/// The result of a Delaunay triangulation of a set of points, by point index.
#[derive(Debug, PartialEq, Eq)]
pub struct Triangulation {
    /// Three point indices for each triangle.
    pub triangles: Vec<usize>,
    /// The points on the convex hull, in the order of a walk around it.
    pub hull: Vec<usize>,
}

impl Triangulation {
    /// Whether this is a triangulation of `num_points` points: the triangles
    /// are whole, and every index refers to one of the points.
    pub open spec fn fits(&self, num_points: nat) -> bool {
        &&& self.triangles.len() % 3 == 0
        &&& forall|i: int| 0 <= i < self.triangles.len() ==> self.triangles[i] < num_points
        &&& forall|i: int| 0 <= i < self.hull.len() ==> self.hull[i] < num_points
    }

    /// Whether this is a triangulation of `num_points` points.
    pub fn fits_points(&self, num_points: usize) -> (ok: bool)
        ensures
            ok == self.fits(num_points as nat),
    {
        if self.triangles.len() % 3 != 0 {
            return false;
        }
        if !all_below(self.triangles.as_slice(), num_points) {
            return false;
        }
        all_below(self.hull.as_slice(), num_points)
    }
}

/// Whether every index is below `bound`.
fn all_below(indices: &[usize], bound: usize) -> (ok: bool)
    ensures
        ok == (forall|i: int| 0 <= i < indices.len() ==> indices[i] < bound),
{
    let mut i: usize = 0;
    while i < indices.len()
        invariant
            i <= indices.len(),
            forall|k: int| 0 <= k < i ==> indices[k] < bound,
        decreases indices.len() - i,
    {
        if indices[i] >= bound {
            return false;
        }
        i += 1;
    }
    true
}

/// What bounds a face other than the hull.
#[derive(Debug, PartialEq)]
pub enum Boundary<T> {
    /// The face touches the hull. `coords` runs along its edges that do not,
    /// and beyond the hull the face goes on between the two rays: from
    /// `coords[0]` along `from_direction`, from the last of `coords` along
    /// `to_direction`.
    Open { coords: Vec<Coord<T>>, from_direction: Coord<T>, to_direction: Coord<T> },
    /// The face touches no edge of the hull: `coords` runs along its three
    /// edges and ends where it began.
    Closed { coords: Vec<Coord<T>> },
}

/// One triangle of a mesh, with what bounds it. A face without a boundary is
/// the only face of its mesh and covers the whole plane.
#[derive(Debug, PartialEq)]
pub struct Face<T> {
    pub boundary: Option<Boundary<T>>,
    pub support_points: [Coord<T>; 3],
}

/// What a `Boundary` holds, as mathematical values.
pub enum BoundaryView<T> {
    Open { coords: Seq<Coord<T>>, from_direction: Coord<T>, to_direction: Coord<T> },
    Closed { coords: Seq<Coord<T>> },
}

/// What a `Face` holds, as mathematical values.
pub struct FaceView<T> {
    pub boundary: Option<BoundaryView<T>>,
    pub support_points: Seq<Coord<T>>,
}

impl<T> View for Boundary<T> {
    type V = BoundaryView<T>;

    open spec fn view(&self) -> BoundaryView<T> {
        match *self {
            Boundary::Open { coords, from_direction, to_direction } => BoundaryView::Open {
                coords: coords@,
                from_direction,
                to_direction,
            },
            Boundary::Closed { coords } => BoundaryView::Closed { coords: coords@ },
        }
    }
}

impl<T> View for Face<T> {
    type V = FaceView<T>;

    open spec fn view(&self) -> FaceView<T> {
        FaceView {
            boundary: match self.boundary {
                Some(boundary) => Some(boundary@),
                None => None,
            },
            support_points: self.support_points@,
        }
    }
}

impl<T> FaceView<T> {
    /// A face has three support points. An open boundary runs over two or
    /// three points, a closed one over four, the last being the first again.
    pub open spec fn wf(self) -> bool {
        &&& self.support_points.len() == 3
        &&& match self.boundary {
            None => true,
            Some(BoundaryView::Open { coords, .. }) => coords.len() == 2 || coords.len() == 3,
            Some(BoundaryView::Closed { coords }) => coords.len() == 4 && coords[3] == coords[0],
        }
    }

    /// Whether two faces are bounded in the same way, by as many points.
    pub open spec fn same_shape(self, other: FaceView<T>) -> bool {
        match (self.boundary, other.boundary) {
            (None, None) => true,
            (
                Some(BoundaryView::Open { coords: mine, .. }),
                Some(BoundaryView::Open { coords: theirs, .. }),
            ) => mine.len() == theirs.len(),
            (
                Some(BoundaryView::Closed { coords: mine }),
                Some(BoundaryView::Closed { coords: theirs }),
            ) => mine.len() == theirs.len(),
            _ => false,
        }
    }
}

/// The part of a triangle's outline that does not lie on the hull, as the
/// points that it runs over.
pub enum Outline {
    /// All three edges lie on the hull.
    Unbounded,
    /// One or two edges lie on the hull; the chain runs along the others.
    Open { chain: Seq<usize> },
    /// No edge lies on the hull; the chain runs once around the triangle.
    Closed { chain: Seq<usize> },
}

/// The `k`-th triangle of a list of triangles.
pub open spec fn triangle_at(triangles: Seq<usize>, k: int) -> (usize, usize, usize) {
    (triangles[3 * k], triangles[3 * k + 1], triangles[3 * k + 2])
}

/// How the triangle `(i1, i2, i3)` is bounded inside the hull. Of its edges
/// `i1 i2`, `i2 i3` and `i3 i1`, those that do not lie on the hull form a
/// chain, which is followed in the direction of the triangle.
pub open spec fn outline(hull: Seq<usize>, triangle: (usize, usize, usize)) -> Outline {
    let (i1, i2, i3) = triangle;
    let b12 = on_hull(hull, i1, i2);
    let b23 = on_hull(hull, i2, i3);
    let b31 = on_hull(hull, i3, i1);
    if b12 && b23 && b31 {
        Outline::Unbounded
    } else if b12 && b23 {
        Outline::Open { chain: seq![i3, i1] }
    } else if b12 && b31 {
        Outline::Open { chain: seq![i2, i3] }
    } else if b23 && b31 {
        Outline::Open { chain: seq![i1, i2] }
    } else if b12 {
        Outline::Open { chain: seq![i2, i3, i1] }
    } else if b23 {
        Outline::Open { chain: seq![i3, i1, i2] }
    } else if b31 {
        Outline::Open { chain: seq![i1, i2, i3] }
    } else {
        Outline::Closed { chain: seq![i1, i2, i3, i1] }
    }
}

/// The positions of the points of a chain.
pub open spec fn chain_coords<T>(points: Seq<Coord<T>>, chain: Seq<usize>) -> Seq<Coord<T>> {
    Seq::new(chain.len(), |j: int| points[chain[j] as int])
}

/// The face over a triangle of the given points. Its support points are the
/// triangle's corners in their order; its boundary follows the triangle's
/// outline, and an open one leaves along the bisectors at the two ends of
/// the chain.
pub open spec fn face_view<T>(
    points: Seq<Coord<T>>,
    hull: Seq<usize>,
    directions: Seq<Coord<T>>,
    triangle: (usize, usize, usize),
) -> FaceView<T> {
    FaceView {
        boundary: match outline(hull, triangle) {
            Outline::Unbounded => None,
            Outline::Open { chain } => Some(
                BoundaryView::Open {
                    coords: chain_coords(points, chain),
                    from_direction: bisector_at(hull, directions, chain.first())->0,
                    to_direction: bisector_at(hull, directions, chain.last())->0,
                },
            ),
            Outline::Closed { chain } => Some(BoundaryView::Closed { coords: chain_coords(points, chain) }),
        },
        support_points: seq![
            points[triangle.0 as int],
            points[triangle.1 as int],
            points[triangle.2 as int],
        ],
    }
}

/// The ends of an edge on the hull are points of the hull, and so have a bisector.
pub proof fn lemma_hull_edge_has_bisectors<T>(hull: Seq<usize>, directions: Seq<Coord<T>>, a: usize, b: usize)
    requires
        on_hull(hull, a, b),
    ensures
        bisector_at(hull, directions, a) is Some,
        bisector_at(hull, directions, b) is Some,
{
    let (first, second) = if spec_contains_sequence(hull, seq![a, b]) {
        (a, b)
    } else {
        (b, a)
    };
    let pair = seq![first, second];
    let start = choose|start: int| 0 <= start < hull.len() && occurs_at(hull, pair, start);
    let walk = hull_walk(hull, start);
    assert(pair == walk.subrange(0, 2));
    assert(walk.subrange(0, 2)[0] == walk[0]);
    assert(walk.subrange(0, 2)[1] == walk[1]);
    assert(pair[0] == first && pair[1] == second);
    assert(walk[0] == hull[start]);
    lemma_hull_point_has_bisector(hull, directions, start);
    if start + 1 < hull.len() {
        assert(walk[1] == hull[start + 1]);
        lemma_hull_point_has_bisector(hull, directions, start + 1);
    } else {
        assert(walk[1] == hull[0]);
        lemma_hull_point_has_bisector(hull, directions, 0);
    }
}

/// Builds the face over the triangle `(i1, i2, i3)`.
fn build_face<T: Copy>(
    points: &[Coord<T>],
    hull: &[usize],
    bisectors: &Vec<Option<Coord<T>>>,
    Ghost(directions): Ghost<Seq<Coord<T>>>,
    i1: usize,
    i2: usize,
    i3: usize,
) -> (face: Face<T>)
    requires
        i1 < points.len(),
        i2 < points.len(),
        i3 < points.len(),
        bisectors.len() == points.len(),
        forall|p: int|
            0 <= p < points.len() ==> bisectors[p] == bisector_at(hull@, directions, p as usize),
    ensures
        face@ == face_view(points@, hull@, directions, (i1, i2, i3)),
{
    let b12 = edge_on_hull(hull, i1, i2);
    let b23 = edge_on_hull(hull, i2, i3);
    let b31 = edge_on_hull(hull, i3, i1);
    proof {
        if b12 {
            lemma_hull_edge_has_bisectors(hull@, directions, i1, i2);
        }
        if b23 {
            lemma_hull_edge_has_bisectors(hull@, directions, i2, i3);
        }
        if b31 {
            lemma_hull_edge_has_bisectors(hull@, directions, i3, i1);
        }
    }
    let c1 = points[i1];
    let c2 = points[i2];
    let c3 = points[i3];
    let ghost expected = face_view(points@, hull@, directions, (i1, i2, i3));
    let boundary = if b12 && b23 && b31 {
        None
    } else if b12 && b23 {
        let coords = vec![c3, c1];
        assert(coords@ =~= chain_coords(points@, seq![i3, i1]));
        Some(
            Boundary::Open {
                coords,
                from_direction: bisectors[i3].unwrap(),
                to_direction: bisectors[i1].unwrap(),
            },
        )
    } else if b12 && b31 {
        let coords = vec![c2, c3];
        assert(coords@ =~= chain_coords(points@, seq![i2, i3]));
        Some(
            Boundary::Open {
                coords,
                from_direction: bisectors[i2].unwrap(),
                to_direction: bisectors[i3].unwrap(),
            },
        )
    } else if b23 && b31 {
        let coords = vec![c1, c2];
        assert(coords@ =~= chain_coords(points@, seq![i1, i2]));
        Some(
            Boundary::Open {
                coords,
                from_direction: bisectors[i1].unwrap(),
                to_direction: bisectors[i2].unwrap(),
            },
        )
    } else if b12 {
        let coords = vec![c2, c3, c1];
        assert(coords@ =~= chain_coords(points@, seq![i2, i3, i1]));
        Some(
            Boundary::Open {
                coords,
                from_direction: bisectors[i2].unwrap(),
                to_direction: bisectors[i1].unwrap(),
            },
        )
    } else if b23 {
        let coords = vec![c3, c1, c2];
        assert(coords@ =~= chain_coords(points@, seq![i3, i1, i2]));
        Some(
            Boundary::Open {
                coords,
                from_direction: bisectors[i3].unwrap(),
                to_direction: bisectors[i2].unwrap(),
            },
        )
    } else if b31 {
        let coords = vec![c1, c2, c3];
        assert(coords@ =~= chain_coords(points@, seq![i1, i2, i3]));
        Some(
            Boundary::Open {
                coords,
                from_direction: bisectors[i1].unwrap(),
                to_direction: bisectors[i3].unwrap(),
            },
        )
    } else {
        let coords = vec![c1, c2, c3, c1];
        assert(coords@ =~= chain_coords(points@, seq![i1, i2, i3, i1]));
        Some(Boundary::Closed { coords })
    };
    let support_points = [c1, c2, c3];
    assert(support_points@ =~= expected.support_points);
    Face { boundary, support_points }
}

impl<T: Copy> CoordinateTransform<T> {
    /// Builds the mesh over a triangulation of `points`: one face for each
    /// triangle, in the order of the triangles. `directions[i]` is the
    /// bisector of the `i`-th corner of the hull, in the space of `points`.
    pub fn build_faces(points: &[Coord<T>], triangulation: &Triangulation, directions: &[Coord<T>]) -> (faces:
        Vec<Face<T>>)
        requires
            triangulation.fits(points.len() as nat),
            directions.len() == triangulation.hull.len(),
        ensures
            faces.len() == triangulation.triangles.len() / 3,
            forall|k: int|
                0 <= k < faces.len() ==> (#[trigger] faces[k])@ == face_view(
                    points@,
                    triangulation.hull@,
                    directions@,
                    triangle_at(triangulation.triangles@, k),
                ),
            forall|k: int| 0 <= k < faces.len() ==> (#[trigger] faces[k])@.wf(),
    {
        let hull = triangulation.hull.as_slice();
        let triangles = triangulation.triangles.as_slice();
        let bisectors = angle_bisectors(points.len(), hull, directions);
        let count: usize = triangles.len() / 3;
        let mut faces: Vec<Face<T>> = Vec::with_capacity(count);
        let mut k: usize = 0;
        while k < count
            invariant
                k <= count,
                count == triangles.len() / 3,
                triangles.len() % 3 == 0,
                hull@ == triangulation.hull@,
                triangles@ == triangulation.triangles@,
                forall|i: int| 0 <= i < triangles.len() ==> triangles[i] < points.len(),
                bisectors.len() == points.len(),
                forall|p: int|
                    0 <= p < points.len() ==> bisectors[p] == bisector_at(hull@, directions@, p as usize),
                faces.len() == k,
                forall|j: int|
                    0 <= j < k ==> (#[trigger] faces[j])@ == face_view(
                        points@,
                        hull@,
                        directions@,
                        triangle_at(triangles@, j),
                    ),
            decreases count - k,
        {
            let base: usize = 3 * k;
            let face = build_face(
                points,
                hull,
                &bisectors,
                Ghost(directions@),
                triangles[base],
                triangles[base + 1],
                triangles[base + 2],
            );
            faces.push(face);
            k += 1;
        }
        faces
    }
}

/// The two meshes of a transform by tie points: one over the points of
/// raster space, one over the points of model space, both over the one
/// triangulation of the points of raster space.
#[derive(Debug, PartialEq)]
pub struct Meshes<T> {
    pub raster_mesh: Vec<Face<T>>,
    pub model_mesh: Vec<Face<T>>,
}

impl<T> Meshes<T> {
    /// The two meshes have the same topology: they have as many faces, and
    /// face `i` of one is bounded in the same way as face `i` of the other.
    /// Every face is well formed.
    pub open spec fn wf(&self) -> bool {
        &&& self.raster_mesh.len() == self.model_mesh.len()
        &&& forall|i: int|
            0 <= i < self.raster_mesh.len() ==> {
                &&& (#[trigger] self.raster_mesh[i])@.wf()
                &&& self.model_mesh[i]@.wf()
                &&& self.raster_mesh[i]@.same_shape(self.model_mesh[i]@)
            }
    }
}

impl<T: Copy> CoordinateTransform<T> {
    /// Builds the two meshes of a transform by tie points over a
    /// triangulation of the points of raster space. `raster_directions[i]`
    /// and `model_directions[i]` are the bisectors of the `i`-th corner of
    /// the hull in the two spaces.
    pub fn build_meshes(
        raster_points: &[Coord<T>],
        model_points: &[Coord<T>],
        triangulation: &Triangulation,
        raster_directions: &[Coord<T>],
        model_directions: &[Coord<T>],
    ) -> (meshes: Meshes<T>)
        requires
            raster_points.len() == model_points.len(),
            triangulation.fits(raster_points.len() as nat),
            raster_directions.len() == triangulation.hull.len(),
            model_directions.len() == triangulation.hull.len(),
        ensures
            meshes.wf(),
            meshes.raster_mesh.len() == triangulation.triangles.len() / 3,
            forall|k: int|
                0 <= k < meshes.raster_mesh.len() ==> (#[trigger] meshes.raster_mesh[k])@ == face_view(
                    raster_points@,
                    triangulation.hull@,
                    raster_directions@,
                    triangle_at(triangulation.triangles@, k),
                ),
            forall|k: int|
                0 <= k < meshes.model_mesh.len() ==> (#[trigger] meshes.model_mesh[k])@ == face_view(
                    model_points@,
                    triangulation.hull@,
                    model_directions@,
                    triangle_at(triangulation.triangles@, k),
                ),
    {
        let raster_mesh = Self::build_faces(raster_points, triangulation, raster_directions);
        let model_mesh = Self::build_faces(model_points, triangulation, model_directions);
        assert forall|i: int| 0 <= i < raster_mesh.len() implies (#[trigger] raster_mesh[i])@.same_shape(
            model_mesh[i]@,
        ) by {
            lemma_meshes_share_topology(
                raster_points@,
                raster_directions@,
                model_points@,
                model_directions@,
                triangulation.hull@,
                triangle_at(triangulation.triangles@, i),
            );
        }
        Meshes { raster_mesh, model_mesh }
    }
}

/// Every face that is built over a triangle is well formed.
pub proof fn lemma_face_is_well_formed<T>(
    points: Seq<Coord<T>>,
    hull: Seq<usize>,
    directions: Seq<Coord<T>>,
    triangle: (usize, usize, usize),
)
    ensures
        face_view(points, hull, directions, triangle).wf(),
{
}

/// Two meshes over one triangulation have the same topology: over the same
/// triangle, the face of one mesh is bounded in the same way as the face of
/// the other, whatever the positions of the points and the bisectors are.
pub proof fn lemma_meshes_share_topology<T>(
    raster_points: Seq<Coord<T>>,
    raster_directions: Seq<Coord<T>>,
    model_points: Seq<Coord<T>>,
    model_directions: Seq<Coord<T>>,
    hull: Seq<usize>,
    triangle: (usize, usize, usize),
)
    ensures
        face_view(raster_points, hull, raster_directions, triangle).same_shape(
            face_view(model_points, hull, model_directions, triangle),
        ),
{
}

/// Over the same triangle, the faces of two meshes hold the positions of the
/// same points in the same places: the support points are the corners of the
/// triangle in their order, and the boundaries run over the same chain of
/// points.
pub proof fn lemma_faces_correspond<T>(
    raster_points: Seq<Coord<T>>,
    raster_directions: Seq<Coord<T>>,
    model_points: Seq<Coord<T>>,
    model_directions: Seq<Coord<T>>,
    hull: Seq<usize>,
    triangle: (usize, usize, usize),
)
    ensures
        ({
            let raster = face_view(raster_points, hull, raster_directions, triangle);
            let model = face_view(model_points, hull, model_directions, triangle);
            &&& raster.support_points == seq![
                raster_points[triangle.0 as int],
                raster_points[triangle.1 as int],
                raster_points[triangle.2 as int],
            ]
            &&& model.support_points == seq![
                model_points[triangle.0 as int],
                model_points[triangle.1 as int],
                model_points[triangle.2 as int],
            ]
            &&& match outline(hull, triangle) {
                Outline::Unbounded => raster.boundary is None && model.boundary is None,
                Outline::Open { chain } => {
                    &&& raster.boundary matches Some(BoundaryView::Open { coords, .. }) && coords
                        == chain_coords(raster_points, chain)
                    &&& model.boundary matches Some(BoundaryView::Open { coords, .. }) && coords
                        == chain_coords(model_points, chain)
                },
                Outline::Closed { chain } => {
                    &&& raster.boundary matches Some(BoundaryView::Closed { coords }) && coords
                        == chain_coords(raster_points, chain)
                    &&& model.boundary matches Some(BoundaryView::Closed { coords }) && coords
                        == chain_coords(model_points, chain)
                },
            }
        }),
{
}

/// The triangle `(a, b, c)` read from its second corner on.
pub open spec fn rotated(triangle: (usize, usize, usize)) -> (usize, usize, usize) {
    (triangle.1, triangle.2, triangle.0)
}

/// Whether a chain runs along exactly those edges of the triangle `(a, b, c)`
/// that do not lie on the hull, given that the chain starts at `a` and that
/// the edge from `c` back to `a` lies on the hull.
pub open spec fn chain_from_first(hull: Seq<usize>, triangle: (usize, usize, usize), chain: Seq<usize>) -> bool {
    let (a, b, c) = triangle;
    &&& on_hull(hull, c, a)
    &&& !on_hull(hull, a, b)
    &&& if on_hull(hull, b, c) {
        chain == seq![a, b]
    } else {
        chain == seq![a, b, c]
    }
}

/// A face is unbounded exactly if all edges of its triangle lie on the hull
/// and closed exactly if none does. Otherwise its boundary is open, and its
/// chain starts after the last edge on the hull and runs along the edges
/// that do not lie on the hull, up to the first edge on the hull.
pub proof fn lemma_outline_follows_inner_edges(hull: Seq<usize>, triangle: (usize, usize, usize))
    ensures
        match outline(hull, triangle) {
            Outline::Unbounded => on_hull(hull, triangle.0, triangle.1) && on_hull(
                hull,
                triangle.1,
                triangle.2,
            ) && on_hull(hull, triangle.2, triangle.0),
            Outline::Closed { chain } => !on_hull(hull, triangle.0, triangle.1) && !on_hull(
                hull,
                triangle.1,
                triangle.2,
            ) && !on_hull(hull, triangle.2, triangle.0) && chain == seq![
                triangle.0,
                triangle.1,
                triangle.2,
                triangle.0,
            ],
            Outline::Open { chain } => chain_from_first(hull, triangle, chain) || chain_from_first(
                hull,
                rotated(triangle),
                chain,
            ) || chain_from_first(hull, rotated(rotated(triangle)), chain),
        },
{
}

} // verus!

//! The value types shared by the converters: contours, polygons and path commands.
use vstd::prelude::*;

verus! {

/// One vertex sequence with an open/closed flag.
///
/// A closed contour has an implicit final edge from its last vertex back to
/// its first; the first vertex is never repeated at the end.
#[derive(Clone, Debug, PartialEq)]
pub struct Contour<P> {
    pub points: Vec<P>,
    pub closed: bool,
}

/// The mathematical value of a contour.
pub struct ContourView<P> {
    pub points: Seq<P>,
    pub closed: bool,
}

impl<P> View for Contour<P> {
    type V = ContourView<P>;

    open spec fn view(&self) -> ContourView<P> {
        ContourView { points: self.points@, closed: self.closed }
    }
}

/// The values of a sequence of contours, in order.
pub open spec fn contours_view<P>(cs: Seq<Contour<P>>) -> Seq<ContourView<P>> {
    cs.map_values(|c: Contour<P>| c@)
}

/// One exterior contour and the holes inside it, in order.
#[derive(Clone, Debug, PartialEq)]
pub struct Polygon<P> {
    pub exterior: Contour<P>,
    pub interiors: Vec<Contour<P>>,
}

/// The mathematical value of a polygon.
pub struct PolygonView<P> {
    pub exterior: ContourView<P>,
    pub interiors: Seq<ContourView<P>>,
}

impl<P> View for Polygon<P> {
    type V = PolygonView<P>;

    open spec fn view(&self) -> PolygonView<P> {
        PolygonView { exterior: self.exterior@, interiors: contours_view(self.interiors@) }
    }
}

/// The values of a sequence of polygons, in order.
pub open spec fn polygons_view<P>(ps: Seq<Polygon<P>>) -> Seq<PolygonView<P>> {
    ps.map_values(|p: Polygon<P>| p@)
}

/// One drawing command of a path.
#[derive(Clone, Copy, Debug, PartialEq, Eq)]
pub enum PathCommand<P> {
    /// Starts a sub-path at a point.
    Begin { at: P },
    /// A straight segment to a point.
    Line { to: P },
    /// A quadratic curve through one control point.
    Quadratic { ctrl: P, to: P },
    /// A cubic curve through two control points.
    Cubic { ctrl1: P, ctrl2: P, to: P },
    /// Ends the current sub-path, closing it back to its start or not.
    End { close: bool },
}

impl<P> Contour<P> {
    /// A contour with the given vertices and flag.
    pub fn new(points: Vec<P>, closed: bool) -> (r: Self)
        ensures
            r@.points == points@,
            r@.closed == closed,
    {
        Contour { points, closed }
    }

    /// The number of vertices.
    pub fn len(&self) -> (r: usize)
        ensures
            r == self@.points.len(),
    {
        self.points.len()
    }

    /// Whether the contour has no vertex.
    pub fn is_empty(&self) -> (r: bool)
        ensures
            r == (self@.points.len() == 0),
    {
        self.points.len() == 0
    }
}

impl<P> Polygon<P> {
    /// A polygon with the given exterior and holes.
    pub fn new(exterior: Contour<P>, interiors: Vec<Contour<P>>) -> (r: Self)
        ensures
            r@.exterior == exterior@,
            r@.interiors == contours_view(interiors@),
    {
        Polygon { exterior, interiors }
    }
}

} // verus!

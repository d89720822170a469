//! Reading contours as polygons (first contour the exterior, the rest holes)
//! and back.
use vstd::prelude::*;

use crate::emit::polygon_contours;
use crate::grouping::{group_contours, grouped, StreamError};
use crate::shapes::{
    contours_view, polygons_view, Contour, ContourView, PathCommand, Polygon, PolygonView,
};

verus! {

/// The contour with no vertex, closed, that an empty collection gives as exterior.
pub open spec fn empty_contour<P>() -> ContourView<P> {
    ContourView { points: seq![], closed: true }
}

/// The polygon that a collection of contours stands for: the first contour
/// is the exterior and every later one a hole, in order. No geometric check
/// is made. An empty collection gives an empty exterior and no hole.
pub open spec fn assembled<P>(cs: Seq<ContourView<P>>) -> PolygonView<P> {
    if cs.len() == 0 {
        PolygonView { exterior: empty_contour(), interiors: seq![] }
    } else {
        PolygonView { exterior: cs[0], interiors: cs.drop_first() }
    }
}

/// The polygon that a collection of contours stands for (see `assembled`).
pub fn assemble_polygon<P>(contours: Vec<Contour<P>>) -> (r: Polygon<P>)
    ensures
        r@ == assembled(contours_view(contours@)),
{
    let mut cs = contours;
    if cs.len() == 0 {
        let r = Polygon { exterior: Contour { points: Vec::new(), closed: true }, interiors: cs };
        assert(r@.exterior.points =~= empty_contour::<P>().points);
        assert(r@.interiors =~= Seq::<ContourView<P>>::empty());
        r
    } else {
        let ghost all = cs@;
        let exterior = cs.remove(0);
        assert(contours_view(cs@) =~= contours_view(all).drop_first());
        Polygon { exterior, interiors: cs }
    }
}

impl<P> Polygon<P> {
    /// The polygon's contours in order: the exterior first, then each hole.
    pub fn into_contours(self) -> (r: Vec<Contour<P>>)
        ensures
            contours_view(r@) == polygon_contours(self@),
    {
        let Polygon { exterior, interiors } = self;
        let ghost holes = interiors@;
        let mut out: Vec<Contour<P>> = Vec::new();
        out.push(exterior);
        let mut rest = interiors;
        out.append(&mut rest);
        assert(contours_view(out@) =~= seq![exterior@] + contours_view(holes));
        out
    }
}

/// Each contour as a polygon of its own, with no hole.
pub open spec fn lone_polygons<P>(cs: Seq<ContourView<P>>) -> Seq<PolygonView<P>> {
    cs.map_values(|c: ContourView<P>| PolygonView { exterior: c, interiors: seq![] })
}

/// Each contour as a polygon of its own, with no hole, in order.
pub fn contours_into_polygons<P>(contours: Vec<Contour<P>>) -> (r: Vec<Polygon<P>>)
    ensures
        polygons_view(r@) == lone_polygons(contours_view(contours@)),
{
    let mut out: Vec<Polygon<P>> = Vec::new();
    let mut rest = contours;
    let ghost all = rest@;
    while rest.len() > 0
        invariant
            out@.len() + rest@.len() == all.len(),
            rest@ == all.subrange(out@.len() as int, all.len() as int),
            polygons_view(out@) == lone_polygons(contours_view(all.subrange(0, out@.len() as int))),
        decreases rest.len(),
    {
        let ghost k: int = out@.len() as int;
        let c = rest.remove(0);
        let p = Polygon { exterior: c, interiors: Vec::new() };
        assert(p@.interiors =~= Seq::<ContourView<P>>::empty());
        let ghost prev = polygons_view(out@);
        out.push(p);
        assert(polygons_view(out@) =~= prev.push(p@));
        assert(rest@ =~= all.subrange(k + 1, all.len() as int));
        assert(polygons_view(out@) =~= lone_polygons(contours_view(all.subrange(0, k + 1))));
    }
    assert(all.subrange(0, all.len() as int) =~= all);
    out
}

impl<P> Contour<P> {
    /// The contour as a collection holding it alone.
    pub fn into_contours(self) -> (r: Vec<Contour<P>>)
        ensures
            contours_view(r@) == seq![self@],
    {
        let ghost v = self@;
        let mut out: Vec<Contour<P>> = Vec::new();
        out.push(self);
        assert(contours_view(out@) =~= seq![v]);
        out
    }

    /// The contour as a polygon: its own exterior, with no hole.
    pub fn into_polygon(self) -> (r: Polygon<P>)
        ensures
            r@ == assembled(seq![self@]),
    {
        assemble_polygon(self.into_contours())
    }
}

/// Groups a flattened stream into contours and reads them as one polygon:
/// the first contour ended is the exterior, the others are holes.
pub fn commands_into_polygon<P: Copy>(commands: &Vec<PathCommand<P>>) -> (r: Result<
    Polygon<P>,
    StreamError,
>)
    ensures
        match r {
            Ok(p) => grouped(commands@) is Ok && p@ == assembled(grouped(commands@)->Ok_0),
            Err(e) => grouped(commands@) == Err::<Seq<ContourView<P>>, StreamError>(e),
        },
{
    match group_contours(commands) {
        Ok(cs) => Ok(assemble_polygon(cs)),
        Err(e) => Err(e),
    }
}

/// Groups a flattened stream into contours and makes each a polygon of its
/// own, with no hole.
pub fn commands_into_polygons<P: Copy>(commands: &Vec<PathCommand<P>>) -> (r: Result<
    Vec<Polygon<P>>,
    StreamError,
>)
    ensures
        match r {
            Ok(ps) => grouped(commands@) is Ok && polygons_view(ps@) == lone_polygons(
                grouped(commands@)->Ok_0,
            ),
            Err(e) => grouped(commands@) == Err::<Seq<ContourView<P>>, StreamError>(e),
        },
{
    match group_contours(commands) {
        Ok(cs) => Ok(contours_into_polygons(cs)),
        Err(e) => Err(e),
    }
}

} // verus!

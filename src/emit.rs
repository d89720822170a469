//! Emitting contours and polygons as path commands.
use vstd::prelude::*;

use crate::shapes::{contours_view, Contour, ContourView, PathCommand, Polygon, PolygonView};

verus! {

/// One Line command to each point, in order.
pub open spec fn lines_to<P>(ps: Seq<P>) -> Seq<PathCommand<P>> {
    ps.map_values(|p: P| PathCommand::Line { to: p })
}

/// The commands of one contour: nothing for an empty contour, otherwise a
/// Begin at the first vertex, a Line to each later vertex and an End that
/// closes as the contour does.
pub open spec fn contour_commands<P>(c: ContourView<P>) -> Seq<PathCommand<P>> {
    if c.points.len() == 0 {
        seq![]
    } else {
        seq![PathCommand::Begin { at: c.points[0] }] + lines_to(c.points.drop_first()) + seq![
            PathCommand::End { close: c.closed },
        ]
    }
}

/// The commands of several contours: each one's own sub-path, in order.
pub open spec fn contours_commands<P>(cs: Seq<ContourView<P>>) -> Seq<PathCommand<P>>
    decreases cs.len(),
{
    if cs.len() == 0 {
        seq![]
    } else {
        contours_commands(cs.drop_last()) + contour_commands(cs.last())
    }
}

/// The contours of a polygon in order: the exterior, then each hole.
pub open spec fn polygon_contours<P>(p: PolygonView<P>) -> Seq<ContourView<P>> {
    seq![p.exterior] + p.interiors
}

/// Appends the commands of one contour to `out`.
fn push_contour<P: Copy>(out: &mut Vec<PathCommand<P>>, c: &Contour<P>)
    ensures
        final(out)@ == old(out)@ + contour_commands(c@),
{
    let n = c.points.len();
    if n == 0 {
        assert(old(out)@ + contour_commands(c@) =~= old(out)@);
        return;
    }
    let ghost start = out@;
    out.push(PathCommand::Begin { at: c.points[0] });
    let mut i: usize = 1;
    while i < n
        invariant
            1 <= i <= n,
            n == c@.points.len(),
            out@ == start + seq![PathCommand::Begin { at: c@.points[0] }] + lines_to(
                c@.points.subrange(1, i as int),
            ),
        decreases n - i,
    {
        let ghost before = out@;
        out.push(PathCommand::Line { to: c.points[i] });
        assert(lines_to(c@.points.subrange(1, i + 1)) =~= lines_to(
            c@.points.subrange(1, i as int),
        ).push(PathCommand::Line { to: c@.points[i as int] }));
        assert(out@ =~= start + seq![PathCommand::Begin { at: c@.points[0] }] + lines_to(
            c@.points.subrange(1, i + 1),
        ));
        i = i + 1;
    }
    out.push(PathCommand::End { close: c.closed });
    assert(c@.points.subrange(1, n as int) =~= c@.points.drop_first());
    assert(out@ =~= start + contour_commands(c@));
}

/// Appends the commands of each contour of `cs`, in order.
fn push_contours<P: Copy>(out: &mut Vec<PathCommand<P>>, cs: &Vec<Contour<P>>)
    ensures
        final(out)@ == old(out)@ + contours_commands(contours_view(cs@)),
{
    let ghost start = out@;
    let mut i: usize = 0;
    while i < cs.len()
        invariant
            0 <= i <= cs.len(),
            out@ == start + contours_commands(contours_view(cs@.subrange(0, i as int))),
        decreases cs.len() - i,
    {
        push_contour(out, &cs[i]);
        assert(contours_view(cs@.subrange(0, i + 1)).drop_last() =~= contours_view(
            cs@.subrange(0, i as int),
        ));
        assert(out@ =~= start + contours_commands(contours_view(cs@.subrange(0, i + 1))));
        i = i + 1;
    }
    assert(cs@.subrange(0, cs@.len() as int) =~= cs@);
}

impl<P: Copy> Contour<P> {
    /// The contour as a path: one sub-path, or no command at all when the
    /// contour has no vertex.
    pub fn into_path(self) -> (r: Vec<PathCommand<P>>)
        ensures
            r@ == contour_commands(self@),
    {
        let mut out: Vec<PathCommand<P>> = Vec::new();
        push_contour(&mut out, &self);
        assert(out@ =~= contour_commands(self@));
        out
    }
}

/// Several contours as one path: each contour's sub-path, in order, never
/// merged across contours.
pub fn contours_into_path<P: Copy>(cs: Vec<Contour<P>>) -> (r: Vec<PathCommand<P>>)
    ensures
        r@ == contours_commands(contours_view(cs@)),
{
    let mut out: Vec<PathCommand<P>> = Vec::new();
    push_contours(&mut out, &cs);
    assert(out@ =~= contours_commands(contours_view(cs@)));
    out
}

impl<P: Copy> Polygon<P> {
    /// The polygon as a path: the exterior's sub-path, then each hole's.
    ///
    /// Which sub-path was the exterior is not recorded in the commands; only
    /// the convention that the first one is can tell it again.
    pub fn into_path(self) -> (r: Vec<PathCommand<P>>)
        ensures
            r@ == contours_commands(polygon_contours(self@)),
    {
        let mut out: Vec<PathCommand<P>> = Vec::new();
        push_contour(&mut out, &self.exterior);
        push_contours(&mut out, &self.interiors);
        proof {
            lemma_commands_prepend(self@.exterior, self@.interiors);
        }
        assert(out@ =~= contours_commands(polygon_contours(self@)));
        out
    }
}

/// The commands of a contour put before others are its own, then theirs.
proof fn lemma_commands_prepend<P>(c: ContourView<P>, cs: Seq<ContourView<P>>)
    ensures
        contours_commands(seq![c] + cs) == contour_commands(c) + contours_commands(cs),
    decreases cs.len(),
{
    if cs.len() == 0 {
        assert((seq![c] + cs).drop_last() =~= Seq::<ContourView<P>>::empty());
        assert((seq![c] + cs).last() == c);
        assert(contours_commands(Seq::<ContourView<P>>::empty()) == Seq::<PathCommand<P>>::empty());
        assert(contours_commands(seq![c] + cs) =~= contour_commands(c) + contours_commands(cs));
    } else {
        assert((seq![c] + cs).drop_last() =~= seq![c] + cs.drop_last());
        lemma_commands_prepend(c, cs.drop_last());
        assert((seq![c] + cs).last() == cs.last());
        assert(contours_commands(seq![c] + cs) == contours_commands(seq![c] + cs.drop_last())
            + contour_commands(cs.last()));
        assert(contours_commands(seq![c] + cs) =~= contour_commands(c) + contours_commands(cs));
    }
}

} // verus!

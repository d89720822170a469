//! Properties that relate the converters to one another.
use vstd::prelude::*;

use crate::assembly::{assembled, empty_contour};
use crate::emit::{contour_commands, lines_to, polygon_contours};
use crate::grouping::{begin_buffer, group_state, group_step, grouped, GroupState, StreamError};
use crate::shapes::{ContourView, PathCommand, PolygonView};

verus! {

/// Reading a non-empty collection as a polygon and listing the polygon's
/// contours again gives back the collection unchanged.
pub proof fn law_contours_round_trip<P>(cs: Seq<ContourView<P>>)
    requires
        cs.len() > 0,
    ensures
        polygon_contours(assembled(cs)) == cs,
{
    assert(seq![cs[0]] + cs.drop_first() =~= cs);
}

/// A contour alone in a collection survives the trip through a polygon and
/// back unchanged.
pub proof fn law_single_contour_round_trip<P>(c: ContourView<P>)
    ensures
        polygon_contours(assembled(seq![c])) == seq![c],
{
    law_contours_round_trip(seq![c]);
}

/// Listing a polygon's contours and reading them as a polygon again gives
/// back the polygon unchanged.
pub proof fn law_polygon_round_trip<P>(p: PolygonView<P>)
    ensures
        assembled(polygon_contours(p)) == p,
{
    assert(polygon_contours(p).drop_first() =~= p.interiors);
}

/// A stream of one Begin, Lines and a closing End groups into one contour,
/// and emitting that contour gives the same stream back.
pub proof fn law_closed_stream_round_trip<P>(at: P, rest: Seq<P>)
    ensures
        ({
            let s = seq![PathCommand::Begin { at }] + lines_to(rest) + seq![
                PathCommand::End { close: true },
            ];
            &&& grouped(s) == Ok::<Seq<ContourView<P>>, StreamError>(
                seq![ContourView { points: seq![at] + rest, closed: true }],
            )
            &&& contour_commands(grouped(s)->Ok_0[0]) == s
        }),
{
    let s = seq![PathCommand::Begin { at }] + lines_to(rest) + seq![
        PathCommand::End { close: true },
    ];
    let c = ContourView { points: seq![at] + rest, closed: true };
    lemma_open_after_lines(at, rest);
    assert(s.drop_last() =~= seq![PathCommand::Begin { at }] + lines_to(rest));
    assert(grouped(s)->Ok_0 =~= seq![c]);
    assert(c.points.drop_first() =~= rest);
    assert(contour_commands(c) =~= s);
}

/// After a Begin and Lines, the buffer holds the Begin's point and then each
/// Line's point, and nothing has been completed.
proof fn lemma_open_after_lines<P>(at: P, rest: Seq<P>)
    ensures
        group_state(seq![PathCommand::Begin { at }] + lines_to(rest)) == (GroupState {
            done: seq![],
            open: Some(seq![at] + rest),
            fault: None,
        }),
    decreases rest.len(),
{
    let s = seq![PathCommand::Begin { at }] + lines_to(rest);
    if rest.len() == 0 {
        assert(s =~= seq![PathCommand::Begin { at }]);
        assert(s.drop_last() =~= Seq::<PathCommand<P>>::empty());
        assert(s.last() == PathCommand::Begin { at });
        assert(group_state(s.drop_last()) == group_state(Seq::<PathCommand<P>>::empty()));
        assert(group_state(s) == group_step(group_state(s.drop_last()), s.last()));
        assert(seq![at] + rest =~= seq![at]);
    } else {
        lemma_open_after_lines(at, rest.drop_last());
        assert(s.drop_last() =~= seq![PathCommand::Begin { at }] + lines_to(rest.drop_last()));
        assert(s.last() == PathCommand::Line { to: rest.last() });
        assert((seq![at] + rest.drop_last()).push(rest.last()) =~= seq![at] + rest);
        assert(group_state(s) == group_step(group_state(s.drop_last()), s.last()));
    }
}

/// Grouping the empty stream gives no contour and no fault.
pub proof fn law_group_empty<P>()
    ensures
        grouped(Seq::<PathCommand<P>>::empty()) == Ok::<Seq<ContourView<P>>, StreamError>(
            seq![],
        ),
{
}

/// A Begin drops whatever buffer an earlier Begin left open: the completed
/// contours stay as they were and the new buffer holds the Begin's point alone.
pub proof fn law_begin_drops_open_buffer<P>(s: Seq<PathCommand<P>>, at: P)
    requires
        group_state(s).fault is None,
    ensures
        group_state(s.push(PathCommand::Begin { at })) == (GroupState {
            done: group_state(s).done,
            open: Some(begin_buffer(at)),
            fault: None,
        }),
{
    assert(s.push(PathCommand::Begin { at }).drop_last() =~= s);
}

/// An empty collection reads as a polygon whose exterior has no vertex and
/// which has no hole.
pub proof fn law_assemble_empty<P>()
    ensures
        assembled(Seq::<ContourView<P>>::empty()).exterior == empty_contour::<P>(),
        assembled(Seq::<ContourView<P>>::empty()).exterior.points.len() == 0,
        assembled(Seq::<ContourView<P>>::empty()).interiors.len() == 0,
{
}

} // verus!

//! Grouping a flattened command stream (Begin, Line and End only) into contours.
use vstd::prelude::*;

use crate::shapes::{contours_view, Contour, ContourView, PathCommand};

verus! {

/// Why a command stream could not be grouped into contours.
#[derive(Clone, Copy, Debug, PartialEq, Eq, Structural)]
pub enum StreamError {
    /// A Line came while no sub-path was open.
    LineOutsideContour,
    /// An End came while no sub-path was open.
    EndOutsideContour,
    /// A curve came that should have been flattened into lines first.
    UnflattenedCurve,
}

/// The grouper's state after a prefix of the stream: the contours already
/// completed, the vertices of the sub-path still open, and the first fault met.
pub struct GroupState<P> {
    pub done: Seq<ContourView<P>>,
    pub open: Option<Seq<P>>,
    pub fault: Option<StreamError>,
}

/// What a Begin does to the open buffer: it starts afresh at `at`, and
/// whatever an earlier Begin left unterminated is dropped without a trace.
pub open spec fn begin_buffer<P>(at: P) -> Seq<P> {
    seq![at]
}

/// The grouper's state after one more command.
pub open spec fn group_step<P>(st: GroupState<P>, c: PathCommand<P>) -> GroupState<P> {
    if st.fault is Some {
        st
    } else {
        match c {
            PathCommand::Begin { at } => GroupState { open: Some(begin_buffer(at)), ..st },
            PathCommand::Line { to } => match st.open {
                Some(b) => GroupState { open: Some(b.push(to)), ..st },
                None => GroupState { fault: Some(StreamError::LineOutsideContour), ..st },
            },
            PathCommand::End { close } => match st.open {
                Some(b) => GroupState {
                    done: st.done.push(ContourView { points: b, closed: close }),
                    open: None,
                    fault: None,
                },
                None => GroupState { fault: Some(StreamError::EndOutsideContour), ..st },
            },
            _ => GroupState { fault: Some(StreamError::UnflattenedCurve), ..st },
        }
    }
}

/// The grouper's state after the whole of `s`, starting idle.
pub open spec fn group_state<P>(s: Seq<PathCommand<P>>) -> GroupState<P>
    decreases s.len(),
{
    if s.len() == 0 {
        GroupState { done: seq![], open: None, fault: None }
    } else {
        group_step(group_state(s.drop_last()), s.last())
    }
}

/// The contours that `s` groups into, in the order of their End commands,
/// or the first fault of the stream.
pub open spec fn grouped<P>(s: Seq<PathCommand<P>>) -> Result<Seq<ContourView<P>>, StreamError> {
    let st = group_state(s);
    match st.fault {
        Some(e) => Err(e),
        None => Ok(st.done),
    }
}

/// The value of an open buffer.
pub open spec fn buffer_view<P>(b: Option<Vec<P>>) -> Option<Seq<P>> {
    match b {
        Some(v) => Some(v@),
        None => None,
    }
}

/// Once a fault is met, no later command changes the state.
proof fn lemma_fault_persists<P>(s: Seq<PathCommand<P>>, i: int)
    requires
        0 <= i <= s.len(),
        group_state(s.subrange(0, i)).fault is Some,
    ensures
        group_state(s) == group_state(s.subrange(0, i)),
    decreases s.len() - i,
{
    if i < s.len() {
        assert(s.subrange(0, i + 1).drop_last() =~= s.subrange(0, i));
        lemma_fault_persists(s, i + 1);
    } else {
        assert(s.subrange(0, i) =~= s);
    }
}

/// Starts a new sub-path at `at`, dropping any buffer left open before.
fn begin_contour<P>(open: &mut Option<Vec<P>>, at: P)
    ensures
        buffer_view(*final(open)) == Some(begin_buffer(at)),
{
    let mut b: Vec<P> = Vec::new();
    b.push(at);
    *open = Some(b);
}

/// Groups a stream of Begin, Line and End commands into contours.
///
/// Each Begin starts a buffer with its point, each Line appends its point,
/// and each End turns the buffer into a contour closed as the End says. A
/// Begin while a buffer is open drops that buffer. A Line or End with no open
/// buffer, or any curve, is a fault of the stream and fails the whole call.
pub fn group_contours<P: Copy>(commands: &Vec<PathCommand<P>>) -> (r: Result<
    Vec<Contour<P>>,
    StreamError,
>)
    ensures
        match r {
            Ok(cs) => grouped(commands@) == Ok::<Seq<ContourView<P>>, StreamError>(
                contours_view(cs@),
            ),
            Err(e) => grouped(commands@) == Err::<Seq<ContourView<P>>, StreamError>(e),
        },
{
    let mut out: Vec<Contour<P>> = Vec::new();
    let mut open: Option<Vec<P>> = None;
    let mut i: usize = 0;
    while i < commands.len()
        invariant
            0 <= i <= commands.len(),
            group_state(commands@.subrange(0, i as int)).fault is None,
            group_state(commands@.subrange(0, i as int)).done == contours_view(out@),
            group_state(commands@.subrange(0, i as int)).open == buffer_view(open),
        decreases commands.len() - i,
    {
        let c = commands[i];
        assert(commands@.subrange(0, i + 1).drop_last() =~= commands@.subrange(0, i as int));
        let ghost next = commands@.subrange(0, i + 1);
        match c {
            PathCommand::Begin { at } => {
                begin_contour(&mut open, at);
            },
            PathCommand::Line { to } => {
                let cur = open;
                match cur {
                    Some(mut b) => {
                        b.push(to);
                        open = Some(b);
                    },
                    None => {
                        proof {
                            lemma_fault_persists(commands@, i + 1);
                        }
                        return Err(StreamError::LineOutsideContour);
                    },
                }
            },
            PathCommand::End { close } => {
                let cur = open;
                match cur {
                    Some(b) => {
                        let contour = Contour { points: b, closed: close };
                        out.push(contour);
                        open = None;
                        assert(contours_view(out@) =~= group_state(next).done);
                    },
                    None => {
                        proof {
                            lemma_fault_persists(commands@, i + 1);
                        }
                        return Err(StreamError::EndOutsideContour);
                    },
                }
            },
            _ => {
                proof {
                    lemma_fault_persists(commands@, i + 1);
                }
                return Err(StreamError::UnflattenedCurve);
            },
        }
        i = i + 1;
    }
    assert(commands@.subrange(0, commands@.len() as int) =~= commands@);
    Ok(out)
}

} // verus!

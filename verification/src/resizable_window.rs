//! A corner of the editor's window that can be dragged in order to resize it.
//!
//! Resizing goes through the plugin API, so the window cannot be resized by its frame.

use vstd::prelude::*;

use crate::scalar::{Scalar, Vec2, ONE};

verus! {

/// Adds a corner to the plugin window that can be dragged in order to resize it.
pub struct ResizableWindow<I> {
    /// Under this identity the drag is remembered between frames.
    pub id: I,
    pub min_size: Vec2,
    pub max_size: Option<Vec2>,
}

/// How the corner was used in a frame.
#[derive(Clone, Copy, Debug, PartialEq, Eq, Structural)]
pub struct CornerResponse {
    pub dragged: bool,
    /// How far the pointer is from where the drag began.
    pub total_drag_delta: Option<Vec2>,
    pub drag_stopped: bool,
}

/// A drag in progress. The size that is wanted is `start_window_size` plus `delta`.
#[derive(Clone, Copy, Debug, PartialEq, Eq, Structural)]
pub struct Drag {
    pub start_window_size: Vec2,
    pub delta: Vec2,
}

/// The drag that a frame goes on with: it is measured from the size that the window had when the
/// drag began.
pub open spec fn drag_of(start: Option<Vec2>, corner: CornerResponse, window_size: Vec2) -> Option<
    Drag,
> {
    if corner.dragged && corner.total_drag_delta is Some {
        Some(
            Drag {
                start_window_size: match start {
                    Some(size) => size,
                    None => window_size,
                },
                delta: corner.total_drag_delta->0,
            },
        )
    } else {
        None
    }
}

/// What is remembered of a drag after a frame: the size that it began with, until it stops.
pub open spec fn start_after(start: Option<Vec2>, corner: CornerResponse, window_size: Vec2)
    -> Option<Vec2> {
    match drag_of(start, corner, window_size) {
        Some(drag) => Some(drag.start_window_size),
        None => if corner.drag_stopped {
            None
        } else {
            start
        },
    }
}

impl<I> ResizableWindow<I> {
    /// A window that is at least one point wide and high.
    pub fn new(id: I) -> (r: ResizableWindow<I>)
        ensures
            r.id == id,
            r.min_size == (Vec2 { x: Scalar { bits: ONE }, y: Scalar { bits: ONE } }),
            r.max_size is None,
    {
        ResizableWindow {
            id,
            min_size: Vec2 { x: Scalar { bits: ONE }, y: Scalar { bits: ONE } },
            max_size: None,
        }
    }

    /// The window with another smallest size.
    pub open spec fn from_size(self, min_size: Vec2) -> ResizableWindow<I> {
        ResizableWindow { min_size, ..self }
    }

    /// The window with another largest size.
    pub open spec fn to_size(self, max_size: Vec2) -> ResizableWindow<I> {
        ResizableWindow { max_size: Some(max_size), ..self }
    }

    pub fn min_size(self, min_size: Vec2) -> (r: ResizableWindow<I>)
        ensures
            r == (ResizableWindow { min_size, ..self }),
            r == self.from_size(min_size),
    {
        ResizableWindow { id: self.id, min_size, max_size: self.max_size }
    }

    pub fn max_size(self, max_size: Vec2) -> (r: ResizableWindow<I>)
        ensures
            r == (ResizableWindow { max_size: Some(max_size), ..self }),
            r == self.to_size(max_size),
    {
        ResizableWindow { id: self.id, min_size: self.min_size, max_size: Some(max_size) }
    }

    /// Takes in how the corner was used in a frame in which the window has `window_size`.
    /// `start` is what is remembered of a drag.
    ///
    /// Where there is a drag, the window is to be given the
    /// [`desired_size`](Self::desired_size) for it.
    pub fn show(&self, start: &mut Option<Vec2>, corner: CornerResponse, window_size: Vec2) -> (r:
        Option<Drag>)
        ensures
            r == drag_of(*old(start), corner, window_size),
            *final(start) == start_after(*old(start), corner, window_size),
    {
        if corner.dragged {
            if let Some(delta) = corner.total_drag_delta {
                let start_window_size: Vec2 = match *start {
                    Some(size) => size,
                    None => window_size,
                };
                *start = Some(start_window_size);
                return Some(Drag { start_window_size, delta });
            }
        }
        if corner.drag_stopped {
            *start = None;
        }
        None
    }

    /// A size, brought between the least and the greatest one. Where these contradict each other
    /// the greatest one prevails.
    pub open spec fn bounded(self, size: Vec2) -> Vec2 {
        let raised = Vec2 {
            x: size.x.larger(self.min_size.x),
            y: size.y.larger(self.min_size.y),
        };
        match self.max_size {
            Some(max) => Vec2 { x: raised.x.smaller(max.x), y: raised.y.smaller(max.y) },
            None => raised,
        }
    }

    /// The size to ask for when a drag arrives at `size`.
    pub fn desired_size(&self, size: Vec2) -> (r: Vec2)
        ensures
            r == self.bounded(size),
    {
        let raised: Vec2 = Vec2 {
            x: size.x.max(self.min_size.x),
            y: size.y.max(self.min_size.y),
        };
        match self.max_size {
            Some(max) => Vec2 { x: raised.x.min(max.x), y: raised.y.min(max.y) },
            None => raised,
        }
    }
}

/// A drag is measured from the size that the window had in its first frame, however the window is
/// resized while it lasts.
pub proof fn a_drag_is_measured_from_its_start(
    first: CornerResponse,
    first_size: Vec2,
    later: CornerResponse,
    later_size: Vec2,
)
    requires
        first.dragged && first.total_drag_delta is Some,
        later.dragged && later.total_drag_delta is Some,
    ensures
        ({
            let start = start_after(None, first, first_size);
            &&& drag_of(start, later, later_size) == Some(
                Drag { start_window_size: first_size, delta: later.total_drag_delta->0 },
            )
            &&& start_after(start, later, later_size) == start
        }),
{
}

/// A drag that stops is forgotten: the next one is measured from the size that the window has then.
pub proof fn a_stopped_drag_is_forgotten(
    start: Option<Vec2>,
    stopped: CornerResponse,
    size: Vec2,
    next: CornerResponse,
    next_size: Vec2,
)
    requires
        !stopped.dragged && stopped.drag_stopped,
        next.dragged && next.total_drag_delta is Some,
    ensures
        drag_of(start_after(start, stopped, size), next, next_size) == Some(
            Drag { start_window_size: next_size, delta: next.total_drag_delta->0 },
        ),
{
}

/// A frame in which the corner is left alone asks for nothing and remembers what was remembered.
pub proof fn an_idle_corner_changes_nothing(
    start: Option<Vec2>,
    corner: CornerResponse,
    window_size: Vec2,
)
    requires
        !corner.dragged,
        !corner.drag_stopped,
    ensures
        drag_of(start, corner, window_size) is None,
        start_after(start, corner, window_size) == start,
{
}

/// The size that is asked for is never below the least size nor above the greatest one, as long as
/// these do not contradict each other, whatever the drag arrives at.
pub proof fn desired_sizes_are_bounded<I>(window: ResizableWindow<I>, size: Vec2)
    requires
        !window.min_size.x.is_nan() && !window.min_size.y.is_nan(),
        window.max_size matches Some(max) ==> window.min_size.x.within(window.min_size.x, max.x)
            && window.min_size.y.within(window.min_size.y, max.y),
    ensures
        !window.bounded(size).x.below(window.min_size.x),
        !window.bounded(size).y.below(window.min_size.y),
        window.max_size matches Some(max) ==> window.bounded(size).x.within(
            window.min_size.x,
            max.x,
        ) && window.bounded(size).y.within(window.min_size.y, max.y),
{
}

/// A size that is already between the least and the greatest one is asked for as it is.
pub proof fn acceptable_sizes_are_kept<I>(window: ResizableWindow<I>, size: Vec2)
    requires
        !size.x.is_nan() && !size.x.below(window.min_size.x),
        !size.y.is_nan() && !size.y.below(window.min_size.y),
        window.max_size matches Some(max) ==> !max.x.below(size.x) && !max.y.below(size.y),
    ensures
        window.bounded(size) == size,
{
}

/// A size that is too small becomes the least one, and one that is too large the greatest one, along
/// each axis by itself.
pub proof fn desired_sizes_are_moved_to_the_nearer_bound<I>(window: ResizableWindow<I>, size: Vec2)
    requires
        !window.min_size.x.is_nan() && !window.min_size.y.is_nan(),
        window.max_size matches Some(max) ==> window.min_size.x.within(window.min_size.x, max.x)
            && window.min_size.y.within(window.min_size.y, max.y),
    ensures
        size.x.below(window.min_size.x) ==> window.bounded(size).x == window.min_size.x,
        size.y.below(window.min_size.y) ==> window.bounded(size).y == window.min_size.y,
        window.max_size matches Some(max) ==> max.x.below(size.x) ==> window.bounded(size).x == max.x,
        window.max_size matches Some(max) ==> max.y.below(size.y) ==> window.bounded(size).y == max.y,
        window.max_size is None && window.min_size.x.below(size.x) ==> window.bounded(size).x
            == size.x,
        window.max_size is None && window.min_size.y.below(size.y) ==> window.bounded(size).y
            == size.y,
{
}

/// There is a drag exactly where the corner is dragged over a distance, and it is over that
/// distance; it is measured from the size that is remembered, or else from the window's. A corner
/// that is let go without one forgets.
pub proof fn a_drag_has_its_distance(
    start: Option<Vec2>,
    corner: CornerResponse,
    window_size: Vec2,
)
    ensures
        drag_of(start, corner, window_size) is Some <==> corner.dragged
            && corner.total_drag_delta is Some,
        drag_of(start, corner, window_size) matches Some(drag) ==> {
            &&& corner.total_drag_delta == Some(drag.delta)
            &&& start matches Some(size) ==> drag.start_window_size == size
            &&& start is None ==> drag.start_window_size == window_size
            &&& start_after(start, corner, window_size) == Some(drag.start_window_size)
        },
        drag_of(start, corner, window_size) is None && corner.drag_stopped ==> start_after(
            start,
            corner,
            window_size,
        ) is None,
        drag_of(start, corner, window_size) is None && !corner.drag_stopped ==> start_after(
            start,
            corner,
            window_size,
        ) == start,
{
}

/// The smallest and the largest size are given by themselves, in whichever order: the last of each
/// counts, and the window keeps its identifier.
pub proof fn bounds_are_given_one_by_one<I>(
    window: ResizableWindow<I>,
    min_size: Vec2,
    max_size: Vec2,
)
    ensures
        window.from_size(min_size).min_size == min_size,
        window.from_size(min_size).max_size == window.max_size,
        window.from_size(min_size).id == window.id,
        window.to_size(max_size).max_size == Some(max_size),
        window.to_size(max_size).min_size == window.min_size,
        window.to_size(max_size).id == window.id,
        window.to_size(max_size).from_size(min_size) == window.from_size(min_size).to_size(
            max_size,
        ),
{
}

} // verus!

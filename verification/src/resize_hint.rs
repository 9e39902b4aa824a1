//! Whether and how the host may resize an editor.

use vstd::prelude::*;

use crate::size::{PixelSize, Size};

verus! {

/// The least and the greatest size of an editor, both in one unit.
#[derive(Clone, Copy, Debug)]
pub enum SizeConstraints<L> {
    Logical { min_size: Option<L>, max_size: Option<L> },
    Physical { min_size: Option<PixelSize>, max_size: Option<PixelSize> },
}

/// The least and the greatest size of a window, each with its unit.
#[derive(Clone, Copy, Debug)]
pub struct WindowLimits<L> {
    pub min_size: Option<Size<L>>,
    pub max_size: Option<Size<L>>,
}

/// Whether and how the host may resize an editor. `X` holds what only the host reads: per-axis
/// flags and an aspect ratio that refine how.
#[derive(Clone, Copy, Debug)]
pub struct ResizeHint<L, X> {
    pub can_resize: bool,
    pub size_constraints: SizeConstraints<L>,
    pub refinement: X,
}

/// A size in logical pixels, where there is one.
pub open spec fn in_logical<L>(size: Option<L>) -> Option<Size<L>> {
    match size {
        Some(s) => Some(Size::Logical(s)),
        None => None,
    }
}

/// A size in physical pixels, where there is one.
pub open spec fn in_physical<L>(size: Option<PixelSize>) -> Option<Size<L>> {
    match size {
        Some(s) => Some(Size::Physical(s)),
        None => None,
    }
}

fn logical_size<L>(size: Option<L>) -> (r: Option<Size<L>>)
    ensures
        r == in_logical(size),
{
    match size {
        Some(s) => Some(Size::Logical(s)),
        None => None,
    }
}

fn physical_size<L>(size: Option<PixelSize>) -> (r: Option<Size<L>>)
    ensures
        r == in_physical::<L>(size),
{
    match size {
        Some(s) => Some(Size::Physical(s)),
        None => None,
    }
}

impl<L> SizeConstraints<L> {
    /// The least size, in the unit of the constraints.
    pub open spec fn smallest(self) -> Option<Size<L>> {
        match self {
            SizeConstraints::Logical { min_size, .. } => in_logical(min_size),
            SizeConstraints::Physical { min_size, .. } => in_physical(min_size),
        }
    }

    /// The greatest size, in the unit of the constraints.
    pub open spec fn largest(self) -> Option<Size<L>> {
        match self {
            SizeConstraints::Logical { max_size, .. } => in_logical(max_size),
            SizeConstraints::Physical { max_size, .. } => in_physical(max_size),
        }
    }

    /// The limits of a window with these constraints.
    pub fn limits(self) -> (r: WindowLimits<L>)
        ensures
            r.min_size == self.smallest(),
            r.max_size == self.largest(),
            self matches SizeConstraints::Logical { min_size, max_size } ==> (r.min_size is Some
                <==> min_size is Some) && (r.max_size is Some <==> max_size is Some),
            self matches SizeConstraints::Physical { min_size, max_size } ==> (r.min_size is Some
                <==> min_size is Some) && (r.max_size is Some <==> max_size is Some),
    {
        match self {
            SizeConstraints::Logical { min_size, max_size } => WindowLimits {
                min_size: logical_size(min_size),
                max_size: logical_size(max_size),
            },
            SizeConstraints::Physical { min_size, max_size } => WindowLimits {
                min_size: physical_size(min_size),
                max_size: physical_size(max_size),
            },
        }
    }
}

impl<L, X> ResizeHint<L, X> {
    /// The hint of an editor that is not resizable and has no constraints.
    pub open spec fn fixed(refinement: X) -> ResizeHint<L, X> {
        ResizeHint {
            can_resize: false,
            size_constraints: SizeConstraints::Logical { min_size: None, max_size: None },
            refinement,
        }
    }

    /// The hint of an editor that is not resizable.
    pub fn new(refinement: X) -> (r: ResizeHint<L, X>)
        ensures
            r == ResizeHint::<L, X>::fixed(refinement),
    {
        ResizeHint {
            can_resize: false,
            size_constraints: SizeConstraints::Logical { min_size: None, max_size: None },
            refinement,
        }
    }
}

/// A window has a least size exactly where the constraints have one, and a greatest size exactly
/// where they have one: each is that size, in the unit of the constraints.
pub proof fn every_limit_is_passed_on<L>(constraints: SizeConstraints<L>)
    ensures
        constraints matches SizeConstraints::Logical { min_size, max_size } ==> {
            &&& constraints.smallest() is Some <==> min_size is Some
            &&& constraints.largest() is Some <==> max_size is Some
            &&& min_size matches Some(min) ==> constraints.smallest() == Some(Size::Logical(min))
            &&& max_size matches Some(max) ==> constraints.largest() == Some(Size::Logical(max))
        },
        constraints matches SizeConstraints::Physical { min_size, max_size } ==> {
            &&& constraints.smallest() is Some <==> min_size is Some
            &&& constraints.largest() is Some <==> max_size is Some
            &&& min_size matches Some(min) ==> constraints.smallest() == Some(
                Size::<L>::Physical(min),
            )
            &&& max_size matches Some(max) ==> constraints.largest() == Some(
                Size::<L>::Physical(max),
            )
        },
{
}

/// An editor that says nothing of resizing is not resizable, and has no limits.
pub proof fn an_editor_is_fixed_by_default<L, X>(refinement: X)
    ensures
        !ResizeHint::<L, X>::fixed(refinement).can_resize,
        ResizeHint::<L, X>::fixed(refinement).size_constraints.smallest() is None,
        ResizeHint::<L, X>::fixed(refinement).size_constraints.largest() is None,
        ResizeHint::<L, X>::fixed(refinement).refinement == refinement,
{
}

} // verus!

//! What every control does the same way: how its requested size becomes a
//! size policy when it is drawn, what its visibility means for the widget,
//! what a resize event sets, and whether a change has to travel up to the
//! parent.
use vstd::prelude::*;
use crate::geometry::{coord_to_size, size_of};
use crate::layout::{LayoutParams, Size, Visibility};

verus! {

/// How a widget may grow or shrink along one dimension.
#[derive(Clone, Copy, Debug, PartialEq, Eq, Structural)]
pub enum SizePolicy {
    /// Prefers to grow into the room offered.
    Expanding,
    /// Takes at least what it needs and may grow.
    Minimum,
    /// Takes exactly its size.
    Fixed,
}

/// The constraint set on a widget along one dimension before its policy.
#[derive(Clone, Copy, Debug, PartialEq, Eq, Structural)]
pub enum ExtentConstraint {
    /// At least this many pixels.
    AtLeast(i32),
    /// Exactly this many pixels.
    Exactly(i32),
}

/// The policy and constraint for one requested dimension: filling the parent
/// expands from a minimum of one pixel, wrapping the content takes a minimum of
/// one pixel, an exact size is fixed.
pub open spec fn policy_for(size: Size) -> (SizePolicy, ExtentConstraint) {
    match size {
        Size::MatchParent => (SizePolicy::Expanding, ExtentConstraint::AtLeast(1)),
        Size::WrapContent => (SizePolicy::Minimum, ExtentConstraint::AtLeast(1)),
        Size::Exact(v) => (SizePolicy::Fixed, ExtentConstraint::Exactly(v as i32)),
    }
}

/// Works out the size policy and constraint of one dimension.
pub fn size_policy(size: Size) -> (r: (SizePolicy, ExtentConstraint))
    ensures
        r == policy_for(size),
        size == Size::MatchParent ==> r == (SizePolicy::Expanding, ExtentConstraint::AtLeast(1)),
        size == Size::WrapContent ==> r == (SizePolicy::Minimum, ExtentConstraint::AtLeast(1)),
        size matches Size::Exact(v) ==> r == (SizePolicy::Fixed, ExtentConstraint::Exactly(v as i32)),
{
    match size {
        Size::MatchParent => (SizePolicy::Expanding, ExtentConstraint::AtLeast(1)),
        Size::WrapContent => (SizePolicy::Minimum, ExtentConstraint::AtLeast(1)),
        Size::Exact(v) => (SizePolicy::Fixed, ExtentConstraint::Exactly(v as i32)),
    }
}

/// What drawing a control sets on its widget: a policy and constraint for the
/// width, then for the height. A control that has not been placed yet is not
/// drawn.
pub fn draw_plan(placed: bool, params: LayoutParams) -> (r: Option<
    ((SizePolicy, ExtentConstraint), (SizePolicy, ExtentConstraint)),
>)
    ensures
        placed ==> r == Some((policy_for(params.width), policy_for(params.height))),
        !placed ==> r is None,
{
    if placed {
        Some((size_policy(params.width), size_policy(params.height)))
    } else {
        None
    }
}

/// What a visibility means for the widget: whether it keeps its room while
/// hidden (unless gone), and whether it is shown (only when visible).
pub fn visibility_flags(visibility: Visibility) -> (r: (bool, bool))
    ensures
        r.0 == (visibility != Visibility::Gone),
        r.1 == (visibility == Visibility::Visible),
{
    (visibility != Visibility::Gone, visibility == Visibility::Visible)
}

/// An event that a widget reports.
#[derive(Clone, Copy, Debug, PartialEq, Eq, Structural)]
pub enum WidgetEvent {
    /// The widget now has this width and height.
    Resize(i32, i32),
    /// The widget is asked to close.
    Close,
    /// The widget was hidden.
    Hide,
    /// The widget is being destroyed.
    Destroy,
    /// Any other event.
    Other,
}

/// The size a control takes on from a resize event of its widget.
pub fn resized(width: i32, height: i32) -> (r: (u16, u16))
    ensures
        r == (size_of(width), size_of(height)),
{
    (coord_to_size(width), coord_to_size(height))
}

/// Whether a control that has been measured again inside its parent asks the
/// parent to do the same: only when its size changed, the parent is itself a
/// control, and the parent is not skipping its drawing.
pub fn propagates_invalidation(changed: bool, parent_is_control: bool, parent_skips_draw: bool) -> (r: bool)
    ensures
        r == (changed && parent_is_control && !parent_skips_draw),
{
    parent_is_control && changed && !parent_skips_draw
}

/// The pixel bounds a text label pins itself to after a resize, in each
/// dimension where it wraps its content: the new size there becomes both its
/// minimum and its maximum.
pub fn text_wrap_limits(params: LayoutParams, size: (u16, u16)) -> (r: (Option<i32>, Option<i32>))
    ensures
        r.0 == if params.width == Size::WrapContent {
            Some(size.0 as i32)
        } else {
            None
        },
        r.1 == if params.height == Size::WrapContent {
            Some(size.1 as i32)
        } else {
            None
        },
{
    (
        if params.width == Size::WrapContent {
            Some(size.0 as i32)
        } else {
            None
        },
        if params.height == Size::WrapContent {
            Some(size.1 as i32)
        } else {
            None
        },
    )
}

} // verus!

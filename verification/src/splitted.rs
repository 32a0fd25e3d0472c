//! The split pane: two children side by side (or one above the other) with a
//! draggable handle between them. Where the handle sits is a fraction of the
//! pane; scaling by that fraction is floating point and is done by the caller,
//! everything around it is here.
use vstd::prelude::*;
use crate::geometry::{coord_to_size, size_of, resolved, resolve};
use crate::layout::{LayoutParams, Margins, Orientation, Size, Visibility};
use crate::geometry::{fits_i32, half_toward_zero};
use crate::linear::{children_extent, children_wrap_extent, ChildExtent};

verus! {

/// The extent being split and the margins at its two ends.
pub struct SplitAxis {
    pub target: u16,
    pub start: i32,
    pub end: i32,
}

/// Picks the extent that the handle divides: the width and the left and right
/// margins for a horizontal pane, the height and the top and bottom margins
/// for a vertical one.
pub fn split_axis(orientation: Orientation, measured: (u16, u16), margins: Margins) -> (r: SplitAxis)
    ensures
        orientation == Orientation::Horizontal ==> r.target == measured.0 && r.start
            == margins.left && r.end == margins.right,
        orientation == Orientation::Vertical ==> r.target == measured.1 && r.start == margins.top
            && r.end == margins.bottom,
{
    match orientation {
        Orientation::Horizontal => SplitAxis {
            target: measured.0,
            start: margins.left,
            end: margins.right,
        },
        Orientation::Vertical => SplitAxis { target: measured.1, start: margins.top, end: margins.bottom },
    }
}

/// The size one side of the handle gets from its scaled share of the extent:
/// the share less the margin at its end and half the handle.
pub open spec fn side_size(scaled: i32, margin: i32, handle: i32) -> u16 {
    size_of((scaled - margin - half_toward_zero(handle as int)) as i32)
}

/// Computes the sizes of the two children from their scaled shares of the
/// extent (the extent times the handle's fraction, and times its complement).
pub fn children_sizes(
    first_scaled: i32,
    second_scaled: i32,
    axis: &SplitAxis,
    handle: i32,
) -> (r: (u16, u16))
    requires
        fits_i32(first_scaled - axis.start),
        fits_i32(first_scaled - axis.start - half_toward_zero(handle as int)),
        fits_i32(second_scaled - axis.end),
        fits_i32(second_scaled - axis.end - half_toward_zero(handle as int)),
    ensures
        r == (side_size(first_scaled, axis.start, handle), side_size(second_scaled, axis.end, handle)),
        handle >= 0 ==> r.0 == size_of((first_scaled - axis.start - handle / 2) as i32),
        handle >= 0 ==> r.1 == size_of((second_scaled - axis.end - handle / 2) as i32),
{
    let h2: i32 = handle / 2;
    (coord_to_size(first_scaled - axis.start - h2), coord_to_size(second_scaled - axis.end - h2))
}

/// The room a child is measured in: its share along the orientation, and the
/// pane's other extent less the margins across it.
pub open spec fn child_room(
    orientation: Orientation,
    share: u16,
    outer: (u16, u16),
    margins: Margins,
) -> (u16, u16) {
    match orientation {
        Orientation::Horizontal => (share, size_of((outer.1 - margins.top - margins.bottom) as i32)),
        Orientation::Vertical => (size_of((outer.0 - margins.left - margins.right) as i32), share),
    }
}

/// Computes the room a child with the given share is measured in, inside an
/// outer extent of `outer`.
pub fn child_measure_args(orientation: Orientation, share: u16, outer: (u16, u16), margins: Margins) -> (r: (
    u16,
    u16,
))
    requires
        orientation == Orientation::Horizontal ==> fits_i32(outer.1 - margins.top) && fits_i32(
            outer.1 - margins.top - margins.bottom,
        ),
        orientation == Orientation::Vertical ==> fits_i32(outer.0 - margins.left) && fits_i32(
            outer.0 - margins.left - margins.right,
        ),
    ensures
        r == child_room(orientation, share, outer, margins),
{
    match orientation {
        Orientation::Horizontal => {
            let h: i32 = outer.1 as i32 - margins.top - margins.bottom;
            (share, coord_to_size(if h < 0 { 0 } else { h }))
        },
        Orientation::Vertical => {
            let w: i32 = outer.0 as i32 - margins.left - margins.right;
            (coord_to_size(if w < 0 { 0 } else { w }), share)
        },
    }
}

/// The size a split pane measures to: its two children side by side along the
/// orientation, each followed by the handle unless it is gone.
pub open spec fn pane_measure(
    orientation: Orientation,
    visibility: Visibility,
    params: LayoutParams,
    parent_width: u16,
    parent_height: u16,
    handle: i32,
    children: Seq<ChildExtent>,
) -> (u16, u16) {
    if visibility == Visibility::Gone {
        (0, 0)
    } else {
        (
            size_of(
                resolved(
                    params.width,
                    parent_width,
                    children_extent(
                        children,
                        orientation == Orientation::Horizontal,
                        Orientation::Horizontal,
                        handle,
                    ) as i32,
                ) as i32,
            ),
            size_of(
                resolved(
                    params.height,
                    parent_height,
                    children_extent(
                        children,
                        orientation == Orientation::Vertical,
                        Orientation::Vertical,
                        handle,
                    ) as i32,
                ) as i32,
            ),
        )
    }
}

/// Measures a split pane from the sizes its two children measured to. The flag
/// tells whether the size differs from the previous one.
pub fn measure(
    orientation: Orientation,
    visibility: Visibility,
    params: LayoutParams,
    parent_width: u16,
    parent_height: u16,
    handle: i32,
    first: ChildExtent,
    second: ChildExtent,
    old: (u16, u16),
) -> (r: (u16, u16, bool))
    requires
        visibility != Visibility::Gone && params.width == Size::WrapContent ==> children_extent(
            seq![first, second],
            orientation == Orientation::Horizontal,
            Orientation::Horizontal,
            handle,
        ) <= u16::MAX,
        visibility != Visibility::Gone && params.height == Size::WrapContent ==> children_extent(
            seq![first, second],
            orientation == Orientation::Vertical,
            Orientation::Vertical,
            handle,
        ) <= u16::MAX,
    ensures
        (r.0, r.1) == pane_measure(
            orientation,
            visibility,
            params,
            parent_width,
            parent_height,
            handle,
            seq![first, second],
        ),
        visibility == Visibility::Gone ==> r.0 == 0 && r.1 == 0,
        visibility != Visibility::Gone && params.width == Size::MatchParent ==> r.0 == parent_width,
        visibility != Visibility::Gone && params.height == Size::MatchParent ==> r.1 == parent_height,
        visibility != Visibility::Gone ==> (params.width matches Size::Exact(v) ==> r.0 == v),
        visibility != Visibility::Gone ==> (params.height matches Size::Exact(v) ==> r.1 == v),
        r.2 == ((r.0, r.1) != old),
{
    let children = vec![first, second];
    assert(children@ =~= seq![first, second]);
    let measured: (u16, u16) = if visibility == Visibility::Gone {
        (0, 0)
    } else {
        let wrap_w: u16 = if params.width == Size::WrapContent {
            children_wrap_extent(
                &children,
                orientation == Orientation::Horizontal,
                Orientation::Horizontal,
                handle,
            )
        } else {
            0
        };
        let wrap_h: u16 = if params.height == Size::WrapContent {
            children_wrap_extent(&children, orientation == Orientation::Vertical, Orientation::Vertical, handle)
        } else {
            0
        };
        let w = resolve(params.width, parent_width, wrap_w as i32);
        let h = resolve(params.height, parent_height, wrap_h as i32);
        (coord_to_size(w), coord_to_size(h))
    };
    let changed = measured.0 != old.0 || measured.1 != old.1;
    (measured.0, measured.1, changed)
}

/// Where a child goes and how much room it gets.
#[derive(Clone, Copy, Debug, PartialEq, Eq, Structural)]
pub struct ChildFrame {
    pub x: i32,
    pub y: i32,
    pub width: u16,
    pub height: u16,
}

/// The inset, beyond the margins, at which the children are placed.
pub const CHILD_INSET: i32 = 6;

/// Places the two children of a split pane that was just added to a parent:
/// both start inside the margins and the inset; the second one starts past the
/// first one's share and the handle. Across the orientation each gets the
/// parent's extent less the margins.
pub fn child_frames(
    orientation: Orientation,
    margins: Margins,
    handle: i32,
    first_size: u16,
    second_size: u16,
    parent_width: u16,
    parent_height: u16,
) -> (r: (ChildFrame, ChildFrame))
    requires
        fits_i32(margins.left + CHILD_INSET),
        fits_i32(margins.top + CHILD_INSET),
        orientation == Orientation::Horizontal ==> {
            &&& fits_i32(parent_height - margins.top)
            &&& fits_i32(parent_height - margins.top - margins.bottom)
            &&& fits_i32(margins.left + first_size)
            &&& fits_i32(margins.left + first_size + handle)
            &&& fits_i32(margins.left + first_size + handle + CHILD_INSET)
        },
        orientation == Orientation::Vertical ==> {
            &&& fits_i32(parent_width - margins.left)
            &&& fits_i32(parent_width - margins.left - margins.right)
            &&& fits_i32(margins.top + first_size)
            &&& fits_i32(margins.top + first_size + handle)
            &&& fits_i32(margins.top + first_size + handle + CHILD_INSET)
        },
    ensures
        r.0.x == margins.left + CHILD_INSET,
        r.0.y == margins.top + CHILD_INSET,
        orientation == Orientation::Horizontal ==> {
            let h = size_of((parent_height - margins.top - margins.bottom) as i32);
            &&& r.0.width == first_size && r.0.height == h
            &&& r.1.x == margins.left + first_size + handle + CHILD_INSET
            &&& r.1.y == margins.top + CHILD_INSET
            &&& r.1.width == second_size && r.1.height == h
        },
        orientation == Orientation::Vertical ==> {
            let w = size_of((parent_width - margins.left - margins.right) as i32);
            &&& r.0.width == w && r.0.height == first_size
            &&& r.1.x == margins.left + CHILD_INSET
            &&& r.1.y == margins.top + first_size + handle + CHILD_INSET
            &&& r.1.width == w && r.1.height == second_size
        },
{
    match orientation {
        Orientation::Horizontal => {
            let h = coord_to_size(parent_height as i32 - margins.top - margins.bottom);
            (
                ChildFrame {
                    x: margins.left + CHILD_INSET,
                    y: margins.top + CHILD_INSET,
                    width: first_size,
                    height: h,
                },
                ChildFrame {
                    x: margins.left + first_size as i32 + handle + CHILD_INSET,
                    y: margins.top + CHILD_INSET,
                    width: second_size,
                    height: h,
                },
            )
        },
        Orientation::Vertical => {
            let w = coord_to_size(parent_width as i32 - margins.left - margins.right);
            (
                ChildFrame {
                    x: margins.left + CHILD_INSET,
                    y: margins.top + CHILD_INSET,
                    width: w,
                    height: first_size,
                },
                ChildFrame {
                    x: margins.left + CHILD_INSET,
                    y: margins.top + first_size as i32 + handle + CHILD_INSET,
                    width: w,
                    height: second_size,
                },
            )
        },
    }
}

/// The handle's new position as a fraction `numerator / denominator` of the
/// pane's extent, or nothing where the position is below one pixel. The
/// extent is the pane's height (vertical) or width (horizontal); an empty
/// extent counts as twice the position.
pub open spec fn handle_ratio(position: i32, orientation: Orientation, size: (u16, u16)) -> Option<
    (i32, int),
> {
    if position < 1 {
        None
    } else {
        let extent = match orientation {
            Orientation::Vertical => size.1,
            Orientation::Horizontal => size.0,
        };
        Some((position, if extent > 0 { extent as int } else { position * 2 }))
    }
}

/// Turns the position the handle was dragged to into the fraction it stands
/// for; the caller divides.
pub fn splitter_ratio(position: i32, orientation: Orientation, size: (u16, u16)) -> (r: Option<
    (i32, i64),
>)
    ensures
        match (r, handle_ratio(position, orientation, size)) {
            (Some(a), Some(b)) => a.0 == b.0 && a.1 == b.1,
            (None, None) => true,
            _ => false,
        },
        position < 1 ==> r is None,
        position >= 1 && orientation == Orientation::Horizontal && size.0 > 0 ==> r == Some(
            (position, size.0 as i64),
        ),
        position >= 1 && orientation == Orientation::Vertical && size.1 > 0 ==> r == Some(
            (position, size.1 as i64),
        ),
{
    if position < 1 {
        return None;
    }
    let extent: u16 = match orientation {
        Orientation::Vertical => size.1,
        Orientation::Horizontal => size.0,
    };
    if extent > 0 {
        Some((position, extent as i64))
    } else {
        Some((position, position as i64 * 2))
    }
}

} // verus!

//! The frame: a titled box around one child.
use vstd::prelude::*;
use crate::geometry::{coord_to_size, size_of, resolved, resolve};
use crate::layout::{LayoutParams, Margins, Size, Visibility};
use crate::geometry::{fits_i32, i32_fits};

verus! {

/// The width a frame that wraps its content asks for: its child's width and
/// both side margins, or nothing without a child.
pub open spec fn frame_wrap_width(child: Option<(u16, u16)>, margins: Margins) -> int {
    match child {
        Some(c) => c.0 + margins.left + margins.right,
        None => 0,
    }
}

/// The height a frame that wraps its content asks for: its title's height,
/// its child's height and both margins across, or nothing without a child.
pub open spec fn frame_wrap_height(child: Option<(u16, u16)>, title_height: i32, margins: Margins) -> int {
    match child {
        Some(c) => title_height + c.1 + margins.top + margins.bottom,
        None => 0,
    }
}

/// The size a frame measures to.
pub open spec fn frame_measure(
    visibility: Visibility,
    params: LayoutParams,
    parent_width: u16,
    parent_height: u16,
    margins: Margins,
    title_height: i32,
    child: Option<(u16, u16)>,
) -> (u16, u16) {
    if visibility == Visibility::Gone {
        (0, 0)
    } else {
        (
            size_of(
                resolved(params.width, parent_width, frame_wrap_width(child, margins) as i32) as i32,
            ),
            size_of(
                resolved(
                    params.height,
                    parent_height,
                    frame_wrap_height(child, title_height, margins) as i32,
                ) as i32,
            ),
        )
    }
}

/// What measuring a frame needs of its inputs: where it wraps its content and
/// has a child, the sums fit the integer type that holds them.
pub open spec fn frame_measure_in_range(
    visibility: Visibility,
    params: LayoutParams,
    margins: Margins,
    title_height: i32,
    child: Option<(u16, u16)>,
) -> bool {
    match child {
        Some(c) => visibility != Visibility::Gone ==> {
            &&& params.width == Size::WrapContent ==> fits_i32(c.0 + margins.left) && fits_i32(
                c.0 + margins.left + margins.right,
            )
            &&& params.height == Size::WrapContent ==> fits_i32(title_height + c.1) && fits_i32(
                title_height + c.1 + margins.top,
            ) && fits_i32(title_height + c.1 + margins.top + margins.bottom)
        },
        None => true,
    }
}

/// Measures a frame from its title's height and the size its child measured
/// to, if it has one. The flag tells whether the size differs from the
/// previous one.
pub fn measure(
    visibility: Visibility,
    params: LayoutParams,
    parent_width: u16,
    parent_height: u16,
    margins: Margins,
    title_height: i32,
    child: Option<(u16, u16)>,
    old: (u16, u16),
) -> (r: (u16, u16, bool))
    requires
        frame_measure_in_range(visibility, params, margins, title_height, child),
    ensures
        (r.0, r.1) == frame_measure(
            visibility,
            params,
            parent_width,
            parent_height,
            margins,
            title_height,
            child,
        ),
        visibility == Visibility::Gone ==> r.0 == 0 && r.1 == 0,
        visibility != Visibility::Gone && params.width == Size::WrapContent ==> r.0 == match child {
            Some(c) => size_of((c.0 + margins.left + margins.right) as i32),
            None => 0u16,
        },
        visibility != Visibility::Gone && params.height == Size::WrapContent ==> r.1 == match child {
            Some(c) => size_of((title_height + c.1 + margins.top + margins.bottom) as i32),
            None => 0u16,
        },
        visibility != Visibility::Gone && params.width == Size::MatchParent ==> r.0 == parent_width,
        visibility != Visibility::Gone && params.height == Size::MatchParent ==> r.1 == parent_height,
        visibility != Visibility::Gone ==> (params.width matches Size::Exact(v) ==> r.0 == v),
        visibility != Visibility::Gone ==> (params.height matches Size::Exact(v) ==> r.1 == v),
        r.2 == ((r.0, r.1) != old),
{
    let measured: (u16, u16) = if visibility == Visibility::Gone {
        (0, 0)
    } else {
        let wrap_w: i32 = if params.width == Size::WrapContent {
            match child {
                Some(c) => c.0 as i32 + margins.left + margins.right,
                None => 0,
            }
        } else {
            0
        };
        let wrap_h: i32 = if params.height == Size::WrapContent {
            match child {
                Some(c) => title_height + c.1 as i32 + margins.top + margins.bottom,
                None => 0,
            }
        } else {
            0
        };
        let w = resolve(params.width, parent_width, wrap_w);
        let h = resolve(params.height, parent_height, wrap_h);
        (coord_to_size(w), coord_to_size(h))
    };
    let changed = measured.0 != old.0 || measured.1 != old.1;
    (measured.0, measured.1, changed)
}

/// Tells whether measuring a frame with these inputs stays in range, which
/// `measure` needs.
pub fn measure_is_in_range(
    visibility: Visibility,
    params: LayoutParams,
    margins: Margins,
    title_height: i32,
    child: Option<(u16, u16)>,
) -> (r: bool)
    ensures
        r == frame_measure_in_range(visibility, params, margins, title_height, child),
{
    match child {
        Some(c) => {
            if visibility == Visibility::Gone {
                return true;
            }
            let w = c.0 as i64;
            let h = c.1 as i64;
            let width_ok = params.width != Size::WrapContent || (i32_fits(w + margins.left as i64)
                && i32_fits(w + margins.left as i64 + margins.right as i64));
            let height_ok = params.height != Size::WrapContent || (i32_fits(
                title_height as i64 + h,
            ) && i32_fits(title_height as i64 + h + margins.top as i64) && i32_fits(
                title_height as i64 + h + margins.top as i64 + margins.bottom as i64,
            ));
            width_ok && height_ok
        },
        None => true,
    }
}

} // verus!

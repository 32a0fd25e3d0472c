//! Size arithmetic shared by every control: clamping coordinates to sizes,
//! resolving a requested size against the parent and the content, and the
//! measurement of controls whose content size is known up front.
use vstd::prelude::*;
use crate::layout::{LayoutParams, Margins, Size, Visibility};

verus! {

/// The extent a list, tree or table asks for when it wraps its content.
pub const THE_ULTIMATE_ANSWER_TO_EVERYTHING: u16 = 42;

/// Extra room, in pixels, around a label in each dimension.
pub const LABEL_PADDING: i32 = 16;

/// Whether an `i32` computation stays in range.
pub open spec fn fits_i32(x: int) -> bool {
    i32::MIN <= x <= i32::MAX
}

/// Tells whether a value fits an `i32`.
pub fn i32_fits(x: i64) -> (r: bool)
    ensures
        r == fits_i32(x as int),
{
    -2147483648 <= x && x <= 2147483647
}

/// Half of `a`, rounded toward zero as integer division does.
pub open spec fn half_toward_zero(a: int) -> int {
    if a >= 0 {
        a / 2
    } else {
        -((-a) / 2)
    }
}

/// A coordinate turned into a size: negative values become zero and the rest
/// keeps its low sixteen bits.
pub open spec fn size_of(a: i32) -> u16 {
    if a < 0 {
        0
    } else {
        a as u16
    }
}

/// Turns a signed coordinate into an unsigned size.
pub fn coord_to_size(a: i32) -> (r: u16)
    ensures
        r == size_of(a),
{
    if a < 0 {
        0
    } else {
        a as u16
    }
}

/// `extent` less the two margins `before` and `after`, as a size.
pub open spec fn inner(extent: u16, before: i32, after: i32) -> u16 {
    size_of((extent - before - after) as i32)
}

/// What is left of `extent` once the margins `before` and `after` are taken off
/// it; never negative.
pub fn inner_extent(extent: u16, before: i32, after: i32) -> (r: u16)
    requires
        i32::MIN <= extent - before <= i32::MAX,
        i32::MIN <= extent - before - after <= i32::MAX,
    ensures
        r == inner(extent, before, after),
        0 <= extent - before - after <= u16::MAX ==> r == extent - before - after,
        extent - before - after < 0 ==> r == 0,
{
    let a: i32 = extent as i32 - before - after;
    let clamped: i32 = if a < 0 { 0 } else { a };
    coord_to_size(clamped)
}

/// The extent a control takes along one dimension, before clamping: the
/// parent's for `MatchParent`, the given one for `Exact`, the content's for
/// `WrapContent`.
pub open spec fn resolved(size: Size, parent: u16, content: i32) -> int {
    match size {
        Size::MatchParent => parent as int,
        Size::Exact(v) => v as int,
        Size::WrapContent => content as int,
    }
}

/// The room inside an extent of `width` by `height` once the margins are taken
/// off: what a frame or a window offers its child.
pub fn room_inside(width: u16, height: u16, margins: Margins) -> (r: (u16, u16))
    requires
        i32::MIN <= width - margins.left <= i32::MAX,
        i32::MIN <= width - margins.left - margins.right <= i32::MAX,
        i32::MIN <= height - margins.top <= i32::MAX,
        i32::MIN <= height - margins.top - margins.bottom <= i32::MAX,
    ensures
        r == (inner(width, margins.left, margins.right), inner(height, margins.top, margins.bottom)),
        0 <= width - margins.left - margins.right <= u16::MAX ==> r.0 == width - margins.left
            - margins.right,
        width - margins.left - margins.right < 0 ==> r.0 == 0,
        0 <= height - margins.top - margins.bottom <= u16::MAX ==> r.1 == height - margins.top
            - margins.bottom,
        height - margins.top - margins.bottom < 0 ==> r.1 == 0,
{
    (inner_extent(width, margins.left, margins.right), inner_extent(height, margins.top, margins.bottom))
}

/// Resolves one requested dimension against the parent and the content.
pub fn resolve(size: Size, parent: u16, content: i32) -> (r: i32)
    ensures
        r == resolved(size, parent, content),
{
    match size {
        Size::MatchParent => parent as i32,
        Size::Exact(v) => v as i32,
        Size::WrapContent => content,
    }
}

/// The size a control with known content measures to.
pub open spec fn content_measure(
    visibility: Visibility,
    params: LayoutParams,
    parent_width: u16,
    parent_height: u16,
    content_width: i32,
    content_height: i32,
) -> (u16, u16) {
    if visibility == Visibility::Gone {
        (0, 0)
    } else {
        (
            size_of(resolved(params.width, parent_width, content_width) as i32),
            size_of(resolved(params.height, parent_height, content_height) as i32),
        )
    }
}

/// Whether measuring with these parameters looks at the content at all: only a
/// control that is not gone and wraps its content in some dimension does.
pub open spec fn reads_content(visibility: Visibility, params: LayoutParams) -> bool {
    visibility != Visibility::Gone && (params.width == Size::WrapContent || params.height
        == Size::WrapContent)
}

/// Tells whether the content of a control, or its children, must be measured.
pub fn needs_content_measure(visibility: Visibility, params: LayoutParams) -> (r: bool)
    ensures
        r == reads_content(visibility, params),
{
    visibility != Visibility::Gone && (params.width == Size::WrapContent || params.height
        == Size::WrapContent)
}

/// Measures a control whose content size is given: a gone control takes no
/// room, otherwise each dimension is resolved and clamped. The flag tells
/// whether the size differs from the previous one.
pub fn measure_content(
    visibility: Visibility,
    params: LayoutParams,
    parent_width: u16,
    parent_height: u16,
    content_width: i32,
    content_height: i32,
    old: (u16, u16),
) -> (r: (u16, u16, bool))
    ensures
        (r.0, r.1) == content_measure(
            visibility,
            params,
            parent_width,
            parent_height,
            content_width,
            content_height,
        ),
        visibility == Visibility::Gone ==> r.0 == 0 && r.1 == 0,
        visibility != Visibility::Gone && params.width == Size::MatchParent ==> r.0 == parent_width,
        visibility != Visibility::Gone && params.height == Size::MatchParent ==> r.1 == parent_height,
        visibility != Visibility::Gone ==> (params.width matches Size::Exact(v) ==> r.0 == v),
        visibility != Visibility::Gone ==> (params.height matches Size::Exact(v) ==> r.1 == v),
        visibility != Visibility::Gone && params.width == Size::WrapContent ==> r.0 == size_of(content_width),
        visibility != Visibility::Gone && params.height == Size::WrapContent ==> r.1 == size_of(content_height),
        r.2 == ((r.0, r.1) != old),
{
    let measured: (u16, u16) = if visibility == Visibility::Gone {
        (0, 0)
    } else {
        let w = resolve(params.width, parent_width, content_width);
        let h = resolve(params.height, parent_height, content_height);
        (coord_to_size(w), coord_to_size(h))
    };
    let changed = measured.0 != old.0 || measured.1 != old.1;
    (measured.0, measured.1, changed)
}

/// The content size of a label-like control: the text's bounding box with
/// padding on each dimension.
pub fn padded_label_size(text_width: i32, text_height: i32) -> (r: (i32, i32))
    requires
        text_width + LABEL_PADDING <= i32::MAX,
        text_height + LABEL_PADDING <= i32::MAX,
    ensures
        r.0 == text_width + LABEL_PADDING,
        r.1 == text_height + LABEL_PADDING,
{
    (text_width + LABEL_PADDING, text_height + LABEL_PADDING)
}

/// Measures a list, tree or table: wrapping content stands for a fixed extent.
pub fn measure_item_view(
    visibility: Visibility,
    params: LayoutParams,
    parent_width: u16,
    parent_height: u16,
    old: (u16, u16),
) -> (r: (u16, u16, bool))
    ensures
        (r.0, r.1) == content_measure(
            visibility,
            params,
            parent_width,
            parent_height,
            THE_ULTIMATE_ANSWER_TO_EVERYTHING as i32,
            THE_ULTIMATE_ANSWER_TO_EVERYTHING as i32,
        ),
        visibility == Visibility::Gone ==> r.0 == 0 && r.1 == 0,
        visibility != Visibility::Gone && params.width == Size::MatchParent ==> r.0 == parent_width,
        visibility != Visibility::Gone && params.height == Size::MatchParent ==> r.1 == parent_height,
        visibility != Visibility::Gone ==> (params.width matches Size::Exact(v) ==> r.0 == v),
        visibility != Visibility::Gone ==> (params.height matches Size::Exact(v) ==> r.1 == v),
        visibility != Visibility::Gone && params.width == Size::WrapContent ==> r.0 == THE_ULTIMATE_ANSWER_TO_EVERYTHING,
        visibility != Visibility::Gone && params.height == Size::WrapContent ==> r.1 == THE_ULTIMATE_ANSWER_TO_EVERYTHING,
        r.2 == ((r.0, r.1) != old),
{
    measure_content(
        visibility,
        params,
        parent_width,
        parent_height,
        THE_ULTIMATE_ANSWER_TO_EVERYTHING as i32,
        THE_ULTIMATE_ANSWER_TO_EVERYTHING as i32,
        old,
    )
}

} // verus!

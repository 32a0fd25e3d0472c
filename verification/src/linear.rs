//! The linear layout: a container that stacks its children along one
//! orientation, separated by a fixed spacing, inside its margins.
use vstd::prelude::*;
use crate::geometry::{coord_to_size, fits_i32, i32_fits, size_of, resolved, resolve};
use crate::layout::{along, LayoutParams, Margins, Orientation, Size, Visibility};

verus! {

/// What a container knows of one child after measuring it.
#[derive(Clone, Copy, Debug, PartialEq, Eq, Structural)]
pub struct ChildExtent {
    pub width: u16,
    pub height: u16,
    pub visibility: Visibility,
}

/// The extent of a measured child along `dim`: its width for `Horizontal`, its
/// height for `Vertical`.
pub open spec fn extent_along(child: ChildExtent, dim: Orientation) -> int {
    match dim {
        Orientation::Horizontal => child.width as int,
        Orientation::Vertical => child.height as int,
    }
}

/// The gap that follows a child: none after a gone child, the spacing (as a
/// size) after any other.
pub open spec fn gap_after(child: ChildExtent, spacing: i32) -> int {
    if child.visibility == Visibility::Gone {
        0
    } else {
        size_of(spacing) as int
    }
}

/// The room the children need along `dim`. When they are `stacked` along it
/// their extents add up, otherwise the largest one counts; every child that is
/// not gone adds a gap.
pub open spec fn children_extent(
    children: Seq<ChildExtent>,
    stacked: bool,
    dim: Orientation,
    spacing: i32,
) -> int
    decreases children.len(),
{
    if children.len() == 0 {
        0
    } else {
        let prev = children_extent(
            children.subrange(0, children.len() - 1),
            stacked,
            dim,
            spacing,
        );
        let last = children[children.len() - 1];
        let e = extent_along(last, dim);
        let base = if stacked {
            prev + e
        } else if prev < e {
            e
        } else {
            prev
        };
        base + gap_after(last, spacing)
    }
}

proof fn lemma_children_extent_grows(
    children: Seq<ChildExtent>,
    i: int,
    stacked: bool,
    dim: Orientation,
    spacing: i32,
)
    requires
        0 <= i <= children.len(),
    ensures
        0 <= children_extent(children.subrange(0, i), stacked, dim, spacing) <= children_extent(
            children,
            stacked,
            dim,
            spacing,
        ),
    decreases children.len(),
{
    if i == children.len() {
        assert(children.subrange(0, i) =~= children);
        lemma_children_extent_nonneg(children, stacked, dim, spacing);
    } else {
        let shorter = children.subrange(0, children.len() - 1);
        lemma_children_extent_grows(shorter, i, stacked, dim, spacing);
        assert(shorter.subrange(0, i) =~= children.subrange(0, i));
        lemma_children_extent_nonneg(shorter, stacked, dim, spacing);
    }
}

proof fn lemma_children_extent_nonneg(
    children: Seq<ChildExtent>,
    stacked: bool,
    dim: Orientation,
    spacing: i32,
)
    ensures
        children_extent(children, stacked, dim, spacing) >= 0,
    decreases children.len(),
{
    if children.len() > 0 {
        lemma_children_extent_nonneg(
            children.subrange(0, children.len() - 1),
            stacked,
            dim,
            spacing,
        );
    }
}

/// Adds up, or takes the largest of, the children's extents along `dim`, with
/// the gaps that follow them.
pub fn children_wrap_extent(
    children: &Vec<ChildExtent>,
    stacked: bool,
    dim: Orientation,
    spacing: i32,
) -> (r: u16)
    requires
        children_extent(children@, stacked, dim, spacing) <= u16::MAX,
    ensures
        r == children_extent(children@, stacked, dim, spacing),
{
    let gap: u16 = coord_to_size(if spacing < 0 { 0 } else { spacing });
    let mut acc: u16 = 0;
    let mut i: usize = 0;
    while i < children.len()
        invariant
            i <= children.len(),
            acc == children_extent(children@.subrange(0, i as int), stacked, dim, spacing),
            children_extent(children@, stacked, dim, spacing) <= u16::MAX,
            gap == size_of(spacing),
        decreases children.len() - i,
    {
        let child = children[i];
        proof {
            lemma_children_extent_grows(children@, i + 1, stacked, dim, spacing);
            let next = children@.subrange(0, i + 1);
            assert(next.subrange(0, i as int) =~= children@.subrange(0, i as int));
            assert(next[i as int] == child);
        }
        let e: u16 = match dim {
            Orientation::Horizontal => child.width,
            Orientation::Vertical => child.height,
        };
        if stacked {
            acc = acc + e;
        } else if acc < e {
            acc = e;
        }
        if child.visibility != Visibility::Gone {
            acc = acc + gap;
        }
        i = i + 1;
    }
    assert(children@.subrange(0, children.len() as int) =~= children@);
    acc
}

/// Tells whether the children's extent along `dim` fits a size, which
/// `children_wrap_extent` needs.
pub fn children_extent_fits(
    children: &Vec<ChildExtent>,
    stacked: bool,
    dim: Orientation,
    spacing: i32,
) -> (r: bool)
    ensures
        r == (children_extent(children@, stacked, dim, spacing) <= u16::MAX),
{
    let gap: u32 = coord_to_size(if spacing < 0 { 0 } else { spacing }) as u32;
    let mut acc: u32 = 0;
    let mut i: usize = 0;
    while i < children.len()
        invariant
            i <= children.len(),
            acc == children_extent(children@.subrange(0, i as int), stacked, dim, spacing),
            acc <= u16::MAX,
            gap == size_of(spacing),
        decreases children.len() - i,
    {
        let child = children[i];
        proof {
            let next = children@.subrange(0, i + 1);
            assert(next.subrange(0, i as int) =~= children@.subrange(0, i as int));
            assert(next[i as int] == child);
        }
        let e: u32 = match dim {
            Orientation::Horizontal => child.width as u32,
            Orientation::Vertical => child.height as u32,
        };
        let mut next: u32 = if stacked {
            acc + e
        } else if acc < e {
            e
        } else {
            acc
        };
        if child.visibility != Visibility::Gone {
            next = next + gap;
        }
        if next > 65535 {
            proof {
                lemma_children_extent_grows(children@, i + 1, stacked, dim, spacing);
            }
            return false;
        }
        acc = next;
        i = i + 1;
    }
    assert(children@.subrange(0, children.len() as int) =~= children@);
    true
}

/// Tells whether measuring a linear layout with these inputs stays in range,
/// which `measure` needs.
pub fn measure_is_in_range(
    orientation: Orientation,
    visibility: Visibility,
    params: LayoutParams,
    margins: Margins,
    spacing: i32,
    children: &Vec<ChildExtent>,
) -> (r: bool)
    ensures
        r == measure_in_range(orientation, visibility, params, margins, spacing, children@),
{
    if visibility == Visibility::Gone {
        return true;
    }
    if params.width == Size::WrapContent {
        let stacked = orientation == Orientation::Horizontal;
        if !children_extent_fits(children, stacked, Orientation::Horizontal, spacing) {
            return false;
        }
        let e = children_wrap_extent(children, stacked, Orientation::Horizontal, spacing) as i64;
        if !(i32_fits(e + margins.left as i64) && i32_fits(e + margins.left as i64 + margins.right as i64)
            && i32_fits(e + margins.left as i64 + margins.right as i64 + spacing as i64)) {
            return false;
        }
    }
    if params.height == Size::WrapContent {
        let stacked = orientation == Orientation::Vertical;
        if !children_extent_fits(children, stacked, Orientation::Vertical, spacing) {
            return false;
        }
        let e = children_wrap_extent(children, stacked, Orientation::Vertical, spacing) as i64;
        if !(i32_fits(e + margins.top as i64) && i32_fits(e + margins.top as i64 + margins.bottom as i64)
            && i32_fits(e + margins.top as i64 + margins.bottom as i64 + spacing as i64)) {
            return false;
        }
    }
    true
}

/// The width a linear layout that wraps its content asks for.
pub open spec fn wrap_width(
    orientation: Orientation,
    children: Seq<ChildExtent>,
    margins: Margins,
    spacing: i32,
) -> int {
    children_extent(children, orientation == Orientation::Horizontal, Orientation::Horizontal, spacing)
        + margins.left + margins.right + spacing
}

/// The height a linear layout that wraps its content asks for.
pub open spec fn wrap_height(
    orientation: Orientation,
    children: Seq<ChildExtent>,
    margins: Margins,
    spacing: i32,
) -> int {
    children_extent(children, orientation == Orientation::Vertical, Orientation::Vertical, spacing)
        + margins.top + margins.bottom + spacing
}

/// The size a linear layout measures to.
pub open spec fn layout_measure(
    orientation: Orientation,
    visibility: Visibility,
    params: LayoutParams,
    parent_width: u16,
    parent_height: u16,
    margins: Margins,
    spacing: i32,
    children: Seq<ChildExtent>,
) -> (u16, u16) {
    if visibility == Visibility::Gone {
        (0, 0)
    } else {
        (
            size_of(
                resolved(
                    params.width,
                    parent_width,
                    wrap_width(orientation, children, margins, spacing) as i32,
                ) as i32,
            ),
            size_of(
                resolved(
                    params.height,
                    parent_height,
                    wrap_height(orientation, children, margins, spacing) as i32,
                ) as i32,
            ),
        )
    }
}

/// What measuring a linear layout needs of its inputs: where it wraps its
/// content, the sums fit the integer types that hold them.
pub open spec fn measure_in_range(
    orientation: Orientation,
    visibility: Visibility,
    params: LayoutParams,
    margins: Margins,
    spacing: i32,
    children: Seq<ChildExtent>,
) -> bool {
    visibility != Visibility::Gone ==> {
        &&& params.width == Size::WrapContent ==> {
            let e = children_extent(
                children,
                orientation == Orientation::Horizontal,
                Orientation::Horizontal,
                spacing,
            );
            &&& e <= u16::MAX
            &&& fits_i32(e + margins.left)
            &&& fits_i32(e + margins.left + margins.right)
            &&& fits_i32(e + margins.left + margins.right + spacing)
        }
        &&& params.height == Size::WrapContent ==> {
            let e = children_extent(
                children,
                orientation == Orientation::Vertical,
                Orientation::Vertical,
                spacing,
            );
            &&& e <= u16::MAX
            &&& fits_i32(e + margins.top)
            &&& fits_i32(e + margins.top + margins.bottom)
            &&& fits_i32(e + margins.top + margins.bottom + spacing)
        }
    }
}

/// Measures a linear layout from the sizes its children measured to. The flag
/// tells whether the size differs from the previous one.
pub fn measure(
    orientation: Orientation,
    visibility: Visibility,
    params: LayoutParams,
    parent_width: u16,
    parent_height: u16,
    margins: Margins,
    spacing: i32,
    children: &Vec<ChildExtent>,
    old: (u16, u16),
) -> (r: (u16, u16, bool))
    requires
        measure_in_range(orientation, visibility, params, margins, spacing, children@),
    ensures
        (r.0, r.1) == layout_measure(
            orientation,
            visibility,
            params,
            parent_width,
            parent_height,
            margins,
            spacing,
            children@,
        ),
        visibility == Visibility::Gone ==> r.0 == 0 && r.1 == 0,
        visibility != Visibility::Gone && params.width == Size::MatchParent ==> r.0 == parent_width,
        visibility != Visibility::Gone && params.height == Size::MatchParent ==> r.1 == parent_height,
        visibility != Visibility::Gone ==> (params.width matches Size::Exact(v) ==> r.0 == v),
        visibility != Visibility::Gone ==> (params.height matches Size::Exact(v) ==> r.1 == v),
        r.2 == ((r.0, r.1) != old),
{
    let measured: (u16, u16) = if visibility == Visibility::Gone {
        (0, 0)
    } else {
        let wrap_w: i32 = if params.width == Size::WrapContent {
            let e = children_wrap_extent(
                children,
                orientation == Orientation::Horizontal,
                Orientation::Horizontal,
                spacing,
            );
            e as i32 + margins.left + margins.right + spacing
        } else {
            0
        };
        let wrap_h: i32 = if params.height == Size::WrapContent {
            let e = children_wrap_extent(
                children,
                orientation == Orientation::Vertical,
                Orientation::Vertical,
                spacing,
            );
            e as i32 + margins.top + margins.bottom + spacing
        } else {
            0
        };
        let w = resolve(params.width, parent_width, wrap_w);
        let h = resolve(params.height, parent_height, wrap_h);
        (coord_to_size(w), coord_to_size(h))
    };
    let changed = measured.0 != old.0 || measured.1 != old.1;
    (measured.0, measured.1, changed)
}

/// The room offered to each child while the layout measures itself: the
/// width less both margins and twice the spacing, the height less both margins.
pub open spec fn measure_bounds(
    parent_width: u16,
    parent_height: u16,
    margins: Margins,
    spacing: i32,
) -> (u16, u16) {
    (
        size_of((parent_width - margins.left - margins.right - spacing - spacing) as i32),
        size_of((parent_height - margins.top - margins.bottom) as i32),
    )
}

/// Computes the room offered to each child while measuring.
pub fn child_measure_bounds(
    parent_width: u16,
    parent_height: u16,
    margins: Margins,
    spacing: i32,
) -> (r: (u16, u16))
    requires
        fits_i32(parent_width - margins.left),
        fits_i32(parent_width - margins.left - margins.right),
        fits_i32(parent_width - margins.left - margins.right - spacing),
        fits_i32(parent_width - margins.left - margins.right - spacing - spacing),
        fits_i32(parent_height - margins.top),
        fits_i32(parent_height - margins.top - margins.bottom),
    ensures
        r == measure_bounds(parent_width, parent_height, margins, spacing),
        0 <= parent_width - margins.left - margins.right - 2 * spacing <= u16::MAX ==> r.0
            == parent_width - margins.left - margins.right - 2 * spacing,
        parent_width - margins.left - margins.right - 2 * spacing < 0 ==> r.0 == 0,
        0 <= parent_height - margins.top - margins.bottom <= u16::MAX ==> r.1 == parent_height
            - margins.top - margins.bottom,
        parent_height - margins.top - margins.bottom < 0 ==> r.1 == 0,
{
    let w: i32 = parent_width as i32 - margins.left - margins.right - spacing - spacing;
    let h: i32 = parent_height as i32 - margins.top - margins.bottom;
    (coord_to_size(if w < 0 { 0 } else { w }), coord_to_size(if h < 0 { 0 } else { h }))
}

/// Where a layout that was just added to a parent starts placing its children
/// and how much room each child gets.
pub struct Placement {
    pub origin: (i32, i32),
    pub bounds: (u16, u16),
}

/// The start of the children's placement: the top left corner inside the
/// margins, with the parent's room less the margins as the bounds.
pub fn placement(margins: Margins, parent_width: u16, parent_height: u16) -> (r: Placement)
    requires
        fits_i32(parent_width - margins.left),
        fits_i32(parent_width - margins.left - margins.right),
        fits_i32(parent_height - margins.top),
        fits_i32(parent_height - margins.top - margins.bottom),
    ensures
        r.origin == (margins.left, margins.top),
        r.bounds == (
            size_of((parent_width - margins.left - margins.right) as i32),
            size_of((parent_height - margins.top - margins.bottom) as i32),
        ),
{
    let w: i32 = parent_width as i32 - margins.left - margins.right;
    let h: i32 = parent_height as i32 - margins.top - margins.bottom;
    Placement {
        origin: (margins.left, margins.top),
        bounds: (coord_to_size(if w < 0 { 0 } else { w }), coord_to_size(if h < 0 { 0 } else { h })),
    }
}

/// The origin of the next child: the previous origin moved along the
/// orientation by the previous child's extent and the spacing.
pub open spec fn advance(
    orientation: Orientation,
    origin: (i32, i32),
    child: (u16, u16),
    spacing: i32,
) -> (int, int) {
    match orientation {
        Orientation::Horizontal => (origin.0 + (child.0 + spacing), origin.1 as int),
        Orientation::Vertical => (origin.0 as int, origin.1 + (child.1 + spacing)),
    }
}

/// Moves the placement origin past a child that has just been placed.
pub fn next_origin(orientation: Orientation, origin: (i32, i32), child: (u16, u16), spacing: i32) -> (r: (
    i32,
    i32,
))
    requires
        orientation == Orientation::Horizontal ==> fits_i32(child.0 + spacing) && fits_i32(
            origin.0 + (child.0 + spacing),
        ),
        orientation == Orientation::Vertical ==> fits_i32(child.1 + spacing) && fits_i32(
            origin.1 + (child.1 + spacing),
        ),
    ensures
        (r.0 as int, r.1 as int) == advance(orientation, origin, child, spacing),
        orientation == Orientation::Horizontal ==> r.0 == origin.0 + child.0 + spacing && r.1
            == origin.1,
        orientation == Orientation::Vertical ==> r.0 == origin.0 && r.1 == origin.1 + child.1
            + spacing,
{
    match orientation {
        Orientation::Horizontal => (origin.0 + (child.0 as i32 + spacing), origin.1),
        Orientation::Vertical => (origin.0, origin.1 + (child.1 as i32 + spacing)),
    }
}

/// Where the placement origin ends up after the children of sizes `sizes`
/// have been placed one after another from `start`.
pub open spec fn origin_after(
    orientation: Orientation,
    start: (int, int),
    sizes: Seq<(u16, u16)>,
    spacing: i32,
) -> (int, int)
    decreases sizes.len(),
{
    if sizes.len() == 0 {
        start
    } else {
        let before = origin_after(orientation, start, sizes.subrange(0, sizes.len() - 1), spacing);
        let last = sizes[sizes.len() - 1];
        match orientation {
            Orientation::Horizontal => (before.0 + (last.0 + spacing), before.1),
            Orientation::Vertical => (before.0, before.1 + (last.1 + spacing)),
        }
    }
}

/// The sizes of measured children.
pub open spec fn sizes_of(children: Seq<ChildExtent>) -> Seq<(u16, u16)> {
    children.map_values(|c: ChildExtent| (c.width, c.height))
}

/// A law of the linear layout: when no child is gone and the spacing is a
/// size, placing the children one after another from the top left corner
/// inside the margins ends, along the orientation, exactly where the room the
/// layout asked for by wrapping its content ends, less the margin at the far
/// side and one spacing.
pub proof fn lemma_placement_fills_wrap_extent(
    orientation: Orientation,
    margins: Margins,
    spacing: i32,
    children: Seq<ChildExtent>,
)
    requires
        0 <= spacing <= u16::MAX,
        forall|i: int| 0 <= i < children.len() ==> (#[trigger] children[i]).visibility != Visibility::Gone,
    ensures
        ({
            let end = origin_after(
                orientation,
                (margins.left as int, margins.top as int),
                sizes_of(children),
                spacing,
            );
            match orientation {
                Orientation::Horizontal => end.0 + margins.right + spacing == wrap_width(
                    orientation,
                    children,
                    margins,
                    spacing,
                ),
                Orientation::Vertical => end.1 + margins.bottom + spacing == wrap_height(
                    orientation,
                    children,
                    margins,
                    spacing,
                ),
            }
        }),
    decreases children.len(),
{
    if children.len() > 0 {
        let shorter = children.subrange(0, children.len() - 1);
        lemma_placement_fills_wrap_extent(orientation, margins, spacing, shorter);
        assert(sizes_of(children).subrange(0, children.len() - 1) =~= sizes_of(shorter));
    }
}

/// A law of wrapping a linear layout: a visible child added at the end makes
/// the layout longer along its orientation by exactly the child's extent and
/// one spacing, and across it at least as wide as that child plus two
/// spacings and the margins, at least one spacing wider than before, and no
/// wider than before plus the child and one spacing.
pub proof fn lemma_wrap_with_one_more_child(
    orientation: Orientation,
    children: Seq<ChildExtent>,
    child: ChildExtent,
    margins: Margins,
    spacing: i32,
)
    requires
        0 <= spacing <= u16::MAX,
        child.visibility != Visibility::Gone,
    ensures
        orientation == Orientation::Vertical ==> {
            &&& wrap_height(orientation, children.push(child), margins, spacing) == wrap_height(
                orientation,
                children,
                margins,
                spacing,
            ) + child.height + spacing
            &&& wrap_width(orientation, children.push(child), margins, spacing) >= child.width
                + spacing + margins.left + margins.right + spacing
            &&& wrap_width(orientation, children.push(child), margins, spacing) >= wrap_width(
                orientation,
                children,
                margins,
                spacing,
            ) + spacing
            &&& wrap_width(orientation, children.push(child), margins, spacing) <= wrap_width(
                orientation,
                children,
                margins,
                spacing,
            ) + child.width + spacing
        },
        orientation == Orientation::Horizontal ==> {
            &&& wrap_width(orientation, children.push(child), margins, spacing) == wrap_width(
                orientation,
                children,
                margins,
                spacing,
            ) + child.width + spacing
            &&& wrap_height(orientation, children.push(child), margins, spacing) >= child.height
                + spacing + margins.top + margins.bottom + spacing
            &&& wrap_height(orientation, children.push(child), margins, spacing) >= wrap_height(
                orientation,
                children,
                margins,
                spacing,
            ) + spacing
            &&& wrap_height(orientation, children.push(child), margins, spacing) <= wrap_height(
                orientation,
                children,
                margins,
                spacing,
            ) + child.height + spacing
        },
{
    let longer = children.push(child);
    assert(longer.subrange(0, longer.len() - 1) =~= children);
    assert(longer[longer.len() - 1] == child);
    lemma_children_extent_nonneg(children, false, Orientation::Horizontal, spacing);
    lemma_children_extent_nonneg(children, false, Orientation::Vertical, spacing);
}

/// The direction a box layout lays its items out in.
#[derive(Clone, Copy, Debug, PartialEq, Eq, Structural)]
pub enum BoxDirection {
    LeftToRight,
    RightToLeft,
    TopToBottom,
    BottomToTop,
}

/// The orientation that a box direction stacks along.
pub open spec fn orientation_of(a: BoxDirection) -> Orientation {
    match a {
        BoxDirection::LeftToRight | BoxDirection::RightToLeft => Orientation::Horizontal,
        BoxDirection::TopToBottom | BoxDirection::BottomToTop => Orientation::Vertical,
    }
}

/// The direction a linear layout sets for an orientation.
pub open spec fn direction_of(a: Orientation) -> BoxDirection {
    match a {
        Orientation::Horizontal => BoxDirection::LeftToRight,
        Orientation::Vertical => BoxDirection::TopToBottom,
    }
}

/// The orientation of a box layout's direction. Only the two directions that a
/// linear layout ever sets are accepted.
pub fn box_direction_to_orientation(a: BoxDirection) -> (r: Orientation)
    requires
        a == BoxDirection::LeftToRight || a == BoxDirection::TopToBottom,
    ensures
        r == orientation_of(a),
{
    match a {
        BoxDirection::TopToBottom => Orientation::Vertical,
        _ => Orientation::Horizontal,
    }
}

/// The box direction that lays items out along `a`.
pub fn orientation_to_box_direction(a: Orientation) -> (r: BoxDirection)
    ensures
        r == direction_of(a),
{
    match a {
        Orientation::Horizontal => BoxDirection::LeftToRight,
        Orientation::Vertical => BoxDirection::TopToBottom,
    }
}

/// A law of the two conversions: the orientation read back from the direction
/// a layout was given is the orientation it was given, and that direction is
/// always one the reading accepts.
pub proof fn lemma_orientation_round_trip(a: Orientation)
    ensures
        direction_of(a) == BoxDirection::LeftToRight || direction_of(a)
            == BoxDirection::TopToBottom,
        orientation_of(direction_of(a)) == a,
{
}

/// Whether some child fills the layout along its orientation.
pub open spec fn has_filler(orientation: Orientation, children: Seq<LayoutParams>) -> bool {
    exists|i: int| 0 <= i < children.len() && along(orientation, children[i]) == Size::MatchParent
}

/// Tells whether the layout needs a stretch after its children: only when no
/// child fills it along its orientation.
pub fn needs_stretch(orientation: Orientation, children: &Vec<LayoutParams>) -> (r: bool)
    ensures
        r == !has_filler(orientation, children@),
{
    let mut i: usize = 0;
    while i < children.len()
        invariant
            i <= children.len(),
            forall|j: int| 0 <= j < i ==> along(orientation, children@[j]) != Size::MatchParent,
        decreases children.len() - i,
    {
        if children[i].along(orientation) == Size::MatchParent {
            return false;
        }
        i = i + 1;
    }
    true
}

/// What the last item of a box layout is.
#[derive(Clone, Copy, Debug, PartialEq, Eq, Structural)]
pub enum LastItem {
    /// The layout holds no item.
    Nothing,
    /// The last item is a stretchable spacer.
    Spacer,
    /// The last item is something else, such as a child's widget.
    Other,
}

/// What to do with the stretch at the end of a box layout.
#[derive(Clone, Copy, Debug, PartialEq, Eq, Structural)]
pub enum StretchAction {
    /// Append a stretch.
    Add,
    /// Remove the last item, a spacer.
    RemoveLast,
    /// Leave the layout as it is.
    Keep,
}

/// The stretch action for a layout that does or does not need a stretch and
/// ends with `last`.
pub open spec fn stretch_decision(needed: bool, last: LastItem) -> StretchAction {
    if needed && last != LastItem::Spacer {
        StretchAction::Add
    } else if !needed && last == LastItem::Spacer {
        StretchAction::RemoveLast
    } else {
        StretchAction::Keep
    }
}

/// Decides how to bring the trailing stretch in line with the children: add
/// one where a stretch is needed and the layout does not end in a spacer,
/// remove the trailing spacer where none is needed.
pub fn stretch_action(needed: bool, last: LastItem) -> (r: StretchAction)
    ensures
        r == stretch_decision(needed, last),
        needed && last != LastItem::Spacer ==> r == StretchAction::Add,
        !needed && last == LastItem::Spacer ==> r == StretchAction::RemoveLast,
        needed == (last == LastItem::Spacer) ==> r == StretchAction::Keep,
{
    if needed {
        if last == LastItem::Spacer {
            StretchAction::Keep
        } else {
            StretchAction::Add
        }
    } else {
        if last == LastItem::Spacer {
            StretchAction::RemoveLast
        } else {
            StretchAction::Keep
        }
    }
}

/// The items of a box layout, each marked whether it is a spacer, after a
/// stretch action.
pub open spec fn apply_stretch(items: Seq<bool>, action: StretchAction) -> Seq<bool> {
    match action {
        StretchAction::Add => items.push(true),
        StretchAction::RemoveLast => items.subrange(0, items.len() - 1),
        StretchAction::Keep => items,
    }
}

/// What the last of the marked items is.
pub open spec fn last_of(items: Seq<bool>) -> LastItem {
    if items.len() == 0 {
        LastItem::Nothing
    } else if items[items.len() - 1] {
        LastItem::Spacer
    } else {
        LastItem::Other
    }
}

/// A law of the stretch: once the decided action is applied, a layout that
/// needs a stretch ends in a spacer, and a layout that does not has one
/// trailing spacer fewer than before and no new one.
pub proof fn lemma_stretch_settles(items: Seq<bool>, needed: bool)
    ensures
        ({
            let after = apply_stretch(items, stretch_decision(needed, last_of(items)));
            &&& needed ==> last_of(after) == LastItem::Spacer
            &&& !needed ==> after.len() <= items.len()
            &&& !needed && last_of(items) == LastItem::Spacer ==> after =~= items.subrange(
                0,
                items.len() - 1,
            )
            &&& !needed && last_of(items) != LastItem::Spacer ==> after =~= items
        }),
{
}

} // verus!

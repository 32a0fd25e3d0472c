use plygui_qt::geometry::{
    coord_to_size, inner_extent, measure_content, measure_item_view, needs_content_measure,
    padded_label_size, room_inside,
};
use plygui_qt::layout::{LayoutParams, Margins, Orientation, Size, Visibility};
use plygui_qt::linear::{
    box_direction_to_orientation, child_measure_bounds, children_wrap_extent, measure,
    needs_stretch, next_origin, orientation_to_box_direction, placement, stretch_action,
    BoxDirection, ChildExtent, LastItem, StretchAction,
};

fn margins() -> Margins {
    Margins { left: 1, top: 2, right: 3, bottom: 4 }
}

fn wrap() -> LayoutParams {
    LayoutParams { width: Size::WrapContent, height: Size::WrapContent }
}

fn children() -> Vec<ChildExtent> {
    vec![
        ChildExtent { width: 10, height: 20, visibility: Visibility::Visible },
        ChildExtent { width: 30, height: 5, visibility: Visibility::Invisible },
        ChildExtent { width: 7, height: 7, visibility: Visibility::Gone },
    ]
}

#[test]
fn coord_to_size_clamps_and_truncates() {
    assert_eq!(coord_to_size(-5), 0);
    assert_eq!(coord_to_size(0), 0);
    assert_eq!(coord_to_size(300), 300);
    assert_eq!(coord_to_size(70000), 4464);
}

#[test]
fn inner_extent_takes_margins_off() {
    assert_eq!(inner_extent(100, 1, 3), 96);
    assert_eq!(inner_extent(3, 2, 2), 0);
    assert_eq!(room_inside(100, 50, margins()), (96, 44));
}

#[test]
fn content_measure_resolves_each_dimension() {
    let params = LayoutParams { width: Size::WrapContent, height: Size::Exact(7) };
    assert_eq!(measure_content(Visibility::Visible, params, 100, 100, -5, 99, (0, 7)), (0, 7, false));
    let params = LayoutParams { width: Size::MatchParent, height: Size::WrapContent };
    assert_eq!(measure_content(Visibility::Invisible, params, 100, 80, 1, 99, (0, 0)), (100, 99, true));
    assert_eq!(measure_content(Visibility::Gone, params, 100, 80, 1, 99, (0, 0)), (0, 0, false));
    assert_eq!(measure_content(Visibility::Gone, params, 100, 80, 1, 99, (5, 0)), (0, 0, true));
}

#[test]
fn item_views_wrap_to_a_fixed_extent() {
    assert_eq!(measure_item_view(Visibility::Visible, wrap(), 300, 300, (0, 0)), (42, 42, true));
    let params = LayoutParams { width: Size::MatchParent, height: Size::Exact(9) };
    assert_eq!(measure_item_view(Visibility::Visible, params, 300, 300, (300, 9)), (300, 9, false));
}

#[test]
fn labels_are_padded() {
    assert_eq!(padded_label_size(10, 20), (26, 36));
    assert_eq!(padded_label_size(-16, 0), (0, 16));
}

#[test]
fn content_is_read_only_when_wrapping() {
    assert!(needs_content_measure(Visibility::Visible, wrap()));
    let exact = LayoutParams { width: Size::Exact(3), height: Size::MatchParent };
    assert!(!needs_content_measure(Visibility::Visible, exact));
    assert!(!needs_content_measure(Visibility::Gone, wrap()));
}

#[test]
fn wrap_extent_stacks_or_takes_the_largest() {
    let c = children();
    assert_eq!(children_wrap_extent(&c, true, Orientation::Horizontal, 4), 55);
    assert_eq!(children_wrap_extent(&c, false, Orientation::Horizontal, 4), 34);
    assert_eq!(children_wrap_extent(&c, true, Orientation::Vertical, -3), 32);
    assert_eq!(children_wrap_extent(&Vec::new(), true, Orientation::Vertical, 4), 0);
}

#[test]
fn vertical_layout_wraps_children() {
    let r = measure(Orientation::Vertical, Visibility::Visible, wrap(), 100, 200, margins(), 4, &children(), (0, 0));
    assert_eq!(r, (42, 50, true));
    let again = measure(Orientation::Vertical, Visibility::Visible, wrap(), 100, 200, margins(), 4, &children(), (42, 50));
    assert_eq!(again, (42, 50, false));
}

#[test]
fn horizontal_layout_wraps_children() {
    let r = measure(Orientation::Horizontal, Visibility::Visible, wrap(), 100, 200, margins(), 4, &children(), (0, 0));
    assert_eq!(r, (63, 38, true));
}

#[test]
fn gone_or_fixed_layouts_ignore_children() {
    let r = measure(Orientation::Horizontal, Visibility::Gone, wrap(), 100, 200, margins(), 4, &children(), (0, 0));
    assert_eq!(r, (0, 0, false));
    let params = LayoutParams { width: Size::MatchParent, height: Size::Exact(12) };
    let r = measure(Orientation::Horizontal, Visibility::Visible, params, 100, 200, margins(), 4, &children(), (0, 0));
    assert_eq!(r, (100, 12, true));
}

#[test]
fn children_are_offered_the_inner_room() {
    assert_eq!(child_measure_bounds(100, 50, margins(), 4), (88, 44));
    assert_eq!(child_measure_bounds(5, 3, margins(), 4), (0, 0));
}

#[test]
fn children_are_placed_one_after_another() {
    let p = placement(margins(), 100, 50);
    assert_eq!(p.origin, (1, 2));
    assert_eq!(p.bounds, (96, 44));
    let o = next_origin(Orientation::Horizontal, p.origin, (10, 20), 4);
    assert_eq!(o, (15, 2));
    let o = next_origin(Orientation::Horizontal, o, (30, 5), 4);
    assert_eq!(o, (49, 2));
    let o = next_origin(Orientation::Vertical, (1, 2), (10, 20), 4);
    assert_eq!(o, (1, 26));
}

#[test]
fn placement_ends_where_wrapping_says() {
    // every child visible, spacing 4: the wrap width is 10+4+30+4 plus margins 1 and 3 plus 4
    let c = vec![
        ChildExtent { width: 10, height: 20, visibility: Visibility::Visible },
        ChildExtent { width: 30, height: 5, visibility: Visibility::Visible },
    ];
    let (w, _, _) = measure(Orientation::Horizontal, Visibility::Visible, wrap(), 0, 0, margins(), 4, &c, (0, 0));
    let mut o = (margins().left, margins().top);
    for child in &c {
        o = next_origin(Orientation::Horizontal, o, (child.width, child.height), 4);
    }
    assert_eq!(o.0 + margins().right + 4, w as i32);
}

#[test]
fn stretch_follows_the_fillers() {
    let plain = LayoutParams { width: Size::MatchParent, height: Size::WrapContent };
    let filler = LayoutParams { width: Size::WrapContent, height: Size::MatchParent };
    assert!(needs_stretch(Orientation::Vertical, &vec![plain]));
    assert!(!needs_stretch(Orientation::Vertical, &vec![plain, filler]));
    assert!(!needs_stretch(Orientation::Horizontal, &vec![plain]));
    assert!(needs_stretch(Orientation::Horizontal, &Vec::new()));
    assert_eq!(stretch_action(true, LastItem::Other), StretchAction::Add);
    assert_eq!(stretch_action(true, LastItem::Nothing), StretchAction::Add);
    assert_eq!(stretch_action(true, LastItem::Spacer), StretchAction::Keep);
    assert_eq!(stretch_action(false, LastItem::Spacer), StretchAction::RemoveLast);
    assert_eq!(stretch_action(false, LastItem::Other), StretchAction::Keep);
}

#[test]
fn orientation_survives_the_box_direction() {
    assert_eq!(orientation_to_box_direction(Orientation::Horizontal), BoxDirection::LeftToRight);
    assert_eq!(orientation_to_box_direction(Orientation::Vertical), BoxDirection::TopToBottom);
    for o in [Orientation::Horizontal, Orientation::Vertical] {
        assert_eq!(box_direction_to_orientation(orientation_to_box_direction(o)), o);
    }
}

use plygui_qt::children::{ChildList, SingleSlot, SplitPair};
use plygui_qt::layout::{LayoutParams, Margins, Orientation, Size, Visibility};
use plygui_qt::linear::ChildExtent;
use plygui_qt::splitted::{
    child_frames, child_measure_args, children_sizes, measure, split_axis, splitter_ratio, ChildFrame,
};

fn margins() -> Margins {
    Margins { left: 1, top: 2, right: 3, bottom: 4 }
}

#[test]
fn child_list_replaces_appends_and_removes() {
    let mut list: ChildList<char> = ChildList::new();
    assert_eq!(list.len(), 0);
    assert_eq!(list.set_child_to(0, 'a'), None);
    assert_eq!(list.set_child_to(1, 'b'), None);
    assert_eq!(list.set_child_to(0, 'c'), Some('a'));
    assert_eq!(list.as_slice(), &['c', 'b']);
    assert_eq!(list.child_at(1), Some(&'b'));
    assert_eq!(list.child_at(2), None);
    assert_eq!(list.remove_child_from(5), None);
    assert_eq!(list.remove_child_from(0), Some('c'));
    assert_eq!(list.as_slice(), &['b']);
}

#[test]
fn appended_child_comes_back_on_removal() {
    let mut list: ChildList<u8> = ChildList::new();
    list.insert(0, 1);
    list.insert(1, 2);
    let len = list.len();
    assert_eq!(list.set_child_to(len, 9), None);
    assert_eq!(list.remove_child_from(len), Some(9));
    assert_eq!(list.as_slice(), &[1, 2]);
    assert_eq!(list.remove(0), 1);
    assert_eq!(list.as_slice(), &[2]);
}

#[test]
fn split_pair_swaps_by_index() {
    let mut pair = SplitPair { first: 'a', second: 'b' };
    assert_eq!(pair.len(), 2);
    assert_eq!(pair.set_child_to(1, 'c'), Some('b'));
    assert_eq!(pair.set_child_to(0, 'd'), Some('a'));
    assert_eq!(pair.set_child_to(2, 'e'), None);
    assert_eq!((pair.first, pair.second), ('d', 'c'));
    assert_eq!(pair.child_at(0), Some(&'d'));
    assert_eq!(pair.child_at(3), None);
}

#[test]
fn single_slot_swaps() {
    let mut slot: SingleSlot<u8> = SingleSlot::new();
    assert_eq!(slot.set_child(Some(3)), None);
    assert_eq!(slot.set_child(None), Some(3));
    assert_eq!(slot.child, None);
}

#[test]
fn split_axis_follows_orientation() {
    let a = split_axis(Orientation::Horizontal, (200, 100), margins());
    assert_eq!((a.target, a.start, a.end), (200, 1, 3));
    let a = split_axis(Orientation::Vertical, (200, 100), margins());
    assert_eq!((a.target, a.start, a.end), (100, 2, 4));
}

#[test]
fn children_sizes_take_margin_and_half_handle() {
    let a = split_axis(Orientation::Horizontal, (200, 100), margins());
    assert_eq!(children_sizes(100, 100, &a, 5), (97, 95));
    assert_eq!(children_sizes(100, 100, &a, -5), (101, 99));
    assert_eq!(children_sizes(1, 2, &a, 6), (0, 0));
}

#[test]
fn children_are_measured_in_their_share() {
    assert_eq!(child_measure_args(Orientation::Horizontal, 97, (200, 100), margins()), (97, 94));
    assert_eq!(child_measure_args(Orientation::Vertical, 97, (200, 100), margins()), (196, 97));
}

#[test]
fn split_pane_wraps_its_children() {
    let wrap = LayoutParams { width: Size::WrapContent, height: Size::WrapContent };
    let first = ChildExtent { width: 10, height: 20, visibility: Visibility::Visible };
    let second = ChildExtent { width: 30, height: 40, visibility: Visibility::Visible };
    assert_eq!(measure(Orientation::Horizontal, Visibility::Visible, wrap, 0, 0, 5, first, second, (0, 0)), (50, 45, true));
    assert_eq!(measure(Orientation::Vertical, Visibility::Visible, wrap, 0, 0, 5, first, second, (0, 0)), (35, 70, true));
    let gone = ChildExtent { width: 30, height: 40, visibility: Visibility::Gone };
    assert_eq!(measure(Orientation::Horizontal, Visibility::Visible, wrap, 0, 0, 5, first, gone, (45, 40)), (45, 40, false));
    assert_eq!(measure(Orientation::Horizontal, Visibility::Gone, wrap, 0, 0, 5, first, gone, (45, 40)), (0, 0, true));
}

#[test]
fn split_pane_places_children_past_the_handle() {
    let (a, b) = child_frames(Orientation::Horizontal, margins(), 5, 97, 95, 200, 100);
    assert_eq!(a, ChildFrame { x: 7, y: 8, width: 97, height: 94 });
    assert_eq!(b, ChildFrame { x: 109, y: 8, width: 95, height: 94 });
    let (a, b) = child_frames(Orientation::Vertical, margins(), 5, 40, 50, 200, 100);
    assert_eq!(a, ChildFrame { x: 7, y: 8, width: 196, height: 40 });
    assert_eq!(b, ChildFrame { x: 7, y: 53, width: 196, height: 50 });
}

#[test]
fn handle_position_becomes_a_ratio() {
    assert_eq!(splitter_ratio(0, Orientation::Vertical, (10, 200)), None);
    assert_eq!(splitter_ratio(50, Orientation::Vertical, (10, 200)), Some((50, 200)));
    assert_eq!(splitter_ratio(50, Orientation::Horizontal, (10, 200)), Some((50, 10)));
    assert_eq!(splitter_ratio(50, Orientation::Vertical, (10, 0)), Some((50, 100)));
}

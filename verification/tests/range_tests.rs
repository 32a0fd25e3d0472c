use plygui_qt::frame;
use plygui_qt::layout::{LayoutParams, Margins, Orientation, Size, Visibility};
use plygui_qt::geometry::i32_fits;
use plygui_qt::linear::{children_extent_fits, measure_is_in_range, ChildExtent};
use plygui_qt::table::TableData;
use plygui_qt::tree::{heights_fit, insert_path_ok, remove_path_ok, TreeNode};

fn wrap() -> LayoutParams {
    LayoutParams { width: Size::WrapContent, height: Size::WrapContent }
}

#[test]
fn extents_that_overflow_a_size_are_caught() {
    let big = vec![
        ChildExtent { width: 40000, height: 1, visibility: Visibility::Visible },
        ChildExtent { width: 30000, height: 1, visibility: Visibility::Visible },
    ];
    assert!(!children_extent_fits(&big, true, Orientation::Horizontal, 0));
    assert!(children_extent_fits(&big, false, Orientation::Horizontal, 0));
    assert!(!measure_is_in_range(Orientation::Horizontal, Visibility::Visible, wrap(), Margins { left: 0, top: 0, right: 0, bottom: 0 }, 0, &big));
    assert!(measure_is_in_range(Orientation::Horizontal, Visibility::Gone, wrap(), Margins { left: 0, top: 0, right: 0, bottom: 0 }, 0, &big));
    let m = Margins { left: i32::MAX, top: 0, right: 0, bottom: 0 };
    let small = vec![ChildExtent { width: 1, height: 1, visibility: Visibility::Visible }];
    assert!(!measure_is_in_range(Orientation::Vertical, Visibility::Visible, wrap(), m, 0, &small));
    assert!(i32_fits(i32::MIN as i64));
    assert!(!i32_fits(i32::MAX as i64 + 1));
}

#[test]
fn frame_sums_that_overflow_are_caught() {
    let m = Margins { left: 1, top: i32::MAX, right: 1, bottom: 1 };
    assert!(!frame::measure_is_in_range(Visibility::Visible, wrap(), m, 0, Some((1, 1))));
    assert!(frame::measure_is_in_range(Visibility::Visible, wrap(), m, 0, None));
}

#[test]
fn tree_paths_are_checked() {
    let top = vec![TreeNode { item: 'a', branches: vec![TreeNode { item: 'b', branches: vec![] }] }];
    assert!(insert_path_ok(&top, &vec![1]));
    assert!(!insert_path_ok(&top, &vec![2]));
    assert!(insert_path_ok(&top, &vec![0, 1]));
    assert!(!insert_path_ok(&top, &vec![1, 0]));
    assert!(remove_path_ok(&top, &vec![0]));
    assert!(!remove_path_ok(&top, &vec![0, 0]));
    assert!(!remove_path_ok(&top, &vec![3]));
    assert!(remove_path_ok(&vec![TreeNode { item: 'a', branches: vec![] }, TreeNode { item: 'c', branches: vec![] }], &vec![1, 0]));
    assert!(heights_fit(&vec![1, 2, 3]));
    assert!(!heights_fit(&vec![u16::MAX; 40000]));
}

#[test]
fn an_empty_table_cannot_share_its_extent() {
    let mut t: TableData<u8, u8> = TableData::new(Size::WrapContent);
    assert!(!t.can_size(Size::MatchParent));
    assert!(t.can_size(Size::WrapContent));
    t.add_column(0, 0);
    assert!(t.can_size(Size::MatchParent));
}

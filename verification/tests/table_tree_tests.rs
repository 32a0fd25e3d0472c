use plygui_qt::layout::Size;
use plygui_qt::table::{change_target, header_widget_geometry, initial_target, max_extent, TableData, TableTarget};
use plygui_qt::tree::{insert_at, items_in_order, node_at, remove_at, total_height, TreeNode};

fn cells(t: &TableData<&'static str, u32>, y: usize) -> Vec<Option<u32>> {
    t.rows[y].cells.clone()
}

#[test]
fn rows_and_columns_keep_one_cell_per_column() {
    let mut t: TableData<&str, u32> = TableData::new(Size::Exact(20));
    assert_eq!(t.missing_for_cell(0, 0), (true, true));
    t.add_row(0, "r0");
    t.add_column(0, "c0");
    t.add_column(1, "c1");
    assert_eq!(cells(&t, 0), vec![None, None]);
    assert_eq!(t.rows[0].height, Size::Exact(20));
    assert_eq!(t.cols[1].width, Size::MatchParent);
    t.add_row(1, "r1");
    assert_eq!(cells(&t, 1), vec![None, None]);
    assert_eq!(t.missing_for_cell(1, 1), (false, false));
    assert_eq!(t.missing_for_cell(2, 1), (false, true));
    t.put_cell(1, 0, 7);
    assert_eq!(cells(&t, 0), vec![None, Some(7)]);
    t.add_column(1, "mid");
    assert_eq!(cells(&t, 0), vec![None, None, Some(7)]);
    assert_eq!(t.cols.iter().map(|c| c.head).collect::<Vec<_>>(), vec!["c0", "mid", "c1"]);
}

#[test]
fn removing_a_cell_leaves_it_empty() {
    let mut t: TableData<&str, u32> = TableData::new(Size::WrapContent);
    t.add_column(0, "c0");
    t.add_row(0, "r0");
    t.put_cell(0, 0, 5);
    assert_eq!(t.remove_cell(0, 0), Some(5));
    assert_eq!(cells(&t, 0), vec![None]);
    assert_eq!(t.remove_cell(0, 0), None);
    assert_eq!(t.remove_cell(0, 4), None);
}

#[test]
fn removing_a_column_hands_back_its_cells() {
    let mut t: TableData<&str, u32> = TableData::new(Size::WrapContent);
    t.add_column(0, "c0");
    t.add_column(1, "c1");
    t.add_row(0, "r0");
    t.add_row(1, "r1");
    t.add_row(2, "r2");
    t.put_cell(1, 0, 10);
    t.put_cell(1, 2, 12);
    t.put_cell(0, 1, 1);
    let (removed, column) = t.remove_column(1);
    assert_eq!(removed, vec![(0, 10), (2, 12)]);
    assert_eq!(column.map(|c| c.head), Some("c1"));
    assert_eq!(cells(&t, 1), vec![Some(1)]);
    assert_eq!(t.cols.len(), 1);
    let (removed, column) = t.remove_column(3);
    assert!(removed.is_empty());
    assert!(column.is_none());
}

#[test]
fn removing_a_row_takes_its_cells_only() {
    let mut t: TableData<&str, u32> = TableData::new(Size::WrapContent);
    t.add_column(0, "c0");
    t.add_row(0, "r0");
    t.put_cell(0, 0, 3);
    assert_eq!(t.remove_row(0), vec![(0, 3)]);
    assert_eq!(t.rows.len(), 1);
    assert!(t.rows[0].cells.is_empty());
    assert!(t.remove_row(7).is_empty());
}

#[test]
fn rows_and_columns_are_sized() {
    let mut t: TableData<&str, u32> = TableData::new(Size::Exact(20));
    t.add_column(0, "c0");
    t.add_column(1, "c1");
    t.add_row(0, "r0");
    t.add_row(1, "r1");
    let heights = vec![Some(3), None, Some(9), Some(4)];
    assert_eq!(t.resize_row(Size::MatchParent, 101, &heights), 50);
    assert!(t.rows.iter().all(|r| r.height == Size::MatchParent));
    assert_eq!(t.resize_row(Size::WrapContent, 101, &heights), 9);
    assert_eq!(t.resize_row(Size::Exact(33), 101, &heights), 33);
    assert!(t.rows.iter().all(|r| r.height == Size::Exact(33)));
    assert_eq!(t.resize_column(1, Size::Exact(70), 300, &heights), 70);
    assert_eq!(t.cols[1].width, Size::Exact(70));
    assert_eq!(t.cols[0].width, Size::MatchParent);
    assert_eq!(t.resize_column(0, Size::MatchParent, 300, &heights), 150);
    assert_eq!(t.resize_column(5, Size::WrapContent, 300, &vec![None, Some(2)]), 2);
}

#[test]
fn largest_extent_of_present_values() {
    assert_eq!(max_extent(&vec![]), 0);
    assert_eq!(max_extent(&vec![None, None]), 0);
    assert_eq!(max_extent(&vec![Some(4), None, Some(11), Some(2)]), 11);
}

#[test]
fn changes_name_cells_or_columns() {
    assert_eq!(change_target(&vec![2, 3], false), TableTarget::Cell(2, 3));
    assert_eq!(change_target(&vec![2, 3], true), TableTarget::Cell(2, 3));
    assert_eq!(change_target(&vec![2], false), TableTarget::Column(2));
    assert_eq!(initial_target(&vec![1, 4], false), TableTarget::Column(1));
    assert_eq!(initial_target(&vec![1, 4], true), TableTarget::Cell(1, 4));
    assert_eq!(header_widget_geometry(10, 100, 30), (12, 2, 95, 25));
}

fn leaf(item: char) -> TreeNode<char> {
    TreeNode { item, branches: Vec::new() }
}

#[test]
fn tree_nodes_are_inserted_along_paths() {
    let mut top: Vec<TreeNode<char>> = Vec::new();
    insert_at(&mut top, &vec![0], leaf('a'));
    insert_at(&mut top, &vec![1], leaf('c'));
    insert_at(&mut top, &vec![0, 0], leaf('b'));
    insert_at(&mut top, &vec![], leaf('x'));
    assert_eq!(top.len(), 2);
    assert_eq!(node_at(&top, &vec![0, 0]).map(|n| n.item), Some('b'));
    assert_eq!(node_at(&top, &vec![1]).map(|n| n.item), Some('c'));
    assert!(node_at(&top, &vec![2]).is_none());
    assert!(node_at(&top, &vec![]).is_none());
    let order: Vec<char> = items_in_order(&top).into_iter().copied().collect();
    assert_eq!(order, vec!['a', 'b', 'c']);
}

#[test]
fn tree_nodes_are_removed_along_paths() {
    let mut top: Vec<TreeNode<char>> = Vec::new();
    insert_at(&mut top, &vec![0], leaf('a'));
    insert_at(&mut top, &vec![1], leaf('c'));
    insert_at(&mut top, &vec![0, 0], leaf('b'));
    let removed = remove_at(&mut top, &vec![0, 0]);
    assert_eq!(removed.len(), 1);
    assert_eq!((removed[0].step, removed[0].top_level, removed[0].node.item), (1, false, 'b'));
    assert!(top[0].branches.is_empty());
    let removed = remove_at(&mut top, &vec![1]);
    assert_eq!((removed[0].step, removed[0].top_level, removed[0].node.item), (0, true, 'c'));
    assert_eq!(top.len(), 1);
}

#[test]
fn tree_heights_add_up() {
    assert_eq!(total_height(&vec![3, 4, 5]), 12);
    assert_eq!(total_height(&vec![]), 0);
}

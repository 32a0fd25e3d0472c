//! The table: a matrix of optional cells under a row of column headers. The
//! payload of a header (`K`) and of a cell (`C`) is whatever the caller keeps
//! there; this module keeps the shape of the matrix and sizes its rows and
//! columns.
use vstd::prelude::*;
use crate::layout::Size;
use crate::geometry::fits_i32;

verus! {

/// A column: its header payload and the width it asks for.
pub struct Column<K> {
    pub head: K,
    pub width: Size,
}

/// A row: its header payload, one optional cell per column, and the height it
/// asks for.
pub struct Row<K, C> {
    pub head: K,
    pub cells: Vec<Option<C>>,
    pub height: Size,
}

/// The rows and columns of a table.
pub struct TableData<K, C> {
    pub rows: Vec<Row<K, C>>,
    pub cols: Vec<Column<K>>,
    pub default_row_height: Size,
}

/// A row as plain values: header, cells, requested height.
pub type RowView<K, C> = (K, Seq<Option<C>>, Size);

/// The plain view of a row.
pub open spec fn row_view<K, C>(row: Row<K, C>) -> RowView<K, C> {
    (row.head, row.cells@, row.height)
}

/// `row` with its cell at `x` replaced by `cell`.
pub open spec fn with_cell<K, C>(row: RowView<K, C>, x: int, cell: Option<C>) -> RowView<K, C> {
    (row.0, row.1.update(x, cell), row.2)
}

/// `row` with an empty cell inserted at `x`.
pub open spec fn with_empty_cell_at<K, C>(row: RowView<K, C>, x: int) -> RowView<K, C> {
    (row.0, row.1.insert(x, None), row.2)
}

/// `n` empty cells.
pub open spec fn empty_cells<C>(n: nat) -> Seq<Option<C>> {
    Seq::new(n, |i: int| None)
}

/// The largest of the values that are present, or zero.
pub open spec fn max_present(values: Seq<Option<u16>>) -> u16
    decreases values.len(),
{
    if values.len() == 0 {
        0
    } else {
        let prev = max_present(values.subrange(0, values.len() - 1));
        match values[values.len() - 1] {
            Some(v) => if prev > v {
                prev
            } else {
                v
            },
            None => prev,
        }
    }
}

/// A law of the wrap extent: it is at least every present value, and it is
/// one of them, or zero when none is present.
pub proof fn lemma_max_present_is_largest(values: Seq<Option<u16>>)
    ensures
        forall|i: int| 0 <= i < values.len() && (#[trigger] values[i]) is Some ==> max_present(values) >= values[i]->0,
        max_present(values) == 0 || exists|i: int| 0 <= i < values.len() && #[trigger] values[i] == Some(max_present(values)),
    decreases values.len(),
{
    if values.len() > 0 {
        let shorter = values.subrange(0, values.len() - 1);
        lemma_max_present_is_largest(shorter);
        assert forall|i: int| 0 <= i < values.len() && (#[trigger] values[i]) is Some implies max_present(values) >= values[i]->0 by {
            if i < values.len() - 1 {
                assert(shorter[i] == values[i]);
            }
        }
        let m = max_present(values);
        if m != 0 {
            if m == max_present(shorter) {
                let k = choose|k: int| 0 <= k < shorter.len() && #[trigger] shorter[k] == Some(max_present(shorter));
                assert(values[k] == Some(m));
            } else {
                assert(values[values.len() - 1] == Some(m));
            }
        }
    }
}

/// The largest of the sizes that are present, or zero when none is.
pub fn max_extent(values: &Vec<Option<u16>>) -> (r: u16)
    ensures
        r == max_present(values@),
        forall|i: int| 0 <= i < values@.len() && (#[trigger] values@[i]) is Some ==> r >= values@[i]->0,
        r == 0 || exists|i: int| 0 <= i < values@.len() && #[trigger] values@[i] == Some(r),
{
    proof {
        lemma_max_present_is_largest(values@);
    }
    let mut acc: u16 = 0;
    let mut i: usize = 0;
    while i < values.len()
        invariant
            i <= values.len(),
            acc == max_present(values@.subrange(0, i as int)),
        decreases values.len() - i,
    {
        proof {
            let next = values@.subrange(0, i + 1);
            assert(next.subrange(0, i as int) =~= values@.subrange(0, i as int));
        }
        match values[i] {
            Some(v) => {
                if !(acc > v) {
                    acc = v;
                }
            },
            None => {},
        }
        i = i + 1;
    }
    assert(values@.subrange(0, values.len() as int) =~= values@);
    acc
}

/// The pixel extent a row or column gets: the exact size asked for, the
/// largest cell when wrapping content, or an equal share of `measured` over
/// the columns when filling the table.
pub open spec fn share_extent(size: Size, measured: u16, ncols: usize, cells: Seq<Option<u16>>) -> u16 {
    match size {
        Size::Exact(v) => v,
        Size::WrapContent => max_present(cells),
        Size::MatchParent => (measured / (ncols as u16)) as u16,
    }
}

/// Whether a row or column of size `size` can be given an extent: filling the
/// table divides by the number of columns, which must not be zero as a size.
pub open spec fn sizable(size: Size, ncols: usize) -> bool {
    size == Size::MatchParent ==> (ncols as u16) != 0
}

/// The cells that go when column `index` is removed from `rows`: each present
/// cell at that index, with the number of its row, in row order.
pub open spec fn cells_at<K, C>(rows: Seq<RowView<K, C>>, index: int) -> Seq<(usize, C)>
    decreases rows.len(),
{
    if rows.len() == 0 {
        Seq::empty()
    } else {
        let last = rows[rows.len() - 1];
        let prev = cells_at(rows.subrange(0, rows.len() - 1), index);
        if 0 <= index < last.1.len() && last.1[index] is Some {
            prev.push(((rows.len() - 1) as usize, last.1[index]->0))
        } else {
            prev
        }
    }
}

/// A law of the cells a removed column hands back: each is the present cell
/// of its row at that column, their row numbers rise strictly, and every row
/// with a present cell there is among them.
pub proof fn lemma_cells_at_are_the_column<K, C>(rows: Seq<RowView<K, C>>, index: int)
    requires
        rows.len() <= usize::MAX,
    ensures
        forall|k: int|
            0 <= k < cells_at(rows, index).len() ==> {
                let e = #[trigger] cells_at(rows, index)[k];
                &&& (e.0 as int) < rows.len()
                &&& 0 <= index < rows[e.0 as int].1.len()
                &&& rows[e.0 as int].1[index] == Some(e.1)
            },
        forall|k1: int, k2: int|
            0 <= k1 < k2 < cells_at(rows, index).len() ==> (#[trigger] cells_at(rows, index)[k1]).0
                < (#[trigger] cells_at(rows, index)[k2]).0,
        forall|y: int|
            0 <= y < rows.len() && 0 <= index < rows[y].1.len() && (#[trigger] rows[y]).1[index] is Some
                ==> exists|k: int|
                0 <= k < cells_at(rows, index).len() && (#[trigger] cells_at(rows, index)[k]).0 == y,
    decreases rows.len(),
{
    if rows.len() > 0 {
        let shorter = rows.subrange(0, rows.len() - 1);
        lemma_cells_at_are_the_column(shorter, index);
        let prev = cells_at(shorter, index);
        let cs = cells_at(rows, index);
        let last = rows[rows.len() - 1];
        assert forall|y: int| 0 <= y < shorter.len() implies #[trigger] shorter[y] == rows[y] by {}
        if 0 <= index < last.1.len() && last.1[index] is Some {
            assert(cs == prev.push(((rows.len() - 1) as usize, last.1[index]->0)));
            assert(cs[prev.len() as int].0 as int == rows.len() - 1);
            assert forall|k: int| 0 <= k < cs.len() implies {
                let e = #[trigger] cs[k];
                &&& (e.0 as int) < rows.len()
                &&& 0 <= index < rows[e.0 as int].1.len()
                &&& rows[e.0 as int].1[index] == Some(e.1)
            } by {
                if k < prev.len() {
                    assert(cs[k] == prev[k]);
                    assert(shorter[prev[k].0 as int] == rows[prev[k].0 as int]);
                }
            }
            assert forall|k1: int, k2: int| 0 <= k1 < k2 < cs.len() implies (#[trigger] cs[k1]).0
                < (#[trigger] cs[k2]).0 by {
                assert(cs[k1] == prev[k1]);
                if k2 < prev.len() {
                    assert(cs[k2] == prev[k2]);
                }
            }
            assert forall|y: int|
                0 <= y < rows.len() && 0 <= index < rows[y].1.len() && (#[trigger] rows[y]).1[index] is Some
                implies exists|k: int| 0 <= k < cs.len() && (#[trigger] cs[k]).0 == y by {
                if y < rows.len() - 1 {
                    assert(shorter[y] == rows[y]);
                    let k = choose|k: int| 0 <= k < prev.len() && (#[trigger] prev[k]).0 == y;
                    assert(cs[k] == prev[k]);
                } else {
                    assert(cs[prev.len() as int].0 == y);
                }
            }
        } else {
            assert(cs == prev);
            assert forall|k: int| 0 <= k < cs.len() implies {
                let e = #[trigger] cs[k];
                &&& (e.0 as int) < rows.len()
                &&& 0 <= index < rows[e.0 as int].1.len()
                &&& rows[e.0 as int].1[index] == Some(e.1)
            } by {
                assert(shorter[prev[k].0 as int] == rows[prev[k].0 as int]);
            }
            assert forall|y: int|
                0 <= y < rows.len() && 0 <= index < rows[y].1.len() && (#[trigger] rows[y]).1[index] is Some
                implies exists|k: int| 0 <= k < cs.len() && (#[trigger] cs[k]).0 == y by {
                assert(shorter[y] == rows[y]);
                let k = choose|k: int| 0 <= k < prev.len() && (#[trigger] prev[k]).0 == y;
            }
        }
    }
}

/// `row` without its cell at `index`, where it has one.
pub open spec fn without_cell_at<K, C>(row: RowView<K, C>, index: int) -> RowView<K, C> {
    if 0 <= index < row.1.len() {
        (row.0, row.1.remove(index), row.2)
    } else {
        row
    }
}

/// What a change reported by the table's data source is about.
#[derive(Clone, Copy, Debug, PartialEq, Eq, Structural)]
pub enum TableTarget {
    /// The cell at column `x`, row `y`.
    Cell(usize, usize),
    /// The column at this index.
    Column(usize),
}

/// Reads which cell or column a change at the index path `at` is about: a leaf,
/// or any path of two or more indices, names a cell by its first two indices;
/// otherwise the first index names a column.
pub fn change_target(at: &Vec<usize>, is_leaf: bool) -> (r: TableTarget)
    requires
        at@.len() >= 1,
        is_leaf ==> at@.len() >= 2,
    ensures
        is_leaf || at@.len() > 1 ==> r == TableTarget::Cell(at@[0], at@[1]),
        !(is_leaf || at@.len() > 1) ==> r == TableTarget::Column(at@[0]),
{
    if is_leaf || at.len() > 1 {
        TableTarget::Cell(at[0], at[1])
    } else {
        TableTarget::Column(at[0])
    }
}

/// Reads what a node met while filling a new table from its data source is:
/// a leaf is the cell named by its first two indices, a branch the column
/// named by its first index.
pub fn initial_target(at: &Vec<usize>, is_leaf: bool) -> (r: TableTarget)
    requires
        at@.len() >= 1,
        is_leaf ==> at@.len() >= 2,
    ensures
        is_leaf ==> r == TableTarget::Cell(at@[0], at@[1]),
        !is_leaf ==> r == TableTarget::Column(at@[0]),
{
    if is_leaf {
        TableTarget::Cell(at[0], at[1])
    } else {
        TableTarget::Column(at[0])
    }
}

/// Where the widget of a column header goes inside the header bar: two pixels
/// in from the section's left edge and from the top, three less than the
/// section and the bar on the far sides.
pub fn header_widget_geometry(section_position: i32, section_size: i32, header_height: i32) -> (r: (
    i32,
    i32,
    i32,
    i32,
))
    requires
        fits_i32(section_position + 2),
        fits_i32(section_size - 2 - 2 - 1),
        fits_i32(header_height - 2 - 2 - 1),
    ensures
        r.0 == section_position + 2,
        r.1 == 2,
        r.2 == section_size - 5,
        r.3 == header_height - 5,
{
    (section_position + 2, 2, section_size - 2 - 2 - 1, header_height - 2 - 2 - 1)
}

impl<K, C> TableData<K, C> {
    /// The rows as plain values.
    pub open spec fn rows_view(&self) -> Seq<RowView<K, C>> {
        self.rows@.map_values(|r: Row<K, C>| row_view(r))
    }

    /// Every row has one cell per column.
    pub open spec fn wf(&self) -> bool {
        forall|i: int| 0 <= i < self.rows@.len() ==> #[trigger] self.rows@[i].cells@.len() == self.cols@.len()
    }

    /// An empty table whose new rows ask for `default_row_height`.
    pub fn new(default_row_height: Size) -> (r: Self)
        ensures
            r.rows@.len() == 0,
            r.cols@.len() == 0,
            r.default_row_height == default_row_height,
            r.wf(),
    {
        TableData { rows: Vec::new(), cols: Vec::new(), default_row_height }
    }

    /// Inserts an empty row at `index`, asking for the default height.
    pub fn add_row(&mut self, index: usize, head: K)
        requires
            index <= old(self).rows@.len(),
        ensures
            final(self).rows_view() == old(self).rows_view().insert(
                index as int,
                (head, empty_cells::<C>(old(self).cols@.len()), old(self).default_row_height),
            ),
            final(self).cols@ == old(self).cols@,
            final(self).default_row_height == old(self).default_row_height,
            old(self).wf() ==> final(self).wf(),
    {
        let mut cells: Vec<Option<C>> = Vec::new();
        let mut j: usize = 0;
        while j < self.cols.len()
            invariant
                j <= self.cols@.len(),
                cells@ =~= empty_cells::<C>(j as nat),
            decreases self.cols@.len() - j,
        {
            cells.push(None);
            j = j + 1;
        }
        let row = Row { head, cells, height: self.default_row_height };
        self.rows.insert(index, row);
        proof {
            assert(self.rows_view() =~= old(self).rows_view().insert(
                index as int,
                (head, empty_cells::<C>(old(self).cols@.len()), old(self).default_row_height),
            ));
            if old(self).wf() {
                assert forall|i: int| 0 <= i < self.rows@.len() implies #[trigger] self.rows@[i].cells@.len()
                    == self.cols@.len() by {
                    if i < index {
                        assert(self.rows@[i] == old(self).rows@[i]);
                    } else if i > index {
                        assert(self.rows@[i] == old(self).rows@[i - 1]);
                    } else {
                        assert(self.rows@[i].cells@ =~= empty_cells::<C>(self.cols@.len()));
                    }
                }
            }
        }
    }

    /// Inserts a column at `index` that fills the table, and an empty cell at
    /// `index` in every row.
    pub fn add_column(&mut self, index: usize, head: K)
        requires
            index <= old(self).cols@.len(),
            old(self).wf(),
        ensures
            final(self).cols@.len() == old(self).cols@.len() + 1,
            final(self).cols@[index as int].head == head,
            final(self).cols@[index as int].width == Size::MatchParent,
            forall|i: int| 0 <= i < index ==> #[trigger] final(self).cols@[i] == old(self).cols@[i],
            forall|i: int|
                index < i < final(self).cols@.len() ==> #[trigger] final(self).cols@[i] == old(
                    self,
                ).cols@[i - 1],
            final(self).rows@.len() == old(self).rows@.len(),
            forall|i: int|
                0 <= i < final(self).rows@.len() ==> (#[trigger] final(self).rows_view()[i]) == with_empty_cell_at(
                    old(self).rows_view()[i],
                    index as int,
                ),
            final(self).default_row_height == old(self).default_row_height,
            final(self).wf(),
    {
        self.cols.insert(index, Column { head, width: Size::MatchParent });
        let ghost cols_after = self.cols@;
        let mut i: usize = 0;
        while i < self.rows.len()
            invariant
                i <= self.rows@.len(),
                self.rows@.len() == old(self).rows@.len(),
                self.cols@ == cols_after,
                self.default_row_height == old(self).default_row_height,
                index <= old(self).cols@.len(),
                old(self).wf(),
                forall|j: int|
                    0 <= j < i ==> (#[trigger] self.rows_view()[j]) == with_empty_cell_at(
                        old(self).rows_view()[j],
                        index as int,
                    ),
                forall|j: int| i <= j < self.rows@.len() ==> #[trigger] self.rows@[j] == old(self).rows@[j],
            decreases self.rows@.len() - i,
        {
            assert(self.rows@[i as int].cells@.len() == old(self).cols@.len());
            let ghost prev = self.rows@;
            let ghost prev_view = self.rows_view();
            self.rows[i].cells.insert(index, None);
            proof {
                assert(forall|j: int| 0 <= j < prev.len() && j != i ==> self.rows@[j] == prev[j]);
                assert(self.rows@[i as int].head == prev[i as int].head);
                assert(self.rows@[i as int].height == prev[i as int].height);
                assert(self.rows@[i as int].cells@ == prev[i as int].cells@.insert(index as int, None));
                assert(self.rows_view()[i as int] == with_empty_cell_at(
                    old(self).rows_view()[i as int],
                    index as int,
                ));
                assert forall|j: int| 0 <= j < i implies (#[trigger] self.rows_view()[j])
                    == with_empty_cell_at(old(self).rows_view()[j], index as int) by {
                    assert(self.rows@[j] == prev[j]);
                    assert(prev_view[j] == row_view(prev[j]));
                }
            }
            i = i + 1;
        }
        proof {
            assert forall|j: int| 0 <= j < self.rows@.len() implies #[trigger] self.rows@[j].cells@.len()
                == self.cols@.len() by {
                assert(self.rows_view()[j].1 == self.rows@[j].cells@);
                assert(old(self).rows@[j].cells@.len() == old(self).cols@.len());
            }
        }
    }

    /// Which of the row and the column of the cell at column `x`, row `y` must
    /// be added before the cell can be put there.
    pub fn missing_for_cell(&self, x: usize, y: usize) -> (r: (bool, bool))
        ensures
            r.0 == (self.rows@.len() <= y),
            r.1 == (self.cols@.len() <= x),
    {
        (self.rows.len() <= y, self.cols.len() <= x)
    }

    /// Puts `cell` at column `x` of row `y`, where there is a cell already.
    pub fn put_cell(&mut self, x: usize, y: usize, cell: C)
        requires
            y < old(self).rows@.len(),
            x < old(self).cols@.len(),
            old(self).wf(),
        ensures
            final(self).rows@.len() == old(self).rows@.len(),
            final(self).cols@ == old(self).cols@,
            final(self).rows_view() == old(self).rows_view().update(
                y as int,
                with_cell(old(self).rows_view()[y as int], x as int, Some(cell)),
            ),
            final(self).default_row_height == old(self).default_row_height,
            final(self).wf(),
    {
        assert(self.rows@[y as int].cells@.len() == self.cols@.len());
        let ghost before = self.rows@[y as int].cells@;
        self.rows[y].cells.insert(x, Some(cell));
        if self.rows[y].cells.len() > x {
            self.rows[y].cells.remove(x + 1);
        }
        proof {
            assert(self.rows@[y as int].cells@ =~= before.update(x as int, Some(cell)));
            assert(self.rows_view() =~= old(self).rows_view().update(
                y as int,
                with_cell(old(self).rows_view()[y as int], x as int, Some(cell)),
            ));
            assert forall|j: int| 0 <= j < self.rows@.len() implies #[trigger] self.rows@[j].cells@.len()
                == self.cols@.len() by {
                if j != y {
                    assert(self.rows@[j] == old(self).rows@[j]);
                }
            }
        }
    }

    /// Empties the cell at column `x` of row `y`, if row `y` exists, and hands
    /// back what it held.
    pub fn remove_cell(&mut self, x: usize, y: usize) -> (r: Option<C>)
        requires
            y < old(self).rows@.len() ==> x < old(self).rows@[y as int].cells@.len(),
        ensures
            y >= old(self).rows@.len() ==> r is None && final(self).rows_view() == old(self).rows_view(),
            y < old(self).rows@.len() ==> r == old(self).rows_view()[y as int].1[x as int]
                && final(self).rows_view() == old(self).rows_view().update(
                y as int,
                with_cell(old(self).rows_view()[y as int], x as int, None),
            ),
            final(self).cols@ == old(self).cols@,
            final(self).default_row_height == old(self).default_row_height,
            old(self).wf() ==> final(self).wf(),
    {
        if y < self.rows.len() {
            let ghost before = self.rows@[y as int].cells@;
            let removed = self.rows[y].cells.remove(x);
            self.rows[y].cells.insert(x, None);
            proof {
                assert(self.rows@[y as int].cells@ =~= before.update(x as int, None));
                assert(self.rows_view() =~= old(self).rows_view().update(
                    y as int,
                    with_cell(old(self).rows_view()[y as int], x as int, None),
                ));
                if old(self).wf() {
                    assert forall|j: int| 0 <= j < self.rows@.len() implies #[trigger] self.rows@[j].cells@.len()
                        == self.cols@.len() by {
                        if j != y {
                            assert(self.rows@[j] == old(self).rows@[j]);
                        }
                    }
                }
            }
            removed
        } else {
            None
        }
    }

    /// Tells whether a row or column of size `size` can be given an extent in
    /// this table, which `resize_row` and `resize_column` need.
    pub fn can_size(&self, size: Size) -> (r: bool)
        ensures
            r == sizable(size, self.cols@.len() as usize),
    {
        size != Size::MatchParent || (self.cols.len() as u16) != 0
    }

    /// Gives every row the requested height `size` and works out the pixel
    /// height the row at hand gets (see `share_extent`), from the table's
    /// measured height and the heights of the cells' controls.
    pub fn resize_row(&mut self, size: Size, measured_height: u16, cell_heights: &Vec<Option<u16>>) -> (r: u16)
        requires
            sizable(size, old(self).cols@.len() as usize),
        ensures
            r == share_extent(size, measured_height, old(self).cols@.len() as usize, cell_heights@),
            size matches Size::Exact(v) ==> r == v,
            size == Size::MatchParent ==> r == measured_height / (old(self).cols.len() as u16),
            size == Size::WrapContent ==> forall|i: int|
                0 <= i < cell_heights@.len() && (#[trigger] cell_heights@[i]) is Some ==> r >= cell_heights@[i]->0,
            size == Size::WrapContent ==> r == 0 || exists|i: int|
                0 <= i < cell_heights@.len() && #[trigger] cell_heights@[i] == Some(r),
            final(self).rows@.len() == old(self).rows@.len(),
            forall|i: int|
                0 <= i < final(self).rows@.len() ==> (#[trigger] final(self).rows_view()[i]) == (
                    old(self).rows_view()[i].0,
                    old(self).rows_view()[i].1,
                    size,
                ),
            final(self).cols@ == old(self).cols@,
            final(self).default_row_height == old(self).default_row_height,
            old(self).wf() ==> final(self).wf(),
    {
        let extent = self.extent_for(size, measured_height, cell_heights);
        proof {
            lemma_max_present_is_largest(cell_heights@);
        }
        let mut i: usize = 0;
        while i < self.rows.len()
            invariant
                i <= self.rows@.len(),
                self.rows@.len() == old(self).rows@.len(),
                self.cols@ == old(self).cols@,
                self.default_row_height == old(self).default_row_height,
                forall|j: int|
                    0 <= j < i ==> (#[trigger] self.rows_view()[j]) == (
                        old(self).rows_view()[j].0,
                        old(self).rows_view()[j].1,
                        size,
                    ),
                forall|j: int| i <= j < self.rows@.len() ==> #[trigger] self.rows@[j] == old(self).rows@[j],
            decreases self.rows@.len() - i,
        {
            let ghost prev = self.rows@;
            let ghost prev_view = self.rows_view();
            self.rows[i].height = size;
            proof {
                assert(forall|j: int| 0 <= j < prev.len() && j != i ==> self.rows@[j] == prev[j]);
                assert forall|j: int| 0 <= j < i implies (#[trigger] self.rows_view()[j]) == (
                    old(self).rows_view()[j].0,
                    old(self).rows_view()[j].1,
                    size,
                ) by {
                    assert(self.rows@[j] == prev[j]);
                    assert(prev_view[j] == row_view(prev[j]));
                }
            }
            i = i + 1;
        }
        proof {
            if old(self).wf() {
                assert forall|j: int| 0 <= j < self.rows@.len() implies #[trigger] self.rows@[j].cells@.len()
                    == self.cols@.len() by {
                    assert(self.rows_view()[j].1 == self.rows@[j].cells@);
                }
            }
        }
        extent
    }

    /// Gives the column at `index`, if there is one, the requested width
    /// `size`, and works out the pixel width it gets (see `share_extent`), from
    /// the table's measured width and the widths of the cells' controls.
    pub fn resize_column(&mut self, index: usize, size: Size, measured_width: u16, cell_widths: &Vec<Option<u16>>) -> (r: u16)
        requires
            sizable(size, old(self).cols@.len() as usize),
        ensures
            r == share_extent(size, measured_width, old(self).cols@.len() as usize, cell_widths@),
            size matches Size::Exact(v) ==> r == v,
            size == Size::MatchParent ==> r == measured_width / (old(self).cols.len() as u16),
            size == Size::WrapContent ==> forall|i: int|
                0 <= i < cell_widths@.len() && (#[trigger] cell_widths@[i]) is Some ==> r >= cell_widths@[i]->0,
            size == Size::WrapContent ==> r == 0 || exists|i: int|
                0 <= i < cell_widths@.len() && #[trigger] cell_widths@[i] == Some(r),
            final(self).cols@.len() == old(self).cols@.len(),
            forall|i: int|
                0 <= i < final(self).cols@.len() && i != index ==> #[trigger] final(self).cols@[i]
                    == old(self).cols@[i],
            index < old(self).cols@.len() ==> final(self).cols@[index as int].head == old(
                self,
            ).cols@[index as int].head && final(self).cols@[index as int].width == size,
            final(self).rows@ == old(self).rows@,
            final(self).default_row_height == old(self).default_row_height,
    {
        let extent = self.extent_for(size, measured_width, cell_widths);
        proof {
            lemma_max_present_is_largest(cell_widths@);
        }
        if index < self.cols.len() {
            self.cols[index].width = size;
        }
        extent
    }

    /// The pixel extent for a requested size in this table.
    fn extent_for(&self, size: Size, measured: u16, cells: &Vec<Option<u16>>) -> (r: u16)
        requires
            sizable(size, self.cols@.len() as usize),
        ensures
            r == share_extent(size, measured, self.cols@.len() as usize, cells@),
    {
        match size {
            Size::Exact(v) => v,
            Size::WrapContent => max_extent(cells),
            Size::MatchParent => measured / (self.cols.len() as u16),
        }
    }

    /// Removes the cell at `index` from every row that has one there, then the
    /// column at `index` if there is one. Hands back the present cells that
    /// went, with their row numbers, and the column.
    pub fn remove_column(&mut self, index: usize) -> (r: (Vec<(usize, C)>, Option<Column<K>>))
        ensures
            r.0@ == cells_at(old(self).rows_view(), index as int),
            forall|k: int|
                0 <= k < r.0@.len() ==> {
                    let e = #[trigger] r.0@[k];
                    &&& (e.0 as int) < old(self).rows@.len()
                    &&& index < old(self).rows@[e.0 as int].cells@.len()
                    &&& old(self).rows@[e.0 as int].cells@[index as int] == Some(e.1)
                },
            forall|k1: int, k2: int|
                0 <= k1 < k2 < r.0@.len() ==> (#[trigger] r.0@[k1]).0 < (#[trigger] r.0@[k2]).0,
            forall|y: int|
                0 <= y < old(self).rows@.len() && index < old(self).rows@[y].cells@.len()
                    && (#[trigger] old(self).rows@[y]).cells@[index as int] is Some ==> exists|k: int|
                    0 <= k < r.0@.len() && (#[trigger] r.0@[k]).0 == y,
            final(self).rows@.len() == old(self).rows@.len(),
            forall|i: int|
                0 <= i < final(self).rows@.len() ==> (#[trigger] final(self).rows_view()[i])
                    == without_cell_at(old(self).rows_view()[i], index as int),
            index < old(self).cols@.len() ==> r.1 == Some(old(self).cols@[index as int])
                && final(self).cols@ == old(self).cols@.remove(index as int),
            index >= old(self).cols@.len() ==> r.1 is None && final(self).cols@ == old(self).cols@,
            final(self).default_row_height == old(self).default_row_height,
            old(self).wf() ==> final(self).wf(),
    {
        let mut removed: Vec<(usize, C)> = Vec::new();
        let mut i: usize = 0;
        assert(old(self).rows_view().len() == old(self).rows@.len());
        while i < self.rows.len()
            invariant
                i <= self.rows@.len(),
                self.rows@.len() == old(self).rows@.len(),
                old(self).rows_view().len() == old(self).rows@.len(),
                self.cols@ == old(self).cols@,
                self.default_row_height == old(self).default_row_height,
                removed@ == cells_at(old(self).rows_view().subrange(0, i as int), index as int),
                forall|j: int|
                    0 <= j < i ==> (#[trigger] self.rows_view()[j]) == without_cell_at(
                        old(self).rows_view()[j],
                        index as int,
                    ),
                forall|j: int| i <= j < self.rows@.len() ==> #[trigger] self.rows@[j] == old(self).rows@[j],
            decreases self.rows@.len() - i,
        {
            let ghost prev = self.rows@;
            let ghost prev_view = self.rows_view();
            let ghost removed_before = removed@;
            proof {
                let next = old(self).rows_view().subrange(0, i + 1);
                assert(next.subrange(0, i as int) =~= old(self).rows_view().subrange(0, i as int));
                assert(next[i as int] == old(self).rows_view()[i as int]);
                assert(old(self).rows_view()[i as int] == row_view(old(self).rows@[i as int]));
            }
            if index < self.rows[i].cells.len() {
                let cell = self.rows[i].cells.remove(index);
                match cell {
                    Some(c) => {
                        removed.push((i, c));
                    },
                    None => {},
                }
            }
            proof {
                assert(forall|j: int| 0 <= j < prev.len() && j != i ==> self.rows@[j] == prev[j]);
                assert(self.rows_view()[i as int] == without_cell_at(
                    old(self).rows_view()[i as int],
                    index as int,
                ));
                assert forall|j: int| 0 <= j < i implies (#[trigger] self.rows_view()[j])
                    == without_cell_at(old(self).rows_view()[j], index as int) by {
                    assert(self.rows@[j] == prev[j]);
                    assert(prev_view[j] == row_view(prev[j]));
                }
            }
            i = i + 1;
        }
        assert(old(self).rows_view().subrange(0, self.rows@.len() as int) =~= old(self).rows_view());
        proof {
            lemma_cells_at_are_the_column(old(self).rows_view(), index as int);
            assert forall|y: int| 0 <= y < old(self).rows@.len() implies #[trigger] old(self).rows_view()[y]
                == row_view(old(self).rows@[y]) by {}
            assert forall|y: int|
                0 <= y < old(self).rows@.len() && index < old(self).rows@[y].cells@.len()
                    && (#[trigger] old(self).rows@[y]).cells@[index as int] is Some implies exists|k: int|
                    0 <= k < removed@.len() && (#[trigger] removed@[k]).0 == y by {
                assert(old(self).rows_view()[y] == row_view(old(self).rows@[y]));
            }
        }
        let ghost view_after = self.rows_view();
        let ghost rows_after = self.rows@;
        let column = if index < self.cols.len() {
            Some(self.cols.remove(index))
        } else {
            None
        };
        proof {
            assert(self.rows@ == rows_after);
            assert(self.rows_view() =~= view_after);
            if old(self).wf() {
                assert forall|j: int| 0 <= j < self.rows@.len() implies #[trigger] self.rows@[j].cells@.len()
                    == self.cols@.len() by {
                    assert(self.rows_view()[j] == without_cell_at(old(self).rows_view()[j], index as int));
                    assert(self.rows_view()[j].1 == self.rows@[j].cells@);
                    assert(old(self).rows_view()[j].1 == old(self).rows@[j].cells@);
                    assert(old(self).rows@[j].cells@.len() == old(self).cols@.len());
                }
            }
        }
        (removed, column)
    }

    /// Takes the cells out of row `index`, if there is one, and hands back the
    /// present ones with their column numbers. The row itself stays. Cells are
    /// taken out by ascending column number from a shrinking row, so a row
    /// with more than one cell cannot be emptied this way.
    pub fn remove_row(&mut self, index: usize) -> (r: Vec<(usize, C)>)
        requires
            index < old(self).rows@.len() ==> old(self).rows@[index as int].cells@.len() <= 1,
        ensures
            index >= old(self).rows@.len() ==> r@.len() == 0 && final(self).rows_view() == old(
                self,
            ).rows_view(),
            index < old(self).rows@.len() ==> {
                let row = old(self).rows_view()[index as int];
                &&& final(self).rows_view() == old(self).rows_view().update(
                    index as int,
                    (row.0, Seq::empty(), row.2),
                )
                &&& (row.1.len() == 1 && row.1[0] is Some) ==> r@ == seq![(0usize, row.1[0]->0)]
                &&& !(row.1.len() == 1 && row.1[0] is Some) ==> r@.len() == 0
            },
            final(self).cols@ == old(self).cols@,
            final(self).default_row_height == old(self).default_row_height,
    {
        let mut removed: Vec<(usize, C)> = Vec::new();
        if index < self.rows.len() {
            let ghost before = self.rows_view();
            if self.rows[index].cells.len() == 1 {
                let cell = self.rows[index].cells.remove(0);
                match cell {
                    Some(c) => {
                        removed.push((0, c));
                    },
                    None => {},
                }
            }
            proof {
                let row = before[index as int];
                assert(self.rows@[index as int].cells@ =~= Seq::<Option<C>>::empty());
                assert(self.rows_view() =~= before.update(index as int, (row.0, Seq::empty(), row.2)));
            }
        }
        removed
    }
}

/// A law of the table: a cell put at column `x` of row `y` and then removed
/// from there comes back, and the table is as it was with that cell empty.
pub proof fn lemma_put_then_remove<K, C>(rows: Seq<RowView<K, C>>, x: int, y: int, cell: C)
    requires
        0 <= y < rows.len(),
        0 <= x < rows[y].1.len(),
    ensures
        ({
            let put = rows.update(y, with_cell(rows[y], x, Some(cell)));
            &&& put[y].1[x] == Some(cell)
            &&& put.update(y, with_cell(put[y], x, None)) =~= rows.update(
                y,
                with_cell(rows[y], x, None),
            )
        }),
{
    let put = rows.update(y, with_cell(rows[y], x, Some(cell)));
    assert(put[y].1.update(x, None) =~= rows[y].1.update(x, None));
}

} // verus!

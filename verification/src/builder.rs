//! An incremental builder of a rectangular grid of text cells.
//!
//! Rows and an optional header of varying width are accumulated; short rows
//! are padded lazily with a fill text.  The nominal column count grows to the
//! widest input seen and a consistency flag records whether padding is owed.

use crate::grid::{
    col_cell, col_nonempty, clean_grid, drop_empty_rows, grid_max_width, grid_model,
    grid_uniform, insert_column_grid, keep_cols, lemma_grid_max_width_bound, lemma_grid_max_width_uniform, lemma_keep_cols_range,
    lemma_drop_empty_rows_push, lemma_pad_uniform, next_consistent, next_width, pad_grid,
    pad_row, row_model, row_nonempty, select_cols, select_grid, CellModel, GridModel, RowModel,
};
use vstd::prelude::*;

verus! {

/// Builds a table from a dynamic data set, accumulating rows of text cells
/// and an optional header row of possibly varying width.
#[derive(Debug, Clone)]
pub struct Builder {
    /// A list of rows.
    data: Vec<Vec<String>>,
    /// A columns row.
    columns: Option<Vec<String>>,
    /// A number of columns.
    count_columns: usize,
    /// A flag that the rows are consistent: every stored row and the header
    /// already have exactly `count_columns` cells.
    is_consistent: bool,
    /// A content of cells which are created in case rows has different
    /// length.
    empty_cell_text: Option<String>,
}

impl Builder {
    /// The stored rows, each cell as its characters.
    pub closed spec fn rows(&self) -> GridModel {
        grid_model(self.data@)
    }

    /// The header row, when one is set.
    pub closed spec fn header(&self) -> Option<RowModel> {
        match self.columns {
            Some(h) => Some(row_model(h@)),
            None => None,
        }
    }

    /// The nominal column count.
    pub closed spec fn width(&self) -> nat {
        self.count_columns as nat
    }

    /// Whether every stored row and the header already have exactly
    /// `width()` cells, so that no padding is owed.
    pub closed spec fn consistent(&self) -> bool {
        self.is_consistent
    }

    /// The fill text used to pad short rows.
    pub closed spec fn fill(&self) -> CellModel {
        match self.empty_cell_text {
            Some(t) => t@,
            None => Seq::empty(),
        }
    }

    /// The builder's invariant: no stored row nor the header is wider than
    /// the nominal column count, and when the consistency flag is set they
    /// all have exactly that width.
    pub closed spec fn wf(&self) -> bool {
        &&& forall|i: int|
            0 <= i < self.rows().len() ==> (#[trigger] self.rows()[i]).len() <= self.width()
        &&& match self.header() {
            Some(h) => h.len() <= self.width(),
            None => true,
        }
        &&& self.consistent() ==> grid_uniform(self.rows(), self.width())
        &&& self.consistent() ==> match self.header() {
            Some(h) => h.len() == self.width(),
            None => true,
        }
    }

    /// Creates an empty builder: no rows, no header, zero columns.
    pub fn new() -> (b: Builder)
        ensures
            b.wf(),
            b.rows() == Seq::<RowModel>::empty(),
            b.header() is None,
            b.width() == 0,
            b.consistent(),
            b.fill() == Seq::<char>::empty(),
    {
        let b = Builder {
            data: Vec::new(),
            columns: None,
            count_columns: 0,
            is_consistent: true,
            empty_cell_text: None,
        };
        proof {
            assert(b.rows() =~= Seq::<RowModel>::empty());
        }
        b
    }

    /// Creates an empty builder with room reserved for the given number of
    /// rows.
    pub fn with_capacity(capacity: usize) -> (b: Builder)
        ensures
            b.wf(),
            b.rows() == Seq::<RowModel>::empty(),
            b.header() is None,
            b.width() == 0,
            b.consistent(),
            b.fill() == Seq::<char>::empty(),
    {
        let mut b = Builder::new();
        b.data = Vec::with_capacity(capacity);
        proof {
            assert(b.rows() =~= Seq::<RowModel>::empty());
        }
        b
    }

    /// Grows the nominal column count to a row of width `size` and clears
    /// the consistency flag where padding is now owed.
    fn update_size(&mut self, size: usize)
        requires
            old(self).wf(),
        ensures
            final(self).data == old(self).data,
            final(self).columns == old(self).columns,
            final(self).empty_cell_text == old(self).empty_cell_text,
            final(self).width() == next_width(old(self).width(), size as nat),
            final(self).consistent() == next_consistent(
                old(self).consistent(),
                old(self).width(),
                size as nat,
                old(self).rows().len(),
                old(self).header() is Some,
            ),
    {
        if size > self.count_columns {
            self.count_columns = size;
            if !self.data.is_empty() || self.columns.is_some() {
                self.is_consistent = false;
            }
        } else if size < self.count_columns {
            self.is_consistent = false;
        }
    }

    /// Sets the header row.  The column count grows to the header's width
    /// when it is wider; a width differing from the current count leaves the
    /// builder owing padding.
    pub fn set_header(&mut self, columns: Vec<String>)
        requires
            old(self).wf(),
        ensures
            final(self).wf(),
            final(self).header() == Some(row_model(columns@)),
            final(self).rows() == old(self).rows(),
            final(self).width() == next_width(old(self).width(), columns@.len()),
            final(self).consistent() == next_consistent(
                old(self).consistent(),
                old(self).width(),
                columns@.len(),
                old(self).rows().len(),
                old(self).header() is Some,
            ),
            final(self).fill() == old(self).fill(),
    {
        let size = columns.len();
        self.update_size(size);
        self.columns = Some(columns);
    }

    /// Appends a row at the end.  The column count grows to the row's width
    /// when it is wider; a width differing from the current count leaves the
    /// builder owing padding.
    pub fn push_record(&mut self, row: Vec<String>)
        requires
            old(self).wf(),
        ensures
            final(self).wf(),
            final(self).rows() == old(self).rows().push(row_model(row@)),
            final(self).header() == old(self).header(),
            final(self).width() == next_width(old(self).width(), row@.len()),
            final(self).consistent() == next_consistent(
                old(self).consistent(),
                old(self).width(),
                row@.len(),
                old(self).rows().len(),
                old(self).header() is Some,
            ),
            final(self).fill() == old(self).fill(),
    {
        let size = row.len();
        self.update_size(size);
        self.data.push(row);
        proof {
            assert(self.rows() =~= old(self).rows().push(row_model(row@)));
        }
    }

    /// Inserts a row at `index`, shifting the rows from there on one place
    /// down.  An index beyond the current row count is out of range: the
    /// builder is left unchanged and `false` comes back.
    pub fn insert_record(&mut self, index: usize, record: Vec<String>) -> (ok: bool)
        requires
            old(self).wf(),
        ensures
            final(self).wf(),
            ok == (index <= old(self).rows().len()),
            index <= old(self).rows().len() ==> {
                &&& final(self).rows() == old(self).rows().insert(
                    index as int,
                    row_model(record@),
                )
                &&& final(self).header() == old(self).header()
                &&& final(self).width() == next_width(old(self).width(), record@.len())
                &&& final(self).consistent() == next_consistent(
                    old(self).consistent(),
                    old(self).width(),
                    record@.len(),
                    old(self).rows().len(),
                    old(self).header() is Some,
                )
                &&& final(self).fill() == old(self).fill()
            },
            index > old(self).rows().len() ==> *final(self) == *old(self),
    {
        if index > self.data.len() {
            return false;
        }
        let size = record.len();
        self.update_size(size);
        self.data.insert(index, record);
        proof {
            assert(self.rows() =~= old(self).rows().insert(index as int, row_model(record@)));
        }
        true
    }

    /// Removes the row at `index`, which must lie within the current row
    /// count.
    pub fn remove_record(&mut self, index: usize)
        requires
            old(self).wf(),
            index < old(self).rows().len(),
        ensures
            final(self).wf(),
            final(self).rows() == old(self).rows().remove(index as int),
            final(self).header() == old(self).header(),
            final(self).width() == old(self).width(),
            final(self).consistent() == old(self).consistent(),
            final(self).fill() == old(self).fill(),
    {
        let _ = self.data.remove(index);
        proof {
            assert(self.rows() =~= old(self).rows().remove(index as int));
        }
    }

    /// Sets the text that padding fills short rows with from now on.
    pub fn set_default_text(&mut self, text: String)
        requires
            old(self).wf(),
        ensures
            final(self).wf(),
            final(self).fill() == text@,
            final(self).rows() == old(self).rows(),
            final(self).header() == old(self).header(),
            final(self).width() == old(self).width(),
            final(self).consistent() == old(self).consistent(),
    {
        self.empty_cell_text = Some(text);
        proof {
            assert(self.rows() == old(self).rows());
            assert(self.header() == old(self).header());
            assert(self.width() == old(self).width());
            assert(self.consistent() == old(self).consistent());
        }
    }

    /// Forcibly records `size` as the column count and marks the builder
    /// consistent, trusting the caller that every stored row and the header
    /// indeed have exactly that width.
    pub fn hint_column_size(&mut self, size: usize)
        requires
            old(self).wf(),
            grid_uniform(old(self).rows(), size as nat),
            match old(self).header() {
                Some(h) => h.len() == size,
                None => true,
            },
        ensures
            final(self).wf(),
            final(self).width() == size,
            final(self).consistent(),
            final(self).rows() == old(self).rows(),
            final(self).header() == old(self).header(),
            final(self).fill() == old(self).fill(),
    {
        self.count_columns = size;
        self.is_consistent = true;
    }

    /// The number of columns the built grid would have.
    pub fn count_columns(&self) -> (n: usize)
        ensures
            n == self.width(),
    {
        self.count_columns
    }

    /// The number of stored rows, the header not counted.
    pub fn count_records(&self) -> (n: usize)
        ensures
            n == self.rows().len(),
    {
        self.data.len()
    }

    /// Whether a header row is set.
    pub fn has_header(&self) -> (b: bool)
        ensures
            b == (self.header() is Some),
    {
        self.columns.is_some()
    }

    /// Drops all rows, keeping the header; the column count becomes the
    /// header's width, or zero without one.
    pub fn clear(&mut self)
        requires
            old(self).wf(),
        ensures
            final(self).wf(),
            final(self).rows() == Seq::<RowModel>::empty(),
            final(self).header() == old(self).header(),
            final(self).width() == match old(self).header() {
                Some(h) => h.len(),
                None => 0,
            },
            final(self).consistent(),
            final(self).fill() == old(self).fill(),
    {
        self.data.clear();
        self.is_consistent = true;
        self.count_columns = match &self.columns {
            Some(h) => h.len(),
            None => 0,
        };
        proof {
            assert(self.rows() =~= Seq::<RowModel>::empty());
        }
    }

    /// Builds a builder from ready-made rows, as if each were pushed in
    /// turn: the column count becomes the widest row's width, and padding is
    /// owed unless every row already has that width.
    pub fn from_rows(data: Vec<Vec<String>>) -> (b: Builder)
        ensures
            b.wf(),
            b.rows() == grid_model(data@),
            b.header() is None,
            b.width() == grid_max_width(grid_model(data@)),
            b.consistent() == grid_uniform(
                grid_model(data@),
                grid_max_width(grid_model(data@)),
            ),
            b.fill() == Seq::<char>::empty(),
    {
        let ghost g = grid_model(data@);
        let n_rows = data.len();
        let mut rest = data;
        let mut b = Builder::new();
        let mut i: usize = 0;
        proof {
            assert(g.subrange(0, 0) =~= Seq::<RowModel>::empty());
            assert(grid_model(rest@) =~= g.subrange(0, n_rows as int));
        }
        while i < n_rows
            invariant
                i <= n_rows,
                n_rows == g.len(),
                rest@.len() == n_rows - i,
                grid_model(rest@) == g.subrange(i as int, n_rows as int),
                b.wf(),
                b.header() is None,
                b.fill() == Seq::<char>::empty(),
                b.rows() == g.subrange(0, i as int),
                b.width() == grid_max_width(g.subrange(0, i as int)),
                b.consistent() == grid_uniform(
                    g.subrange(0, i as int),
                    grid_max_width(g.subrange(0, i as int)),
                ),
            decreases n_rows - i,
        {
            let ghost rest_pre = rest@;
            let ghost sub = g.subrange(0, i as int);
            let ghost w = grid_max_width(sub);
            let r = rest.remove(0);
            proof {
                assert(row_model(r@) == grid_model(rest_pre)[0]);
                assert(grid_model(rest_pre)[0] == g[i as int]);
                assert forall|t: int| 0 <= t < rest@.len() implies #[trigger] grid_model(rest@)[t]
                    == g[i + 1 + t] by {
                    assert(rest@[t] == rest_pre[t + 1]);
                    assert(grid_model(rest@)[t] == row_model(rest@[t]@));
                    assert(grid_model(rest_pre)[t + 1] == row_model(rest_pre[t + 1]@));
                    assert(grid_model(rest_pre)[t + 1] == g.subrange(i as int, n_rows as int)[t
                        + 1]);
                }
                assert(grid_model(rest@) =~= g.subrange(i + 1, n_rows as int));
            }
            b.push_record(r);
            i += 1;
            proof {
                let sub1 = g.subrange(0, i as int);
                assert(sub1 =~= sub.push(g[i - 1]));
                crate::laws::lemma_width_is_max_pushed(sub, g[i - 1]);
                let len = g[i - 1].len();
                let w1 = grid_max_width(sub1);
                if len == w {
                    assert(grid_uniform(sub1, w1) == (grid_uniform(sub, w) && len == w1));
                } else if len < w {
                    assert(sub1[sub.len() as int].len() != w1);
                    assert(!grid_uniform(sub1, w1));
                } else {
                    if sub.len() > 0 {
                        assert(sub1[0] == sub[0]);
                        assert(sub[0].len() <= w);
                        assert(!grid_uniform(sub1, w1));
                    } else {
                        assert forall|t: int| 0 <= t < sub1.len() implies (#[trigger] sub1[
                            t
                        ]).len() == w1 by {}
                        assert(grid_uniform(sub1, w1));
                    }
                }
            }
        }
        proof {
            assert(g.subrange(0, n_rows as int) =~= g);
        }
        b
    }
}

impl Builder {
    /// The grid the builder would export: the header first when one is set,
    /// then every row, each padded to the nominal column count.
    pub open spec fn export(&self) -> GridModel {
        match self.header() {
            Some(h) => seq![pad_row(h, self.width(), self.fill())] + pad_grid(
                self.rows(),
                self.width(),
                self.fill(),
            ),
            None => pad_grid(self.rows(), self.width(), self.fill()),
        }
    }

    /// Pads the header and every row shorter than the nominal column count
    /// with the fill text, so that all of them reach exactly that width.
    fn fit_rows_length(&mut self)
        requires
            old(self).wf(),
        ensures
            final(self).wf(),
            final(self).rows() == pad_grid(old(self).rows(), old(self).width(), old(self).fill()),
            final(self).header() == match old(self).header() {
                Some(h) => Some(pad_row(h, old(self).width(), old(self).fill())),
                None => None::<RowModel>,
            },
            final(self).width() == old(self).width(),
            final(self).consistent(),
            final(self).fill() == old(self).fill(),
    {
        let w = self.count_columns;
        let empty_cell = match &self.empty_cell_text {
            Some(t) => t.clone(),
            None => String::new(),
        };
        let hdr = self.columns.take();
        match hdr {
            Some(mut h) => {
                if h.len() < w {
                    let n = w - h.len();
                    append_vec(&mut h, &empty_cell, n);
                }
                proof {
                    assert(row_model(h@) =~= pad_row(
                        old(self).header()->Some_0,
                        w as nat,
                        old(self).fill(),
                    ));
                }
                self.columns = Some(h);
            },
            None => {},
        }
        let ghost cols1 = self.columns;
        let ghost g0 = grid_model(self.data@);
        let n_rows = self.data.len();
        proof {
            assert(self.data == old(self).data);
            assert forall|t: int| 0 <= t < n_rows implies (#[trigger] g0[t]).len() <= w by {
                assert(g0[t] == old(self).rows()[t]);
            }
        }
        let mut i: usize = 0;
        while i < n_rows
            invariant
                i <= n_rows,
                self.data@.len() == n_rows,
                g0 == grid_model(old(self).data@),
                self.columns == cols1,
                self.count_columns == w,
                self.empty_cell_text == old(self).empty_cell_text,
                empty_cell@ == old(self).fill(),
                forall|t: int|
                    0 <= t < i ==> #[trigger] grid_model(self.data@)[t] == pad_row(
                        g0[t],
                        w as nat,
                        empty_cell@,
                    ),
                forall|t: int| i <= t < n_rows ==> #[trigger] grid_model(self.data@)[t] == g0[t],
                forall|t: int| 0 <= t < n_rows ==> (#[trigger] g0[t]).len() <= w,
            decreases n_rows - i,
        {
            let ghost d_pre = self.data@;
            let row_len = self.data[i].len();
            if row_len < w {
                let n = w - row_len;
                append_vec(&mut self.data[i], &empty_cell, n);
            }
            proof {
                assert(grid_model(self.data@)[i as int].len() == self.data@[i as int]@.len());
                assert(grid_model(d_pre)[i as int].len() == d_pre[i as int]@.len());
                assert(grid_model(self.data@)[i as int] =~= pad_row(
                    g0[i as int],
                    w as nat,
                    empty_cell@,
                ));
                assert forall|t: int|
                    0 <= t < i + 1 implies #[trigger] grid_model(self.data@)[t] == pad_row(
                    g0[t],
                    w as nat,
                    empty_cell@,
                ) by {
                    if t < i {
                        assert(self.data@[t] == d_pre[t]);
                        assert(grid_model(self.data@)[t] == grid_model(d_pre)[t]);
                        assert(grid_model(d_pre)[t] == pad_row(g0[t], w as nat, empty_cell@));
                    }
                }
                assert forall|t: int|
                    i + 1 <= t < n_rows implies #[trigger] grid_model(self.data@)[t] == g0[t] by {
                    assert(self.data@[t] == d_pre[t]);
                    assert(grid_model(self.data@)[t] == grid_model(d_pre)[t]);
                    assert(grid_model(d_pre)[t] == g0[t]);
                }
            }
            i += 1;
        }
        self.is_consistent = true;
        proof {
            assert(self.rows() =~= pad_grid(old(self).rows(), old(self).width(), old(self).fill()));
        }
    }

    /// Pads short rows when padding is owed, so that the builder is
    /// consistent afterwards either way.
    fn make_consistent(&mut self)
        requires
            old(self).wf(),
        ensures
            final(self).wf(),
            final(self).consistent(),
            final(self).rows() == pad_grid(old(self).rows(), old(self).width(), old(self).fill()),
            final(self).header() == match old(self).header() {
                Some(h) => Some(pad_row(h, old(self).width(), old(self).fill())),
                None => None::<RowModel>,
            },
            final(self).width() == old(self).width(),
            final(self).fill() == old(self).fill(),
    {
        if !self.is_consistent {
            self.fit_rows_length();
        } else {
            proof {
                lemma_pad_uniform(self.rows(), self.width(), self.fill());
            }
        }
    }

    /// Removes the column at `index` from the header, when one is set, and
    /// from every row, padding short rows first; the column count shrinks by
    /// one.  Supplying the removed cells again with `push_column` appends
    /// them as the last column: the removal is not invertible in place.
    pub fn remove_column(&mut self, index: usize)
        requires
            old(self).wf(),
            index < old(self).width(),
        ensures
            final(self).wf(),
            final(self).rows() == pad_grid(
                old(self).rows(),
                old(self).width(),
                old(self).fill(),
            ).map_values(|r: RowModel| r.remove(index as int)),
            final(self).header() == match old(self).header() {
                Some(h) => Some(
                    pad_row(h, old(self).width(), old(self).fill()).remove(index as int),
                ),
                None => None::<RowModel>,
            },
            final(self).width() == old(self).width() - 1,
            final(self).consistent(),
            final(self).fill() == old(self).fill(),
    {
        self.make_consistent();
        let w = self.count_columns;
        match self.columns.take() {
            Some(mut h) => {
                let _ = h.remove(index);
                self.columns = Some(h);
            },
            None => {},
        }
        let ghost cols1 = self.columns;
        let ghost g1 = grid_model(self.data@);
        let n_rows = self.data.len();
        let mut i: usize = 0;
        while i < n_rows
            invariant
                i <= n_rows,
                index < w,
                self.data@.len() == n_rows,
                self.columns == cols1,
                self.count_columns == w,
                self.fill() == old(self).fill(),
                forall|t: int| 0 <= t < n_rows ==> (#[trigger] g1[t]).len() == w,
                forall|t: int|
                    0 <= t < i ==> #[trigger] grid_model(self.data@)[t] == g1[t].remove(
                        index as int,
                    ),
                forall|t: int| i <= t < n_rows ==> #[trigger] grid_model(self.data@)[t] == g1[t],
            decreases n_rows - i,
        {
            let ghost d_pre = self.data@;
            proof {
                assert(grid_model(self.data@)[i as int].len() == self.data@[i as int]@.len());
            }
            let _ = self.data[i].remove(index);
            proof {
                assert(grid_model(self.data@)[i as int] =~= g1[i as int].remove(index as int));
                assert forall|t: int|
                    0 <= t < n_rows && t != i as int implies #[trigger] grid_model(self.data@)[t]
                    == grid_model(d_pre)[t] by {
                    assert(self.data@[t] == d_pre[t]);
                }
            }
            i += 1;
        }
        self.count_columns = w - 1;
        self.is_consistent = true;
        proof {
            assert(self.rows() =~= pad_grid(
                old(self).rows(),
                old(self).width(),
                old(self).fill(),
            ).map_values(|r: RowModel| r.remove(index as int)));
        }
    }

    /// Inserts a supplied column at column position `index` of the header
    /// and every row, padding short rows first.  With a header set, the
    /// first supplied cell becomes the header's; rows then take the rest in
    /// order, with empty text where the supply runs short.  The column count
    /// grows by one.
    pub fn insert_column(&mut self, column: Vec<String>, index: usize)
        requires
            old(self).wf(),
            index <= old(self).width(),
            old(self).width() < usize::MAX,
        ensures
            final(self).wf(),
            final(self).rows() == insert_column_grid(
                pad_grid(old(self).rows(), old(self).width(), old(self).fill()),
                index as int,
                row_model(column@),
                if old(self).header() is Some {
                    1int
                } else {
                    0int
                },
            ),
            final(self).header() == match old(self).header() {
                Some(h) => Some(
                    pad_row(h, old(self).width(), old(self).fill()).insert(
                        index as int,
                        col_cell(row_model(column@), 0),
                    ),
                ),
                None => None::<RowModel>,
            },
            final(self).width() == old(self).width() + 1,
            final(self).consistent(),
            final(self).fill() == old(self).fill(),
    {
        self.make_consistent();
        let w = self.count_columns;
        let ghost gp = grid_model(self.data@);
        let ghost colv = row_model(column@);
        let mut offset: usize = 0;
        match self.columns.take() {
            Some(mut h) => {
                let cell = if column.len() > 0 {
                    column[0].clone()
                } else {
                    String::new()
                };
                proof {
                    assert(cell@ == col_cell(colv, 0));
                }
                h.insert(index, cell);
                self.columns = Some(h);
                offset = 1;
            },
            None => {},
        }
        let ghost cols1 = self.columns;
        let n_rows = self.data.len();
        let mut i: usize = 0;
        while i < n_rows
            invariant
                i <= n_rows,
                index <= w,
                offset == if old(self).header() is Some {
                    1int
                } else {
                    0int
                },
                colv == row_model(column@),
                self.data@.len() == n_rows,
                self.columns == cols1,
                self.count_columns == w,
                self.fill() == old(self).fill(),
                forall|t: int| 0 <= t < n_rows ==> (#[trigger] gp[t]).len() == w,
                forall|t: int|
                    0 <= t < i ==> #[trigger] grid_model(self.data@)[t] == gp[t].insert(
                        index as int,
                        col_cell(colv, offset + t),
                    ),
                forall|t: int| i <= t < n_rows ==> #[trigger] grid_model(self.data@)[t] == gp[t],
            decreases n_rows - i,
        {
            let ghost d_pre = self.data@;
            let pos = offset + i;
            let cell = if pos < column.len() {
                column[pos].clone()
            } else {
                String::new()
            };
            proof {
                assert(cell@ == col_cell(colv, offset + i));
                assert(grid_model(self.data@)[i as int].len() == self.data@[i as int]@.len());
            }
            self.data[i].insert(index, cell);
            proof {
                assert(grid_model(self.data@)[i as int] =~= gp[i as int].insert(
                    index as int,
                    col_cell(colv, offset + i),
                ));
                assert forall|t: int|
                    0 <= t < n_rows && t != i as int implies #[trigger] grid_model(self.data@)[t]
                    == grid_model(d_pre)[t] by {
                    assert(self.data@[t] == d_pre[t]);
                }
            }
            i += 1;
        }
        self.count_columns = w + 1;
        self.is_consistent = true;
        proof {
            assert(self.rows() =~= insert_column_grid(
                gp,
                index as int,
                colv,
                if old(self).header() is Some {
                    1int
                } else {
                    0int
                },
            ));
        }
    }

    /// Appends a supplied column after the last one of the header and every
    /// row, padding short rows first.  With a header set, the first supplied
    /// cell becomes the header's; rows then take the rest in order, with
    /// empty text where the supply runs short.  The column count grows by
    /// one.
    pub fn push_column(&mut self, column: Vec<String>)
        requires
            old(self).wf(),
            old(self).width() < usize::MAX,
        ensures
            final(self).wf(),
            final(self).rows() == Seq::new(
                old(self).rows().len(),
                |i: int|
                    pad_grid(old(self).rows(), old(self).width(), old(self).fill())[i].push(
                        col_cell(
                            row_model(column@),
                            i + if old(self).header() is Some {
                                1int
                            } else {
                                0int
                            },
                        ),
                    ),
            ),
            final(self).header() == match old(self).header() {
                Some(h) => Some(
                    pad_row(h, old(self).width(), old(self).fill()).push(
                        col_cell(row_model(column@), 0),
                    ),
                ),
                None => None::<RowModel>,
            },
            final(self).width() == old(self).width() + 1,
            final(self).consistent(),
            final(self).fill() == old(self).fill(),
    {
        let index = self.count_columns;
        self.insert_column(column, index);
        proof {
            let gp = pad_grid(old(self).rows(), old(self).width(), old(self).fill());
            let off = if old(self).header() is Some {
                1int
            } else {
                0int
            };
            let colv = row_model(column@);
            assert forall|i: int| 0 <= i < gp.len() implies gp[i].insert(index as int, col_cell(colv, off + i))
                == gp[i].push(col_cell(colv, i + off)) by {
                assert(gp[i].len() == old(self).width());
                assert(gp[i].insert(index as int, col_cell(colv, off + i)) =~= gp[i].push(
                    col_cell(colv, i + off),
                ));
            }
            assert(self.rows() =~= Seq::new(
                old(self).rows().len(),
                |i: int| gp[i].push(col_cell(colv, i + off)),
            ));
            match old(self).header() {
                Some(h) => {
                    let hp = pad_row(h, old(self).width(), old(self).fill());
                    assert(hp.insert(index as int, col_cell(colv, 0)) =~= hp.push(
                        col_cell(colv, 0),
                    ));
                },
                None => {},
            }
        }
    }

    /// Removes every all-empty column — one whose cell in every row is the
    /// empty string — from the rows and the header, then every row whose
    /// remaining cells are all empty, padding short rows first.  The column
    /// count becomes the number of surviving columns.
    pub fn clean(&mut self)
        requires
            old(self).wf(),
        ensures
            final(self).wf(),
            final(self).rows() == clean_grid(
                pad_grid(old(self).rows(), old(self).width(), old(self).fill()),
                old(self).width(),
            ),
            final(self).width() == keep_cols(
                pad_grid(old(self).rows(), old(self).width(), old(self).fill()),
                old(self).width(),
            ).len(),
            final(self).header() == match old(self).header() {
                Some(h) => Some(
                    select_cols(
                        pad_row(h, old(self).width(), old(self).fill()),
                        keep_cols(
                            pad_grid(old(self).rows(), old(self).width(), old(self).fill()),
                            old(self).width(),
                        ),
                    ),
                ),
                None => None::<RowModel>,
            },
            final(self).consistent(),
            final(self).fill() == old(self).fill(),
    {
        self.make_consistent();
        let w = self.count_columns;
        let ghost gp = grid_model(self.data@);
        let ghost bigk = keep_cols(gp, w as nat);
        proof {
            lemma_keep_cols_range(gp, w as nat);
        }
        let mut keep: Vec<usize> = Vec::new();
        let mut j: usize = 0;
        proof {
            assert(keep@.map_values(|u: usize| u as int) =~= keep_cols(gp, 0nat));
        }
        while j < w
            invariant
                j <= w,
                gp == grid_model(self.data@),
                forall|t: int| 0 <= t < gp.len() ==> (#[trigger] gp[t]).len() == w,
                keep@.map_values(|u: usize| u as int) == keep_cols(gp, j as nat),
                forall|t: int| 0 <= t < keep@.len() ==> #[trigger] keep@[t] < w,
            decreases w - j,
        {
            let has = col_has_text(&self.data, j);
            if has {
                keep.push(j);
            }
            proof {
                assert(keep@.map_values(|u: usize| u as int) =~= keep_cols(gp, (j + 1) as nat));
            }
            j += 1;
        }
        proof {
            assert(keep@.map_values(|u: usize| u as int) == bigk);
            assert(keep@.len() == bigk.len());
            assert forall|t: int| 0 <= t < keep@.len() implies keep@[t] as int == bigk[t] by {
                assert(keep@.map_values(|u: usize| u as int)[t] == keep@[t] as int);
            }
        }
        let n_rows = self.data.len();
        let mut out: Vec<Vec<String>> = Vec::new();
        let mut i: usize = 0;
        proof {
            assert(gp.subrange(0, 0) =~= Seq::<RowModel>::empty());
            assert(select_grid(gp.subrange(0, 0), bigk) =~= Seq::<RowModel>::empty());
            assert(grid_model(out@) =~= Seq::<RowModel>::empty());
            reveal(Seq::filter);
        }
        while i < n_rows
            invariant
                i <= n_rows,
                n_rows == self.data@.len(),
                gp == grid_model(self.data@),
                keep@.map_values(|u: usize| u as int) == bigk,
                keep@.len() == bigk.len(),
                forall|t: int| 0 <= t < keep@.len() ==> keep@[t] as int == #[trigger] bigk[t],
                forall|t: int| 0 <= t < bigk.len() ==> 0 <= #[trigger] bigk[t] < w,
                forall|t: int| 0 <= t < gp.len() ==> (#[trigger] gp[t]).len() == w,
                grid_model(out@) == drop_empty_rows(select_grid(gp.subrange(0, i as int), bigk)),
                forall|u: int|
                    0 <= u < grid_model(out@).len() ==> (#[trigger] grid_model(out@)[u]).len()
                        == bigk.len(),
            decreases n_rows - i,
        {
            let m = keep.len();
            let mut new_row: Vec<String> = Vec::new();
            let mut t: usize = 0;
            while t < m
                invariant
                    t <= m,
                    m == keep@.len(),
                    m == bigk.len(),
                    i < n_rows,
                    n_rows == self.data@.len(),
                    gp == grid_model(self.data@),
                    forall|u: int| 0 <= u < keep@.len() ==> keep@[u] as int == #[trigger] bigk[u],
                    forall|u: int| 0 <= u < bigk.len() ==> 0 <= #[trigger] bigk[u] < w,
                    forall|u: int| 0 <= u < gp.len() ==> (#[trigger] gp[u]).len() == w,
                    new_row@.len() == t,
                    forall|u: int|
                        0 <= u < t ==> #[trigger] row_model(new_row@)[u] == gp[i as int][bigk[u]],
                decreases m - t,
            {
                let c = keep[t];
                proof {
                    assert(keep@[t as int] as int == bigk[t as int]);
                    assert(gp[i as int].len() == w);
                    assert(self.data@[i as int]@.len() == w);
                }
                let ghost r_pre = new_row@;
                new_row.push(self.data[i][c].clone());
                t += 1;
                proof {
                    assert(row_model(new_row@)[t - 1] == gp[i as int][bigk[t - 1]]);
                    assert forall|u: int|
                        0 <= u < t - 1 implies #[trigger] row_model(new_row@)[u] == gp[i as int][
                        bigk[u]
                    ] by {
                        assert(new_row@[u] == r_pre[u]);
                        assert(row_model(new_row@)[u] == new_row@[u]@);
                        assert(row_model(r_pre)[u] == r_pre[u]@);
                    }
                }
            }
            proof {
                assert(row_model(new_row@) =~= select_cols(gp[i as int], bigk));
            }
            if row_has_text(&new_row) {
                out.push(new_row);
            }
            proof {
                let pre = select_grid(gp.subrange(0, i as int), bigk);
                let cur = select_grid(gp.subrange(0, i + 1), bigk);
                assert(cur =~= pre.push(select_cols(gp[i as int], bigk)));
                lemma_drop_empty_rows_push(pre, select_cols(gp[i as int], bigk));
                assert(grid_model(out@) =~= drop_empty_rows(cur));
            }
            i += 1;
        }
        self.data = out;
        match self.columns.take() {
            Some(h) => {
                let m = keep.len();
                let mut new_h: Vec<String> = Vec::new();
                let mut t: usize = 0;
                while t < m
                    invariant
                        t <= m,
                        m == keep@.len(),
                        m == bigk.len(),
                        row_model(h@).len() == w,
                        forall|u: int|
                            0 <= u < keep@.len() ==> keep@[u] as int == #[trigger] bigk[u],
                        forall|u: int| 0 <= u < bigk.len() ==> 0 <= #[trigger] bigk[u] < w,
                        new_h@.len() == t,
                        forall|u: int|
                            0 <= u < t ==> #[trigger] row_model(new_h@)[u] == row_model(h@)[
                                bigk[u]
                            ],
                    decreases m - t,
                {
                    let c = keep[t];
                    proof {
                        assert(keep@[t as int] as int == bigk[t as int]);
                        assert(h@.len() == w);
                    }
                    let ghost h_pre = new_h@;
                    new_h.push(h[c].clone());
                    t += 1;
                    proof {
                        assert(row_model(new_h@)[t - 1] == row_model(h@)[bigk[t - 1]]);
                        assert forall|u: int|
                            0 <= u < t - 1 implies #[trigger] row_model(new_h@)[u] == row_model(
                            h@,
                        )[bigk[u]] by {
                            assert(new_h@[u] == h_pre[u]);
                            assert(row_model(new_h@)[u] == new_h@[u]@);
                            assert(row_model(h_pre)[u] == h_pre[u]@);
                        }
                    }
                }
                proof {
                    assert(row_model(new_h@) =~= select_cols(row_model(h@), bigk));
                }
                self.columns = Some(new_h);
            },
            None => {},
        }
        self.count_columns = keep.len();
        self.is_consistent = true;
        proof {
            assert(gp.subrange(0, n_rows as int) =~= gp);
            assert(self.rows() == clean_grid(gp, w as nat));
        }
    }

    /// The width the grid would need with no header counted apart: the
    /// widest of the header and all rows.
    fn get_size(&self) -> (m: usize)
        ensures
            m as nat == next_width(
                grid_max_width(self.rows()),
                match self.header() {
                    Some(h) => h.len(),
                    None => 0,
                },
            ),
    {
        let mut max: usize = match &self.columns {
            Some(h) => h.len(),
            None => 0,
        };
        let n_rows = self.data.len();
        let mut i: usize = 0;
        proof {
            assert(self.rows().subrange(0, 0) =~= Seq::<RowModel>::empty());
        }
        while i < n_rows
            invariant
                i <= n_rows,
                self.rows().len() == n_rows,
                max as nat == next_width(
                    grid_max_width(self.rows().subrange(0, i as int)),
                    match self.header() {
                        Some(h) => h.len(),
                        None => 0,
                    },
                ),
            decreases n_rows - i,
        {
            let row_len = self.data[i].len();
            proof {
                let pre = self.rows().subrange(0, i as int);
                let cur = self.rows().subrange(0, i + 1 as int);
                assert(cur.drop_last() =~= pre);
                assert(cur.last() == self.rows()[i as int]);
            }
            if row_len > max {
                max = row_len;
            }
            i += 1;
        }
        proof {
            assert(self.rows().subrange(0, n_rows as int) =~= self.rows());
        }
        max
    }

    /// Drops the header.  The column count becomes the widest of the rows
    /// and the dropped header, so removing the header never narrows data.
    pub fn remove_header(&mut self)
        requires
            old(self).wf(),
        ensures
            final(self).wf(),
            final(self).header() is None,
            final(self).rows() == old(self).rows(),
            final(self).width() == next_width(
                grid_max_width(old(self).rows()),
                match old(self).header() {
                    Some(h) => h.len(),
                    None => 0,
                },
            ),
            final(self).consistent() == old(self).consistent(),
            final(self).fill() == old(self).fill(),
    {
        self.count_columns = self.get_size();
        self.columns = None;
        proof {
            lemma_grid_max_width_bound(self.rows());
            if old(self).consistent() && self.rows().len() > 0 {
                lemma_grid_max_width_uniform(self.rows(), old(self).width());
            }
        }
    }

    /// Exports the grid: pads everything that is still short, then returns
    /// the rows with the header, when one is set, ahead of them as the first
    /// row.  Every exported row has exactly `width()` cells.
    pub fn build(self) -> (g: Vec<Vec<String>>)
        requires
            self.wf(),
        ensures
            grid_model(g@) == self.export(),
            grid_uniform(grid_model(g@), self.width()),
    {
        let mut this = self;
        if !this.is_consistent {
            this.fit_rows_length();
        } else {
            proof {
                lemma_pad_uniform(this.rows(), this.width(), this.fill());
            }
        }
        proof {
            assert(this.rows() == pad_grid(self.rows(), self.width(), self.fill()));
            match self.header() {
                Some(h) => {
                    assert(this.header() == Some(pad_row(h, self.width(), self.fill())));
                },
                None => {},
            }
        }
        let hdr = this.columns.take();
        match hdr {
            Some(h) => {
                this.data.insert(0, h);
            },
            None => {},
        }
        proof {
            assert(grid_model(this.data@) =~= self.export());
        }
        this.data
    }
}

/// Whether some row holds a non-empty cell in column `j`.
fn col_has_text(data: &Vec<Vec<String>>, j: usize) -> (b: bool)
    requires
        forall|i: int|
            0 <= i < grid_model(data@).len() ==> j < (#[trigger] grid_model(data@)[i]).len(),
    ensures
        b == col_nonempty(grid_model(data@), j as int),
{
    let n = data.len();
    let mut i: usize = 0;
    while i < n
        invariant
            i <= n,
            n == data@.len(),
            forall|k: int|
                0 <= k < grid_model(data@).len() ==> j < (#[trigger] grid_model(data@)[k]).len(),
            forall|k: int| 0 <= k < i ==> (#[trigger] grid_model(data@)[k])[j as int].len() == 0,
        decreases n - i,
    {
        proof {
            assert(grid_model(data@)[i as int].len() == data@[i as int]@.len());
        }
        if !data[i][j].as_str().is_empty() {
            proof {
                assert(grid_model(data@)[i as int][j as int] == data@[i as int]@[j as int]@);
                assert(col_nonempty(grid_model(data@), j as int));
            }
            return true;
        }
        proof {
            assert(grid_model(data@)[i as int][j as int] == data@[i as int]@[j as int]@);
        }
        i += 1;
    }
    proof {
        let g = grid_model(data@);
        if col_nonempty(g, j as int) {
            let k = choose|k: int| 0 <= k < g.len() && (#[trigger] g[k])[j as int].len() != 0;
            assert(g[k][j as int].len() == 0);
        }
    }
    false
}

/// Whether some cell of the row is non-empty.
fn row_has_text(row: &Vec<String>) -> (b: bool)
    ensures
        b == row_nonempty(row_model(row@)),
{
    let n = row.len();
    let mut j: usize = 0;
    while j < n
        invariant
            j <= n,
            n == row@.len(),
            forall|k: int| 0 <= k < j ==> (#[trigger] row_model(row@)[k]).len() == 0,
        decreases n - j,
    {
        if !row[j].as_str().is_empty() {
            proof {
                assert(row_model(row@)[j as int] == row@[j as int]@);
                assert(row_nonempty(row_model(row@)));
            }
            return true;
        }
        proof {
            assert(row_model(row@)[j as int] == row@[j as int]@);
        }
        j += 1;
    }
    proof {
        let r = row_model(row@);
        if row_nonempty(r) {
            let k = choose|k: int| 0 <= k < r.len() && (#[trigger] r[k]).len() != 0;
            assert(r[k].len() == 0);
        }
    }
    false
}

/// Appends `n` copies of the given cell text at the end of a row.
fn append_vec(v: &mut Vec<String>, value: &String, n: usize)
    requires
        old(v)@.len() + n <= usize::MAX,
    ensures
        row_model(final(v)@) == row_model(old(v)@) + Seq::new(n as nat, |i: int| value@),
{
    let mut k: usize = 0;
    while k < n
        invariant
            k <= n,
            v@.len() == old(v)@.len() + k,
            forall|j: int| 0 <= j < old(v)@.len() ==> v@[j] == old(v)@[j],
            forall|j: int| old(v)@.len() <= j < v@.len() ==> (#[trigger] v@[j])@ == value@,
        decreases n - k,
    {
        v.push(value.clone());
        k += 1;
    }
    proof {
        assert(row_model(v@) =~= row_model(old(v)@) + Seq::new(n as nat, |i: int| value@));
    }
}

impl Default for Builder {
    /// An empty builder, as `new` makes it.
    fn default() -> (b: Builder)
        ensures
            b.wf(),
            b.rows() == Seq::<RowModel>::empty(),
            b.header() is None,
            b.width() == 0,
            b.consistent(),
            b.fill() == Seq::<char>::empty(),
    {
        Builder::new()
    }
}

} // verus!

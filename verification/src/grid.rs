//! The mathematical model of a grid of text cells.
//!
//! A cell is a sequence of characters, a row a sequence of cells, a grid a
//! sequence of rows.  The builder's contracts are stated over these
//! sequences; the functions here say what padding, growth and cleaning mean.

use vstd::prelude::*;
use vstd::seq_lib::group_seq_properties;

verus! {

/// The characters of one cell of a row.
pub type CellModel = Seq<char>;

/// The cells of one row of a grid.
pub type RowModel = Seq<Seq<char>>;

/// The rows of a grid.
pub type GridModel = Seq<Seq<Seq<char>>>;

/// The cells of an executable row, each as its characters.
pub open spec fn row_model(v: Seq<String>) -> RowModel {
    v.map_values(|c: String| c@)
}

/// The rows of an executable grid, each as its cell model.
pub open spec fn grid_model(g: Seq<Vec<String>>) -> GridModel {
    g.map_values(|r: Vec<String>| row_model(r@))
}

/// A row extended with copies of the fill cell up to width `w`;
/// a row already that wide or wider is left as it is.
pub open spec fn pad_row(r: RowModel, w: nat, fill: CellModel) -> RowModel {
    if r.len() >= w {
        r
    } else {
        r + Seq::new((w - r.len()) as nat, |i: int| fill)
    }
}

/// Every row of a grid padded to width `w`.
pub open spec fn pad_grid(g: GridModel, w: nat, fill: CellModel) -> GridModel {
    g.map_values(|r: RowModel| pad_row(r, w, fill))
}

/// Whether every row of a grid has exactly width `w`.
pub open spec fn grid_uniform(g: GridModel, w: nat) -> bool {
    forall|i: int| 0 <= i < g.len() ==> (#[trigger] g[i]).len() == w
}

/// The width of the widest row of a grid.
pub open spec fn grid_max_width(g: GridModel) -> nat
    decreases g.len(),
{
    if g.len() == 0 {
        0
    } else if g.last().len() > grid_max_width(g.drop_last()) {
        g.last().len()
    } else {
        grid_max_width(g.drop_last())
    }
}

/// The nominal column count after a row or header of width `size` comes in:
/// it grows to the widest width seen and never shrinks.
pub open spec fn next_width(w: nat, size: nat) -> nat {
    if size > w {
        size
    } else {
        w
    }
}

/// The consistency flag after a row or header of width `size` comes in, when
/// the builder held `n_rows` rows and `had_header` says whether a header was
/// set.  A narrower arrival owes padding; a wider one leaves everything
/// already stored too narrow, unless nothing was stored at all.
pub open spec fn next_consistent(
    c: bool,
    w: nat,
    size: nat,
    n_rows: nat,
    had_header: bool,
) -> bool {
    if size == w {
        c
    } else if size < w {
        false
    } else {
        c && n_rows == 0 && !had_header
    }
}

/// Whether some row of the grid has a non-empty cell in column `j`.
pub open spec fn col_nonempty(g: GridModel, j: int) -> bool {
    exists|i: int| 0 <= i < g.len() && (#[trigger] g[i])[j].len() != 0
}

/// Whether some cell of the row is non-empty.
pub open spec fn row_nonempty(r: RowModel) -> bool {
    exists|j: int| 0 <= j < r.len() && (#[trigger] r[j]).len() != 0
}

/// The indices below `w` of the columns that survive cleaning: those with a
/// non-empty cell in some row, in ascending order.
pub open spec fn keep_cols(g: GridModel, w: nat) -> Seq<int>
    decreases w,
{
    if w == 0 {
        Seq::empty()
    } else if col_nonempty(g, w - 1) {
        keep_cols(g, (w - 1) as nat).push(w - 1)
    } else {
        keep_cols(g, (w - 1) as nat)
    }
}

/// The cells of a row at the given column indices, in that order.
pub open spec fn select_cols(r: RowModel, k: Seq<int>) -> RowModel {
    k.map_values(|j: int| r[j])
}

/// Every row of a grid reduced to the cells at the given column indices.
pub open spec fn select_grid(g: GridModel, k: Seq<int>) -> GridModel {
    g.map_values(|r: RowModel| select_cols(r, k))
}

/// The grid with its all-empty rows removed.
pub open spec fn drop_empty_rows(g: GridModel) -> GridModel {
    g.filter(|r: RowModel| row_nonempty(r))
}

/// A grid of width `w` after cleaning: the all-empty columns removed from
/// every row, then the rows left with no non-empty cell removed.
pub open spec fn clean_grid(g: GridModel, w: nat) -> GridModel {
    drop_empty_rows(select_grid(g, keep_cols(g, w)))
}

/// The cell of a supplied column at position `idx`: empty text where the
/// supply ran short.
pub open spec fn col_cell(c: RowModel, idx: int) -> CellModel {
    if 0 <= idx < c.len() {
        c[idx]
    } else {
        Seq::empty()
    }
}

/// A grid of width `w` with the cells of a supplied column inserted at
/// column position `index` in every row; the supply is read from position
/// `off` on, row by row, empty text where it runs short.
pub open spec fn insert_column_grid(g: GridModel, index: int, c: RowModel, off: int) -> GridModel {
    Seq::new(g.len(), |i: int| g[i].insert(index, col_cell(c, off + i)))
}

/// Every index kept by cleaning lies below `w`, and the kept indices are
/// strictly ascending.
pub proof fn lemma_keep_cols_range(g: GridModel, w: nat)
    ensures
        forall|t: int|
            0 <= t < keep_cols(g, w).len() ==> 0 <= #[trigger] keep_cols(g, w)[t] < w,
        forall|t1: int, t2: int|
            0 <= t1 < t2 < keep_cols(g, w).len() ==> keep_cols(g, w)[t1] < keep_cols(
                g,
                w,
            )[t2],
    decreases w,
{
    if w > 0 {
        lemma_keep_cols_range(g, (w - 1) as nat);
        let prev = keep_cols(g, (w - 1) as nat);
        let cur = keep_cols(g, w);
        if col_nonempty(g, w - 1) {
            assert(cur == prev.push(w - 1));
            assert forall|t: int| 0 <= t < cur.len() implies 0 <= #[trigger] cur[t] < w by {
                if t < prev.len() {
                    assert(cur[t] == prev[t]);
                }
            }
            assert forall|t1: int, t2: int| 0 <= t1 < t2 < cur.len() implies cur[t1]
                < cur[t2] by {
                if t2 < prev.len() {
                    assert(cur[t1] == prev[t1] && cur[t2] == prev[t2]);
                } else {
                    assert(cur[t2] == w - 1);
                    assert(cur[t1] == prev[t1]);
                }
            }
        } else {
            assert(cur == prev);
        }
    }
}

/// An index is kept by cleaning exactly when it lies below `w` and its
/// column has a non-empty cell.
pub proof fn lemma_keep_cols_complete(g: GridModel, w: nat, j: int)
    ensures
        keep_cols(g, w).contains(j) <==> (0 <= j < w && col_nonempty(g, j)),
    decreases w,
{
    broadcast use group_seq_properties;

    if w > 0 {
        lemma_keep_cols_complete(g, (w - 1) as nat, j);
        if j == w - 1 && col_nonempty(g, j) {
            assert(keep_cols(g, w).last() == j);
            assert(keep_cols(g, w).contains(j));
        }
        lemma_keep_cols_range(g, (w - 1) as nat);
    }
}

/// No row of a grid is wider than the grid's widest row.
pub proof fn lemma_grid_max_width_bound(g: GridModel)
    ensures
        forall|i: int| 0 <= i < g.len() ==> (#[trigger] g[i]).len() <= grid_max_width(g),
    decreases g.len(),
{
    if g.len() > 0 {
        lemma_grid_max_width_bound(g.drop_last());
        assert forall|i: int| 0 <= i < g.len() implies (#[trigger] g[i]).len() <= grid_max_width(
            g,
        ) by {
            if i < g.len() - 1 {
                assert(g.drop_last()[i] == g[i]);
            }
        }
    }
}

/// In a non-empty grid whose rows all have width `w`, the widest row has
/// width `w`.
pub proof fn lemma_grid_max_width_uniform(g: GridModel, w: nat)
    requires
        grid_uniform(g, w),
        g.len() > 0,
    ensures
        grid_max_width(g) == w,
    decreases g.len(),
{
    if g.len() == 1 {
        assert(g.drop_last().len() == 0);
        assert(grid_max_width(g.drop_last()) == 0);
        assert(g.last() == g[0]);
        assert(g[0].len() == w);
    }
    if g.len() > 1 {
        assert(grid_uniform(g.drop_last(), w)) by {
            assert forall|i: int| 0 <= i < g.drop_last().len() implies (#[trigger] g.drop_last()[
                i
            ]).len() == w by {
                assert(g.drop_last()[i] == g[i]);
            }
        }
        lemma_grid_max_width_uniform(g.drop_last(), w);
    }
}

/// Dropping empty rows from a grid extended by one row keeps the cleaned
/// prefix and appends the row exactly when it has a non-empty cell.
pub proof fn lemma_drop_empty_rows_push(s: GridModel, x: RowModel)
    ensures
        drop_empty_rows(s.push(x)) == if row_nonempty(x) {
            drop_empty_rows(s).push(x)
        } else {
            drop_empty_rows(s)
        },
{
    reveal(Seq::filter);
    assert(s.push(x).drop_last() =~= s);
    assert(s.push(x).last() == x);
}

/// Padding leaves a row of width `w` unchanged, so a uniform grid is its own
/// padding.
pub proof fn lemma_pad_uniform(g: GridModel, w: nat, fill: CellModel)
    requires
        grid_uniform(g, w),
    ensures
        pad_grid(g, w, fill) == g,
{
    assert(pad_grid(g, w, fill) =~= g);
}

} // verus!

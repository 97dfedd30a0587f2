//! Laws of the builder's operations, stated over the grid model.

use crate::grid::{
    clean_grid, col_nonempty, drop_empty_rows, grid_max_width, grid_uniform, keep_cols,
    lemma_keep_cols_complete, lemma_keep_cols_range, next_width, row_nonempty, select_cols,
    select_grid, GridModel, RowModel,
};
use vstd::prelude::*;
use vstd::seq_lib::group_filter_ensures;

verus! {

/// Appending a row makes the widest row of a grid exactly the wider of the
/// grid's previous widest row and the new row: the column count that
/// `push_record` maintains is the maximum width ever pushed, and the export,
/// being uniform at that count, gives every row that width.
pub proof fn lemma_width_is_max_pushed(g: GridModel, r: RowModel)
    ensures
        grid_max_width(g.push(r)) == next_width(grid_max_width(g), r.len()),
{
    assert(g.push(r).drop_last() =~= g);
    assert(g.push(r).last() == r);
}

/// Inserting a row at an index and removing it again at the same index
/// restores the prior row sequence; and a row no wider than the column count
/// leaves the count as it was.
pub proof fn lemma_insert_then_remove_record(rows: GridModel, i: int, r: RowModel, w: nat)
    requires
        0 <= i <= rows.len(),
    ensures
        rows.insert(i, r).remove(i) == rows,
        r.len() <= w ==> next_width(w, r.len()) == w,
{
    assert(rows.insert(i, r).remove(i) =~= rows);
}

/// The cells of a row of width `w` selected at the indices `0, 1, ..., w-1`
/// are the row itself.
pub proof fn lemma_select_identity(r: RowModel, w: nat)
    requires
        r.len() == w,
    ensures
        select_cols(r, Seq::new(w, |t: int| t)) == r,
{
    assert(select_cols(r, Seq::new(w, |t: int| t)) =~= r);
}

/// When every column below `w` holds text somewhere, cleaning keeps the
/// columns `0, 1, ..., w-1`.
pub proof fn lemma_keep_cols_all(g: GridModel, w: nat)
    requires
        forall|j: int| 0 <= j < w ==> col_nonempty(g, j),
    ensures
        keep_cols(g, w) == Seq::new(w, |t: int| t),
    decreases w,
{
    if w > 0 {
        lemma_keep_cols_all(g, (w - 1) as nat);
    }
    assert(keep_cols(g, w) =~= Seq::new(w, |t: int| t));
}

/// Dropping empty rows keeps a grid's uniform width.
pub proof fn lemma_drop_empty_rows_uniform(g: GridModel, w: nat)
    requires
        grid_uniform(g, w),
    ensures
        grid_uniform(drop_empty_rows(g), w),
    decreases g.len(),
{
    reveal(Seq::filter);
    if g.len() > 0 {
        assert(grid_uniform(g.drop_last(), w)) by {
            assert forall|i: int| 0 <= i < g.drop_last().len() implies (#[trigger] g.drop_last()[
                i
            ]).len() == w by {
                assert(g.drop_last()[i] == g[i]);
            }
        }
        lemma_drop_empty_rows_uniform(g.drop_last(), w);
        assert(g.last().len() == w);
    }
}

/// A grid with no all-empty row keeps all its rows when they are dropped.
pub proof fn lemma_drop_empty_rows_all(g: GridModel)
    requires
        forall|i: int| 0 <= i < g.len() ==> row_nonempty(#[trigger] g[i]),
    ensures
        drop_empty_rows(g) == g,
    decreases g.len(),
{
    reveal(Seq::filter);
    if g.len() > 0 {
        assert forall|i: int| 0 <= i < g.drop_last().len() implies row_nonempty(
            #[trigger] g.drop_last()[i],
        ) by {
            assert(g.drop_last()[i] == g[i]);
        }
        lemma_drop_empty_rows_all(g.drop_last());
        assert(row_nonempty(g.last()));
        assert(drop_empty_rows(g.drop_last()).push(g.last()) =~= g);
    }
}

/// Cleaning a grid with no all-empty column and no all-empty row changes
/// nothing: every column and every row is kept.
pub proof fn lemma_clean_no_op(g: GridModel, w: nat)
    requires
        grid_uniform(g, w),
        forall|j: int| 0 <= j < w ==> col_nonempty(g, j),
        forall|i: int| 0 <= i < g.len() ==> row_nonempty(#[trigger] g[i]),
    ensures
        clean_grid(g, w) == g,
        keep_cols(g, w) == Seq::new(w, |t: int| t),
        keep_cols(g, w).len() == w,
    {
    lemma_keep_cols_all(g, w);
    let idseq = Seq::new(w, |t: int| t);
    assert forall|i: int| 0 <= i < g.len() implies #[trigger] select_grid(g, idseq)[i] == g[i] by {
        lemma_select_identity(g[i], w);
    }
    assert(select_grid(g, idseq) =~= g);
    lemma_drop_empty_rows_all(g);
}

/// After one cleaning, every surviving column and every surviving row holds
/// text, so cleaning a second time is a no-op: `clean` is idempotent.
pub proof fn lemma_clean_idempotent(g: GridModel, w: nat)
    requires
        grid_uniform(g, w),
    ensures
        clean_grid(clean_grid(g, w), keep_cols(g, w).len()) == clean_grid(g, w),
        keep_cols(clean_grid(g, w), keep_cols(g, w).len()) == Seq::new(
            keep_cols(g, w).len(),
            |t: int| t,
        ),
{
    broadcast use group_filter_ensures;

    let k = keep_cols(g, w);
    let w1 = k.len();
    let sel = select_grid(g, k);
    let g1 = clean_grid(g, w);
    lemma_keep_cols_range(g, w);

    assert(grid_uniform(sel, w1)) by {
        assert forall|i: int| 0 <= i < sel.len() implies (#[trigger] sel[i]).len() == w1 by {
            assert(sel[i] == select_cols(g[i], k));
        }
    }
    lemma_drop_empty_rows_uniform(sel, w1);

    assert forall|i: int| 0 <= i < g1.len() implies row_nonempty(#[trigger] g1[i]) by {
        assert(g1 == sel.filter(|r: RowModel| row_nonempty(r)));
    }

    assert forall|t: int| 0 <= t < w1 implies col_nonempty(g1, t) by {
        let j = k[t];
        assert(k.contains(j));
        lemma_keep_cols_complete(g, w, j);
        assert(col_nonempty(g, j));
        let i = choose|i: int| 0 <= i < g.len() && (#[trigger] g[i])[j].len() != 0;
        assert(sel[i] == select_cols(g[i], k));
        assert(sel[i][t] == g[i][j]);
        assert(row_nonempty(sel[i]));
        assert(drop_empty_rows(sel).contains(sel[i]));
        let kk = choose|kk: int| 0 <= kk < g1.len() && g1[kk] == sel[i];
        assert(g1[kk][t].len() != 0);
    }

    lemma_clean_no_op(g1, w1);
}

} // verus!

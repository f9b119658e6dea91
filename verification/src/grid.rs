//! Row layout of the card grids: how many rows a grid has and which items
//! each row holds. The column count comes from the window width and stays
//! with the caller; everything here is integer arithmetic on it.

use vstd::prelude::*;

verus! {

/// The number of rows that `total` items need at `cols` to a row.
pub open spec fn rows_for(total: nat, cols: nat) -> nat
    recommends
        cols > 0,
{
    if total % cols == 0 {
        total / cols
    } else {
        total / cols + 1
    }
}

/// The end of the row that starts at `start`: `cols` further on, or the end
/// of the items, whichever comes first.
pub open spec fn row_end(start: nat, cols: nat, total: nat) -> nat {
    if start + cols <= total {
        start + cols
    } else {
        total
    }
}

proof fn lemma_row_start_before_end(row: nat, cols: nat, total: nat)
    requires
        cols > 0,
        row < rows_for(total, cols),
    ensures
        row * cols < total,
{
    let q = total / cols;
    let r = total % cols;
    vstd::arithmetic::div_mod::lemma_fundamental_div_mod(total as int, cols as int);
    vstd::arithmetic::mul::lemma_mul_is_commutative(cols as int, q as int);
    if r == 0 {
        vstd::arithmetic::mul::lemma_mul_inequality(row as int, q - 1, cols as int);
        vstd::arithmetic::mul::lemma_mul_is_distributive_sub_other_way(cols as int, q as int, 1);
    } else {
        vstd::arithmetic::mul::lemma_mul_inequality(row as int, q as int, cols as int);
    }
}

/// The number of rows of a grid of `total` items, `cols` to a row.
pub fn grid_total_rows(total: usize, cols: usize) -> (r: usize)
    requires
        cols > 0,
    ensures
        r == rows_for(total as nat, cols as nat),
{
    let q = total / cols;
    if total % cols == 0 {
        q
    } else {
        assert(q < usize::MAX) by (nonlinear_arith)
            requires
                cols >= 2,
                q == total / cols,
                total <= usize::MAX,
        ;
        q + 1
    }
}

/// The half-open range of item indices shown in row `row`: it starts at
/// `row * cols` and holds `cols` items, fewer in the last row.
pub fn grid_row_range(row: usize, cols: usize, total: usize) -> (r: (usize, usize))
    requires
        cols > 0,
        row < rows_for(total as nat, cols as nat),
    ensures
        r.0 == row * cols,
        r.1 == row_end(r.0 as nat, cols as nat, total as nat),
        r.0 < r.1,
{
    proof {
        lemma_row_start_before_end(row as nat, cols as nat, total as nat);
    }
    let start = row * cols;
    let end = if total - start >= cols { start + cols } else { total };
    (start, end)
}

/// Every item of a grid sits in row `i / cols`, between that row's start and
/// its end, and that row exists.
pub proof fn lemma_item_in_its_row(i: nat, cols: nat, total: nat)
    requires
        cols > 0,
        i < total,
    ensures
        i / cols < rows_for(total, cols),
        (i / cols) * cols <= i,
        i < row_end((i / cols) * cols, cols, total),
{
    let row = i / cols;
    vstd::arithmetic::div_mod::lemma_fundamental_div_mod(i as int, cols as int);
    vstd::arithmetic::div_mod::lemma_fundamental_div_mod(total as int, cols as int);
    vstd::arithmetic::div_mod::lemma_div_is_ordered(i as int, total as int, cols as int);
    assert(row * cols <= i < row * cols + cols) by (nonlinear_arith)
        requires
            i == cols * row + i % cols,
            0 <= i % cols < cols,
    ;
    if total % cols == 0 && row == total / cols {
        assert(false) by (nonlinear_arith)
            requires
                total == cols * (total / cols),
                row == total / cols,
                row * cols <= i,
                i < total,
        ;
    }
}

/// A row of the marketplace results list.
#[derive(Clone, Copy, Debug, PartialEq, Eq, Structural)]
pub enum ResultsRow {
    /// Result cards `start..end`.
    Cards { start: usize, end: usize },
    /// A row of loading placeholders.
    Placeholder,
    /// The closing "End of results" line.
    EndOfResults,
}

/// Rows of the results list: the result rows, two placeholder rows while the
/// next page loads, and a closing line once there is no further page.
pub open spec fn results_row_count_of(results: nat, cols: nat, loading_more: bool, has_next: bool) -> nat {
    rows_for(results, cols) + (if loading_more { 2nat } else { 0nat }) + (if !loading_more && !has_next {
        1nat
    } else {
        0nat
    })
}

/// The number of rows of the results list.
pub fn results_row_count(results: usize, cols: usize, loading_more: bool, has_next: bool) -> (r: usize)
    requires
        cols > 0,
        results_row_count_of(results as nat, cols as nat, loading_more, has_next) <= usize::MAX,
    ensures
        r == results_row_count_of(results as nat, cols as nat, loading_more, has_next),
{
    let rows = grid_total_rows(results, cols);
    let placeholders: usize = if loading_more { 2 } else { 0 };
    let closing: usize = if !loading_more && !has_next { 1 } else { 0 };
    rows + placeholders + closing
}

/// What row `row` of the results list shows.
pub open spec fn results_row_of(row: nat, results: nat, cols: nat, loading_more: bool) -> ResultsRow {
    let rows = rows_for(results, cols);
    if row < rows {
        ResultsRow::Cards {
            start: (row * cols) as usize,
            end: row_end(row * cols, cols, results) as usize,
        }
    } else if loading_more && row < rows + 2 {
        ResultsRow::Placeholder
    } else {
        ResultsRow::EndOfResults
    }
}

/// The content of row `row` of the results list.
pub fn results_row(row: usize, results: usize, cols: usize, loading_more: bool) -> (r: ResultsRow)
    requires
        cols > 0,
    ensures
        r == results_row_of(row as nat, results as nat, cols as nat, loading_more),
{
    let rows = grid_total_rows(results, cols);
    if row < rows {
        let (start, end) = grid_row_range(row, cols, results);
        ResultsRow::Cards { start, end }
    } else if loading_more && row - rows < 2 {
        ResultsRow::Placeholder
    } else {
        ResultsRow::EndOfResults
    }
}

/// Whether the next page is fetched: nothing is loading, there is a next
/// page, and the visible range reaches the last result row.
pub open spec fn wants_next_page(loading: bool, loading_more: bool, has_next: bool, visible_end: nat, result_rows: nat) -> bool {
    &&& !loading
    &&& !loading_more
    &&& has_next
    &&& visible_end + 1 >= result_rows
}

/// Decides, as the list scrolls, whether to fetch the next page of results.
pub fn should_load_more(loading: bool, loading_more: bool, has_next: bool, visible_end: usize, result_rows: usize) -> (r: bool)
    ensures
        r == wants_next_page(loading, loading_more, has_next, visible_end as nat, result_rows as nat),
{
    let last_row = if result_rows > 0 { result_rows - 1 } else { 0 };
    !loading && !loading_more && has_next && visible_end >= last_row
}

} // verus!

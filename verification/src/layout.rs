//! Viewport geometry: centering a fixed-size UI box inside the terminal.

use vstd::prelude::*;

verus! {

/// The column offset that centers a box of width `ui_width` in a terminal of
/// `term_cols` columns, saturating to zero when the box does not fit.
pub open spec fn centered_offset(term: int, ui: int) -> int {
    if term >= ui {
        (term - ui) / 2
    } else {
        0
    }
}

/// Computes the top-left corner `(offset_x, offset_y)` of the UI box centered
/// in a `term_cols` by `term_rows` terminal. Offsets saturate to zero when the
/// terminal is smaller than the box, so they are never negative.
pub fn compute_layout(term_cols: usize, term_rows: usize, ui_width: usize, ui_height: usize) -> (r: (
    usize,
    usize,
))
    ensures
        r.0 == centered_offset(term_cols as int, ui_width as int),
        r.1 == centered_offset(term_rows as int, ui_height as int),
        ui_width > term_cols ==> r.0 == 0,
        ui_height > term_rows ==> r.1 == 0,
        r.0 + ui_width <= term_cols || r.0 == 0,
        r.1 + ui_height <= term_rows || r.1 == 0,
{
    let dx: usize = if term_cols >= ui_width {
        term_cols - ui_width
    } else {
        0
    };
    let dy: usize = if term_rows >= ui_height {
        term_rows - ui_height
    } else {
        0
    };
    (dx / 2, dy / 2)
}

/// Resolves the terminal size from a query result: the queried `(columns,
/// rows)` when the query succeeded, and the fixed 80 by 24 default when it
/// failed, so the browser stays usable without size detection.
pub fn terminal_size_or_default(queried: Option<(usize, usize)>) -> (r: (usize, usize))
    ensures
        queried is Some ==> r == queried.unwrap(),
        queried is None ==> r == (80usize, 24usize),
{
    match queried {
        Some(size) => size,
        None => (80, 24),
    }
}

} // verus!

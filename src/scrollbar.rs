//! Scrollbar geometry for a preview window.
use vstd::prelude::*;

verus! {

/// Thumb length before it is clamped to the window: the share of the window
/// that the visible rows take, rounded down. With no rows at all the share is
/// unbounded (a full window), or zero when nothing is shown either.
pub open spec fn raw_thumb(visible_rows: nat, window_height: nat, total_rows: nat) -> nat {
    if total_rows == 0 {
        if visible_rows * window_height == 0 {
            0
        } else {
            window_height
        }
    } else {
        (visible_rows * window_height) / total_rows
    }
}

/// Thumb length clamped to the window height.
pub open spec fn thumb_length(visible_rows: nat, window_height: nat, total_rows: nat) -> nat {
    let raw = raw_thumb(visible_rows, window_height, total_rows);
    if raw < window_height {
        raw
    } else {
        window_height
    }
}

/// Top row of the thumb for an excerpt that begins at `start_row`.
pub open spec fn raw_top(start_row: nat, window_height: nat, total_rows: nat) -> nat {
    raw_thumb(start_row, window_height, total_rows)
}

/// A thumb that fills the window loses one row when a border is drawn.
pub open spec fn bordered_length(length: nat, window_height: nat, border: bool) -> nat {
    if border && length == window_height {
        (length - 1) as nat
    } else {
        length
    }
}

/// Scrollbar of a preview that starts at the top of the file.
pub open spec fn spec_file_scrollbar(
    visible_rows: nat,
    window_height: nat,
    total_rows: nat,
    border: bool,
) -> Option<(nat, nat)> {
    let length = thumb_length(visible_rows, window_height, total_rows);
    if length == 0 {
        None
    } else {
        Some((if border { 1 } else { 0 }, bordered_length(length, window_height, border)))
    }
}

/// The row from which the excerpt is measured: three rows earlier when no
/// context block is shown above it, so that the thumb lines up with the text.
pub open spec fn adjusted_start(start: nat, has_context: bool) -> nat {
    if has_context {
        start
    } else if start >= 3 {
        (start - 3) as nat
    } else {
        0
    }
}

/// Scrollbar of an excerpt of rows `start..end` out of `total_rows`.
pub open spec fn spec_line_scrollbar(
    start: nat,
    end: nat,
    window_height: nat,
    total_rows: nat,
    border: bool,
    has_context: bool,
) -> Option<(nat, nat)> {
    let s = adjusted_start(start, has_context);
    let length = thumb_length((end - s) as nat, window_height, total_rows);
    let top = raw_top(s, window_height, total_rows);
    if length == 0 {
        None
    } else {
        Some(
            (
                if border && top < 1 {
                    1
                } else {
                    top
                },
                bordered_length(length, window_height, border),
            ),
        )
    }
}

pub open spec fn as_nat_pair(p: Option<(usize, usize)>) -> Option<(nat, nat)> {
    match p {
        Some((a, b)) => Some((a as nat, b as nat)),
        None => None,
    }
}

/// `raw_thumb` computed without overflow; the result never exceeds
/// `window_height` when `rows <= total_rows`, and is clamped by callers.
fn compute_share(rows: usize, window_height: usize, total_rows: usize) -> (r: u128)
    ensures
        r as nat == raw_thumb(rows as nat, window_height as nat, total_rows as nat),
{
    assert(rows as u128 * window_height as u128 <= 0xffff_ffff_ffff_ffff_ffff_ffff_ffff_ffffu128)
        by (nonlinear_arith)
        requires
            rows <= 0xffff_ffff_ffff_ffff_u64,
            window_height <= 0xffff_ffff_ffff_ffff_u64,
    ;
    let product: u128 = rows as u128 * window_height as u128;
    if total_rows == 0 {
        if product == 0 {
            0
        } else {
            window_height as u128
        }
    } else {
        product / total_rows as u128
    }
}

fn clamp_to_window(share: u128, window_height: usize) -> (r: usize)
    ensures
        r as nat == (if share < window_height { share as nat } else { window_height as nat }),
{
    if share < window_height as u128 {
        share as usize
    } else {
        window_height
    }
}

/// Scrollbar `(top_position, thumb_length)` of a preview that shows the first
/// `visible_rows` rows of a file of `total_rows` rows, or `None` when the thumb
/// would be empty.
pub fn file_scrollbar(
    visible_rows: usize,
    window_height: usize,
    total_rows: usize,
    border: bool,
) -> (r: Option<(usize, usize)>)
    ensures
        as_nat_pair(r) == spec_file_scrollbar(
            visible_rows as nat,
            window_height as nat,
            total_rows as nat,
            border,
        ),
{
    let share = compute_share(visible_rows, window_height, total_rows);
    let length = clamp_to_window(share, window_height);
    if length == 0 {
        None
    } else {
        let top: usize = if border { 1 } else { 0 };
        let length = if border && length == window_height { length - 1 } else { length };
        Some((top, length))
    }
}

/// Scrollbar `(top_position, thumb_length)` of an excerpt spanning rows
/// `start..end` of a file of `total_rows` rows.
pub fn line_scrollbar(
    start: usize,
    end: usize,
    window_height: usize,
    total_rows: usize,
    border: bool,
    has_context: bool,
) -> (r: Option<(usize, usize)>)
    requires
        start <= end <= total_rows,
    ensures
        as_nat_pair(r) == spec_line_scrollbar(
            start as nat,
            end as nat,
            window_height as nat,
            total_rows as nat,
            border,
            has_context,
        ),
{
    let s: usize = if has_context {
        start
    } else if start >= 3 {
        start - 3
    } else {
        0
    };
    let share = compute_share(end - s, window_height, total_rows);
    let length = clamp_to_window(share, window_height);
    let top_share = compute_share(s, window_height, total_rows);
    if length == 0 {
        None
    } else {
        proof {
            lemma_share_le(s as nat, window_height as nat, total_rows as nat);
        }
        let top: usize = top_share as usize;
        let top: usize = if border && top < 1 { 1 } else { top };
        let length = if border && length == window_height { length - 1 } else { length };
        Some((top, length))
    }
}

proof fn lemma_share_le(rows: nat, window_height: nat, total_rows: nat)
    ensures
        rows <= total_rows ==> raw_thumb(rows, window_height, total_rows) <= window_height,
{
    if rows <= total_rows && total_rows > 0 {
        assert(rows * window_height <= total_rows * window_height) by (nonlinear_arith)
            requires rows <= total_rows;
        assert((rows * window_height) / total_rows <= window_height) by (nonlinear_arith)
            requires rows * window_height <= total_rows * window_height, total_rows > 0;
    }
}

/// The thumb is empty exactly when the visible rows times the window height
/// fall short of the total (rounding down gives zero); a thumb never exceeds
/// the window, and its top row lies within the window.
pub proof fn lemma_scrollbar_geometry(
    start: nat,
    end: nat,
    visible_rows: nat,
    window_height: nat,
    total_rows: nat,
    border: bool,
    has_context: bool,
)
    requires
        total_rows > 0,
        start <= end <= total_rows,
    ensures
        thumb_length(visible_rows, window_height, total_rows) == 0 <==> visible_rows
            * window_height < total_rows,
        thumb_length(visible_rows, window_height, total_rows) <= window_height,
        spec_file_scrollbar(visible_rows, window_height, total_rows, border) matches Some(
            (top, length),
        ) ==> top <= window_height && length <= window_height,
        spec_line_scrollbar(start, end, window_height, total_rows, border, has_context) matches Some(
            (top, length),
        ) ==> top <= window_height && length <= window_height,
{
    let p = visible_rows * window_height;
    if p < total_rows {
        assert(p / total_rows == 0) by (nonlinear_arith)
            requires p < total_rows;
    } else {
        assert(p / total_rows >= 1) by (nonlinear_arith)
            requires p >= total_rows, total_rows > 0;
        assert(window_height > 0) by (nonlinear_arith)
            requires p == visible_rows * window_height, p >= total_rows, total_rows > 0;
    }
    let s = adjusted_start(start, has_context);
    lemma_share_le(s, window_height, total_rows);
}

} // verus!

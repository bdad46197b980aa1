//! The renderer: one full frame of the UI as a single string of ANSI escape
//! sequences and text. A frame hides the cursor, clears the screen, draws
//! the border, the current path, the instructions, and as many listing rows
//! as fit inside the border, then parks and re-shows the cursor. The caller
//! writes the returned string to the terminal unchanged.

use vstd::prelude::*;

verus! {

/// The decimal digit character for `d` in `0 ..= 9`.
pub open spec fn dec_digit(d: int) -> Seq<char> {
    if d == 0 {
        "0"@
    } else if d == 1 {
        "1"@
    } else if d == 2 {
        "2"@
    } else if d == 3 {
        "3"@
    } else if d == 4 {
        "4"@
    } else if d == 5 {
        "5"@
    } else if d == 6 {
        "6"@
    } else if d == 7 {
        "7"@
    } else if d == 8 {
        "8"@
    } else {
        "9"@
    }
}

/// The decimal numeral for a non-negative `n`, most significant digit first,
/// with no leading zeros (and `0` itself written as one digit).
pub open spec fn dec_of(n: int) -> Seq<char>
    decreases n,
{
    if n < 10 {
        dec_digit(n)
    } else {
        dec_of(n / 10) + dec_digit(n % 10)
    }
}

/// The digit character for `d`.
fn digit_str(d: usize) -> (r: &'static str)
    requires
        d < 10,
    ensures
        r@ == dec_digit(d as int),
{
    match d {
        0 => "0",
        1 => "1",
        2 => "2",
        3 => "3",
        4 => "4",
        5 => "5",
        6 => "6",
        7 => "7",
        8 => "8",
        _ => "9",
    }
}

/// Formats `n` as its decimal numeral.
pub fn format_usize(n: usize) -> (r: String)
    ensures
        r@ == dec_of(n as int),
    decreases n,
{
    if n < 10 {
        String::from_str(digit_str(n))
    } else {
        let mut s = format_usize(n / 10);
        s.append(digit_str(n % 10));
        s
    }
}

/// The ANSI sequence that moves the cursor to row `y`, column `x`.
pub open spec fn csi_at(y: int, x: int) -> Seq<char> {
    "\x1B["@ + dec_of(y) + ";"@ + dec_of(x) + "H"@
}

/// Emits the cursor-positioning sequence for row `y`, column `x`.
pub fn cursor_to(y: usize, x: usize) -> (r: String)
    ensures
        r@ == csi_at(y as int, x as int),
{
    let mut r = String::from_str("\x1B[");
    let ds = format_usize(y);
    r.append(ds.as_str());
    r.append(";");
    let ds2 = format_usize(x);
    r.append(ds2.as_str());
    r.append("H");
    r
}

/// `n` copies of the horizontal border character.
pub open spec fn horizontal_of(n: int) -> Seq<char>
    decreases n,
{
    if n <= 0 {
        Seq::<char>::empty()
    } else {
        horizontal_of(n - 1) + "─"@
    }
}

/// A run of `n` horizontal border characters.
fn horizontal_run(n: usize) -> (r: String)
    ensures
        r@ == horizontal_of(n as int),
{
    let mut r = String::new();
    let mut i: usize = 0;
    while i < n
        invariant
            i <= n,
            r@ == horizontal_of(i as int),
        decreases n - i,
    {
        r.append("─");
        i = i + 1;
    }
    r
}

/// One row of the two side borders: the left edge at column `ox` and the
/// right edge at column `ox + width - 1`, both on row `oy + i`.
pub open spec fn border_side_row(width: int, ox: int, oy: int, i: int) -> Seq<char> {
    csi_at(oy + i, ox) + "│"@ + csi_at(oy + i, ox + width - 1) + "│"@
}

/// The side-border rows `1 .. upto` accumulated in order.
pub open spec fn border_sides_upto(width: int, ox: int, oy: int, upto: int) -> Seq<char>
    decreases upto,
{
    if upto <= 1 {
        Seq::<char>::empty()
    } else {
        border_sides_upto(width, ox, oy, upto - 1) + border_side_row(width, ox, oy, upto - 1)
    }
}

/// The whole rectangular border: top edge with corners, the side rows
/// `1 .. height - 1`, and the bottom edge with corners.
pub open spec fn border_of(width: int, height: int, ox: int, oy: int) -> Seq<char> {
    csi_at(oy, ox) + "┌"@ + horizontal_of(width - 2) + "┐"@ + border_sides_upto(
        width,
        ox,
        oy,
        height - 1,
    ) + csi_at(oy + height - 1, ox) + "└"@ + horizontal_of(width - 2) + "┘"@
}

/// Draws the border of a `width` by `height` box whose top-left corner sits
/// at column `offset_x`, row `offset_y`.
pub fn draw_border(width: usize, height: usize, offset_x: usize, offset_y: usize) -> (r: String)
    requires
        width >= 2,
        height >= 2,
        offset_x + width <= usize::MAX,
        offset_y + height <= usize::MAX,
    ensures
        r@ == border_of(width as int, height as int, offset_x as int, offset_y as int),
{
    let horizontal = horizontal_run(width - 2);
    let mut r = cursor_to(offset_y, offset_x);
    r.append("┌");
    r.append(horizontal.as_str());
    r.append("┐");
    let mut i: usize = 1;
    while i < height - 1
        invariant
            1 <= i <= height - 1,
            width >= 2,
            offset_x + width <= usize::MAX,
            offset_y + height <= usize::MAX,
            r@ == csi_at(offset_y as int, offset_x as int) + "┌"@ + horizontal_of(width - 2)
                + "┐"@ + border_sides_upto(width as int, offset_x as int, offset_y as int, i as int),
        decreases height - 1 - i,
    {
        let row_left = cursor_to(offset_y + i, offset_x);
        let mut row = row_left;
        row.append("│");
        let row_right = cursor_to(offset_y + i, offset_x + width - 1);
        row.append(row_right.as_str());
        row.append("│");
        r.append(row.as_str());
        i = i + 1;
    }
    let bottom_at = cursor_to(offset_y + height - 1, offset_x);
    r.append(bottom_at.as_str());
    r.append("└");
    r.append(horizontal.as_str());
    r.append("┘");
    r
}

/// `s` cut down to its first `k` characters; shorter strings stay whole.
pub open spec fn truncated(s: Seq<char>, k: int) -> Seq<char> {
    if s.len() <= k {
        s
    } else {
        s.take(k)
    }
}

/// The first `k` characters of `s`, or all of `s` when it is shorter.
fn truncate_chars(s: &str, k: usize) -> (r: String)
    ensures
        r@ == truncated(s@, k as int),
{
    let n = s.unicode_len();
    if n <= k {
        String::from_str(s)
    } else {
        let t = s.substring_char(0, k);
        String::from_str(t)
    }
}

/// One listing row at row `y`: the selected entry carries a `> ` marker and
/// a green foreground, the others two blanks; the name is truncated to the
/// row width.
pub open spec fn listing_row(name: Seq<char>, is_selected: bool, y: int, cx: int, maxw: int) -> Seq<
    char,
> {
    if is_selected {
        csi_at(y, cx) + "> "@ + "\x1B[32m"@ + truncated(name, maxw - 4) + "\x1B[0m"@
    } else {
        csi_at(y, cx) + "  "@ + truncated(name, maxw - 4)
    }
}

/// The first `upto` listing rows, in order, skipping every row whose screen
/// row would reach `limit` (the border's bottom edge): those are dropped,
/// not wrapped or scrolled.
pub open spec fn listing_rows_upto(
    listing: Seq<Seq<char>>,
    sel: int,
    list_y: int,
    cx: int,
    maxw: int,
    limit: int,
    upto: int,
) -> Seq<char>
    decreases upto,
{
    if upto <= 0 {
        Seq::<char>::empty()
    } else {
        let prev = listing_rows_upto(listing, sel, list_y, cx, maxw, limit, upto - 1);
        if list_y + (upto - 1) >= limit {
            prev
        } else {
            prev + listing_row(listing[upto - 1], upto - 1 == sel, list_y + (upto - 1), cx, maxw)
        }
    }
}

/// Once one row falls past the bottom edge, every later row does too, so
/// the rows up to `i` are exactly the rows up to `j`.
proof fn lemma_rows_cut(
    listing: Seq<Seq<char>>,
    sel: int,
    list_y: int,
    cx: int,
    maxw: int,
    limit: int,
    j: int,
    i: int,
)
    requires
        0 <= j <= i,
        list_y + j >= limit,
    ensures
        listing_rows_upto(listing, sel, list_y, cx, maxw, limit, i) == listing_rows_upto(
            listing,
            sel,
            list_y,
            cx,
            maxw,
            limit,
            j,
        ),
    decreases i - j,
{
    if i > j {
        lemma_rows_cut(listing, sel, list_y, cx, maxw, limit, j, i - 1);
    }
}

/// Renders the listing rows that fit between `list_start_y` and `limit_y`.
fn listing_rows(
    listing: &Vec<String>,
    selected: usize,
    list_start_y: usize,
    content_start_x: usize,
    max_text_width: usize,
    limit_y: usize,
) -> (r: String)
    requires
        max_text_width >= 4,
        list_start_y + listing.len() <= usize::MAX,
    ensures
        r@ == listing_rows_upto(
            listing.deep_view(),
            selected as int,
            list_start_y as int,
            content_start_x as int,
            max_text_width as int,
            limit_y as int,
            listing.len() as int,
        ),
{
    let ghost lv = listing.deep_view();
    let mut r = String::new();
    let mut i: usize = 0;
    while i < listing.len()
        invariant
            i <= listing.len(),
            lv == listing.deep_view(),
            max_text_width >= 4,
            list_start_y + listing.len() <= usize::MAX,
            r@ == listing_rows_upto(
                lv,
                selected as int,
                list_start_y as int,
                content_start_x as int,
                max_text_width as int,
                limit_y as int,
                i as int,
            ),
        decreases listing.len() - i,
    {
        let y = list_start_y + i;
        if y >= limit_y {
            proof {
                lemma_rows_cut(
                    lv,
                    selected as int,
                    list_start_y as int,
                    content_start_x as int,
                    max_text_width as int,
                    limit_y as int,
                    i as int,
                    listing.len() as int,
                );
            }
            return r;
        }
        let mut row = cursor_to(y, content_start_x);
        let t = truncate_chars(listing[i].as_str(), max_text_width - 4);
        if i == selected {
            row.append("> ");
            row.append("\x1B[32m");
            row.append(t.as_str());
            row.append("\x1B[0m");
        } else {
            row.append("  ");
            row.append(t.as_str());
        }
        proof {
            assert(lv[i as int] == listing@[i as int]@);
        }
        r.append(row.as_str());
        i = i + 1;
    }
    r
}

/// The screen row where the cursor parks after a frame: two rows below the
/// last listing entry.
pub open spec fn cursor_park_y(oy: int, n: int) -> int {
    oy + 8 + (if n >= 1 {
        n - 1
    } else {
        0
    }) + 2
}

/// One whole frame: hide the cursor, clear the screen, draw the border, the
/// truncated current path, the instruction block, the listing rows that fit
/// inside the border, then park the cursor below the listing and show it
/// again.
pub open spec fn frame_of(
    path: Seq<char>,
    listing: Seq<Seq<char>>,
    sel: int,
    w: int,
    h: int,
    ox: int,
    oy: int,
) -> Seq<char> {
    let cx = ox + 2;
    let maxw = w - 4;
    "\x1B[?25l"@ + "\x1B[H\x1B[J"@ + border_of(w, h, ox, oy) + csi_at(oy + 1, cx)
        + "Current Directory: "@ + truncated(path, maxw) + csi_at(oy + 2, cx)
        + "(↑ ↓)  Navigate"@ + csi_at(oy + 3, cx) + "Enter  Open Directory"@ + csi_at(oy + 4, cx)
        + "'b'    Back"@ + csi_at(oy + 5, cx) + "'r'    Rename"@ + csi_at(oy + 6, cx)
        + "'q'    Quit"@ + listing_rows_upto(listing, sel, oy + 8, cx, maxw, oy + h - 1, listing.len() as int)
        + csi_at(cursor_park_y(oy, listing.len() as int), cx) + "\x1B[?25h"@
}

/// Renders one frame of the browser UI for the given path, listing,
/// selection, box size, and box position.
pub fn render_frame(
    current_path: &String,
    listing: &Vec<String>,
    selected: usize,
    ui_width: usize,
    ui_height: usize,
    offset_x: usize,
    offset_y: usize,
) -> (r: String)
    requires
        ui_width >= 8,
        ui_height >= 2,
        offset_x + ui_width <= usize::MAX,
        offset_y + ui_height <= usize::MAX,
        offset_y + 10 + listing.len() <= usize::MAX,
    ensures
        r@ == frame_of(
            current_path@,
            listing.deep_view(),
            selected as int,
            ui_width as int,
            ui_height as int,
            offset_x as int,
            offset_y as int,
        ),
{
    let content_start_x = offset_x + 2;
    let max_text_width = ui_width - 4;
    let mut r = String::from_str("\x1B[?25l");
    r.append("\x1B[H\x1B[J");
    let border = draw_border(ui_width, ui_height, offset_x, offset_y);
    r.append(border.as_str());
    let at_path = cursor_to(offset_y + 1, content_start_x);
    r.append(at_path.as_str());
    r.append("Current Directory: ");
    let path_text = truncate_chars(current_path.as_str(), max_text_width);
    r.append(path_text.as_str());
    let at_i0 = cursor_to(offset_y + 2, content_start_x);
    r.append(at_i0.as_str());
    r.append("(↑ ↓)  Navigate");
    let at_i1 = cursor_to(offset_y + 3, content_start_x);
    r.append(at_i1.as_str());
    r.append("Enter  Open Directory");
    let at_i2 = cursor_to(offset_y + 4, content_start_x);
    r.append(at_i2.as_str());
    r.append("'b'    Back");
    let at_i3 = cursor_to(offset_y + 5, content_start_x);
    r.append(at_i3.as_str());
    r.append("'r'    Rename");
    let at_i4 = cursor_to(offset_y + 6, content_start_x);
    r.append(at_i4.as_str());
    r.append("'q'    Quit");
    let list_start_y = offset_y + 8;
    let limit_y = offset_y + ui_height - 1;
    let rows = listing_rows(
        listing,
        selected,
        list_start_y,
        content_start_x,
        max_text_width,
        limit_y,
    );
    r.append(rows.as_str());
    let last_list_y = list_start_y + (if listing.len() >= 1 {
        listing.len() - 1
    } else {
        0
    });
    let cursor_y = last_list_y + 2;
    let park = cursor_to(cursor_y, content_start_x);
    r.append(park.as_str());
    r.append("\x1B[?25h");
    r
}

} // verus!

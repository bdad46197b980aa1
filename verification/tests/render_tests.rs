use file_browser::render::{cursor_to, draw_border, format_usize, render_frame};

fn strings(names: &[&str]) -> Vec<String> {
    names.iter().map(|s| s.to_string()).collect()
}

#[test]
fn decimal_formatting_is_exact() {
    assert_eq!(format_usize(0), "0");
    assert_eq!(format_usize(7), "7");
    assert_eq!(format_usize(10), "10");
    assert_eq!(format_usize(1234), "1234");
    assert_eq!(format_usize(90210), "90210");
}

#[test]
fn cursor_moves_are_csi_sequences() {
    assert_eq!(cursor_to(5, 10), "\x1B[5;10H");
    assert_eq!(cursor_to(1, 1), "\x1B[1;1H");
    assert_eq!(cursor_to(0, 120), "\x1B[0;120H");
}

#[test]
fn border_draws_all_four_edges() {
    let b = draw_border(4, 3, 1, 1);
    assert_eq!(b, "\x1B[1;1H┌──┐\x1B[2;1H│\x1B[2;4H│\x1B[3;1H└──┘");
}

#[test]
fn taller_border_repeats_the_side_rows() {
    let b = draw_border(3, 4, 2, 5);
    assert_eq!(
        b,
        "\x1B[5;2H┌─┐\x1B[6;2H│\x1B[6;4H│\x1B[7;2H│\x1B[7;4H│\x1B[8;2H└─┘"
    );
}

#[test]
fn frame_paints_chrome_listing_and_cursor() {
    let listing = strings(&["alpha", "beta.txt"]);
    let frame = render_frame(&"./".to_string(), &listing, 0, 60, 18, 10, 3);
    assert!(frame.starts_with("\x1B[?25l\x1B[H\x1B[J"));
    assert!(frame.contains("Current Directory: ./"));
    assert!(frame.contains("(↑ ↓)  Navigate"));
    assert!(frame.contains("Enter  Open Directory"));
    assert!(frame.contains("'b'    Back"));
    assert!(frame.contains("'r'    Rename"));
    assert!(frame.contains("'q'    Quit"));
    // The selected row carries the marker and the green highlight.
    assert!(frame.contains("> \x1B[32malpha\x1B[0m"));
    // The unselected row renders plain, two spaces in.
    assert!(frame.contains("  beta.txt"));
    assert!(!frame.contains("> \x1B[32mbeta.txt"));
    assert!(frame.ends_with("\x1B[?25h"));
}

#[test]
fn frame_highlights_the_selected_row_only() {
    let listing = strings(&["alpha", "beta.txt"]);
    let frame = render_frame(&"./".to_string(), &listing, 1, 60, 18, 10, 3);
    assert!(frame.contains("> \x1B[32mbeta.txt\x1B[0m"));
    assert!(!frame.contains("> \x1B[32malpha"));
}

#[test]
fn rows_past_the_bottom_border_are_dropped() {
    // With an 18-row box starting at row 0, listing rows sit at rows
    // 8 ..= 16: nine entries fit and the tenth is dropped.
    let names: Vec<String> = (0..12).map(|i| format!("entry{:02}", i)).collect();
    let frame = render_frame(&"./".to_string(), &names, 0, 60, 18, 0, 0);
    assert!(frame.contains("entry08"));
    assert!(!frame.contains("entry09"));
    assert!(!frame.contains("entry11"));
}

#[test]
fn long_names_are_truncated_to_the_row_width() {
    // A 60-wide box leaves 52 columns for an entry name.
    let long = "x".repeat(70);
    let frame = render_frame(&"./".to_string(), &vec![long.clone()], 0, 60, 18, 0, 0);
    assert!(!frame.contains(&long));
    assert!(frame.contains(&"x".repeat(52)));
    assert!(!frame.contains(&"x".repeat(53)));
}

#[test]
fn long_paths_are_truncated_in_the_header() {
    // The header keeps 56 columns of the path inside a 60-wide box.
    let long_path = format!("./{}", "d/".repeat(40));
    let frame = render_frame(&long_path, &strings(&["a"]), 0, 60, 18, 0, 0);
    let shown: String = long_path.chars().take(56).collect();
    assert!(frame.contains(&shown));
    let over: String = long_path.chars().take(57).collect();
    assert!(!frame.contains(&over));
}

#[test]
fn cursor_parks_two_rows_below_the_last_entry() {
    // Two entries from row 8: the last sits at row 9, the cursor at row 11.
    let frame = render_frame(&"./".to_string(), &strings(&["a", "b"]), 0, 60, 18, 0, 0);
    assert!(frame.ends_with("\x1B[11;2H\x1B[?25h"));
    // An empty listing parks the cursor at row 10.
    let frame = render_frame(&"./".to_string(), &Vec::new(), 0, 60, 18, 0, 0);
    assert!(frame.ends_with("\x1B[10;2H\x1B[?25h"));
}

use toss::panel::{frame_panel, layout_panel, panel_width};

fn rule(left: char, right: char, width: usize) -> String {
    format!("{}{}{}", left, "─".repeat(width), right)
}

#[test]
fn box_is_two_wider_than_widest_line() {
    assert_eq!(panel_width(16, &vec![46, 10, 17]), Some(48));
    assert_eq!(panel_width(16, &vec![3, 10, 7]), Some(18));
    assert_eq!(panel_width(0, &vec![]), Some(2));
    assert_eq!(panel_width(5, &vec![]), Some(7));
    assert_eq!(panel_width(0, &vec![9]), Some(11));
    assert_eq!(panel_width(4, &vec![4, 4]), Some(6));
}

#[test]
fn box_too_wide_for_a_size() {
    assert_eq!(panel_width(usize::MAX, &vec![1]), None);
    assert_eq!(panel_width(1, &vec![2, usize::MAX - 1]), None);
    assert_eq!(panel_width(usize::MAX - 2, &vec![]), Some(usize::MAX));
    assert_eq!(panel_width(0, &vec![usize::MAX - 2, 0]), Some(usize::MAX));
}

#[test]
fn frame_around_padded_lines() {
    let lines = frame_panel(7, " Title ", &vec!["one  ".to_string(), "three".to_string()]);
    assert_eq!(
        lines,
        vec![
            "".to_string(),
            "┌───────┐".to_string(),
            "│ Title │".to_string(),
            "├───────┤".to_string(),
            "│ one   │".to_string(),
            "│ three │".to_string(),
            "└───────┘".to_string(),
            "".to_string(),
        ]
    );
}

#[test]
fn frame_without_body() {
    let lines = frame_panel(0, "", &vec![]);
    assert_eq!(
        lines,
        vec![
            "".to_string(),
            "┌┐".to_string(),
            "││".to_string(),
            "├┤".to_string(),
            "└┘".to_string(),
            "".to_string(),
        ]
    );
}

#[test]
fn lines_are_padded_to_the_widest() {
    let body = vec!["a".to_string(), "four".to_string(), "".to_string()];
    let lines = layout_panel("Title!", &body).unwrap();
    assert_eq!(
        lines,
        vec![
            "".to_string(),
            "┌────────┐".to_string(),
            "│ Title! │".to_string(),
            "├────────┤".to_string(),
            "│ a      │".to_string(),
            "│ four   │".to_string(),
            "│        │".to_string(),
            "└────────┘".to_string(),
            "".to_string(),
        ]
    );
}

#[test]
fn title_is_centred_with_the_smaller_half_on_the_left() {
    let body = vec!["123456789".to_string()];
    let lines = layout_panel("ab", &body).unwrap();
    assert_eq!(lines[1], rule('┌', '┐', 11));
    assert_eq!(lines[2], "│    ab     │");
    assert_eq!(lines[4], "│ 123456789 │");
}

#[test]
fn wide_title_sets_the_width() {
    let body = vec!["x".to_string()];
    let lines = layout_panel("A long title", &body).unwrap();
    assert_eq!(lines[1], rule('┌', '┐', 14));
    assert_eq!(lines[2], "│ A long title │");
    assert_eq!(lines[4], "│ x            │");
    assert_eq!(lines[5], rule('└', '┘', 14));
}

#[test]
fn wide_characters_take_two_columns() {
    let body = vec!["日本語".to_string(), "abcd".to_string()];
    let lines = layout_panel("t", &body).unwrap();
    assert_eq!(lines[1], rule('┌', '┐', 8));
    assert_eq!(lines[2], "│   t    │");
    assert_eq!(lines[4], "│ 日本語 │");
    assert_eq!(lines[5], "│ abcd   │");
}

#[test]
fn escape_sequences_take_no_columns() {
    let body = vec!["\u{1b}[33;1mURL:\u{1b}[0m x".to_string(), "1234567".to_string()];
    let lines = layout_panel("\u{1b}[32;1mOK\u{1b}[0m", &body).unwrap();
    assert_eq!(lines[1], rule('┌', '┐', 9));
    assert_eq!(lines[2], "│   \u{1b}[32;1mOK\u{1b}[0m    │");
    assert_eq!(lines[4], "│ \u{1b}[33;1mURL:\u{1b}[0m x  │");
    assert_eq!(lines[5], "│ 1234567 │");
}

#[test]
fn odd_space_goes_to_the_right_of_a_centred_title() {
    let body = vec!["12345".to_string()];
    let lines = layout_panel("abcd", &body).unwrap();
    assert_eq!(lines[1], rule('┌', '┐', 7));
    assert_eq!(lines[2], "│ abcd  │");
    assert_eq!(lines[4], "│ 12345 │");
}

#[test]
fn panel_without_body() {
    let lines = layout_panel("Done", &vec![]).unwrap();
    assert_eq!(
        lines,
        vec![
            "".to_string(),
            "┌──────┐".to_string(),
            "│ Done │".to_string(),
            "├──────┤".to_string(),
            "└──────┘".to_string(),
            "".to_string(),
        ]
    );
}

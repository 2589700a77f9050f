use tuicom::scroll::{rows, scroll_amount, MAX_ROWS};

#[test]
fn rows_of_empty_text() {
    assert_eq!(rows("", 10), 0);
}

#[test]
fn final_newline_adds_no_row() {
    assert_eq!(rows("a\n", 10), 1);
    assert_eq!(rows("a", 10), 1);
    assert_eq!(rows("\n", 10), 1);
}

#[test]
fn empty_lines_take_a_row_each() {
    assert_eq!(rows("a\n\nb", 10), 3);
}

#[test]
fn long_lines_wrap() {
    assert_eq!(rows("abcdefghij", 4), 3);
    assert_eq!(rows("abcdefgh", 4), 2);
    assert_eq!(rows("abcd\nefghi", 4), 3);
}

#[test]
fn carriage_return_before_newline_is_not_counted() {
    assert_eq!(rows("ab\r\n", 2), 1);
    assert_eq!(rows("ab\rc\n", 2), 2);
}

#[test]
fn no_width_means_no_wrapping() {
    assert_eq!(rows("abcdef\nxyz", 0), 2);
}

#[test]
fn rows_match_std_line_splitting() {
    for s in ["one\ntwo\r\nthree", "x\n\n\ny", "    \n0A 41 ", "\u{e9}\u{e9}\u{e9}\n"] {
        let width: usize = 3;
        let expected: usize = s
            .lines()
            .map(|l| if l.len() <= width { 1 } else { (l.len() + width - 1) / width })
            .sum();
        assert_eq!(rows(s, width as u16) as usize, expected);
    }
}

#[test]
fn row_count_saturates() {
    let s = "\n".repeat(70000);
    assert_eq!(rows(&s, 80), MAX_ROWS);
}

#[test]
fn scroll_keeps_the_end_in_view() {
    let s = "1\n2\n3\n4\n5\n6\n7\n8\n9\n10";
    assert_eq!(scroll_amount(s, 80, 4), 6);
    assert_eq!(scroll_amount(s, 80, 10), 0);
    assert_eq!(scroll_amount(s, 80, 20), 0);
    assert_eq!(scroll_amount("abcdefgh", 2, 1), 3);
}

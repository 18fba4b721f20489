use sockview::layout::{cell_text, column_width, layout, wrap_cell, COLUMN_COUNT};

fn strings(items: &[&str]) -> Vec<String> {
    items.iter().map(|s| s.to_string()).collect()
}

#[test]
fn narrow_viewport_wrap() {
    let lines = wrap_cell("abcdefghijkl", 5);
    assert_eq!(lines, strings(&["abcde", "fghij", "kl"]));
    let (cells, height) = layout(&strings(&["abcdefghijkl"]), 5);
    assert_eq!(cells, vec![strings(&["abcde", "fghij", "kl"])]);
    assert_eq!(height, 6);
}

#[test]
fn wrapped_lines_reassemble_to_the_cell() {
    let cells = ["", "a", "abcde", "abcdef", "127.0.0.1:65535", "ESTABLISHED", "héllo wörld ✓"];
    for cell in cells {
        for width in 1..20usize {
            let lines = wrap_cell(cell, width);
            assert_eq!(lines.concat(), cell, "cell {cell:?} at width {width}");
            let count = lines.len();
            for (i, line) in lines.iter().enumerate() {
                let len = line.chars().count();
                if i + 1 < count {
                    assert_eq!(len, width);
                } else {
                    assert!(len >= 1 && len <= width);
                }
            }
        }
    }
}

#[test]
fn wrapping_counts_characters_not_bytes() {
    assert_eq!(wrap_cell("äöüß", 2), strings(&["äö", "üß"]));
    assert_eq!(wrap_cell("äöü", 2), strings(&["äö", "ü"]));
}

#[test]
fn cell_that_fits_is_one_line() {
    assert_eq!(wrap_cell("abc", 5), strings(&["abc"]));
    assert_eq!(wrap_cell("abcde", 5), strings(&["abcde"]));
    assert_eq!(wrap_cell("abcdef", 5), strings(&["abcde", "f"]));
}

#[test]
fn empty_cell_has_no_lines_and_height_one() {
    assert_eq!(wrap_cell("", 5), Vec::<String>::new());
    let (cells, height) = layout(&strings(&[""]), 5);
    assert_eq!(cells, vec![Vec::<String>::new()]);
    assert_eq!(height, 2);
}

#[test]
fn zero_width_skips_wrapping() {
    assert_eq!(wrap_cell("abcdef", 0), strings(&["abcdef"]));
    assert_eq!(wrap_cell("", 0), Vec::<String>::new());
    let (cells, height) = layout(&strings(&["abcdef", "", "xy"]), 0);
    assert_eq!(cells, vec![strings(&["abcdef"]), vec![], strings(&["xy"])]);
    assert_eq!(height, 1);
}

#[test]
fn row_height_is_twice_the_tallest_cell() {
    let row = strings(&["100", "TCP", "0123456789", "0123456789abcdefghijk", "x"]);
    let (cells, height) = layout(&row, 5);
    assert_eq!(cells.len(), 5);
    assert_eq!(cells[0], strings(&["100"]));
    assert_eq!(cells[2], strings(&["01234", "56789"]));
    assert_eq!(cells[3], strings(&["01234", "56789", "abcde", "fghij", "k"]));
    assert_eq!(height, 10);
}

#[test]
fn row_height_is_the_maximum_not_the_last_cell() {
    let (_, height) = layout(&strings(&["0123456789abcdefghijk", "x"]), 5);
    assert_eq!(height, 10);
}

#[test]
fn row_height_is_two_when_all_cells_fit() {
    let (_, height) = layout(&strings(&["100", "TCP", "a", "b:c", "*"]), 5);
    assert_eq!(height, 2);
    let (_, height) = layout(&strings(&["", "", ""]), 3);
    assert_eq!(height, 2);
}

#[test]
fn row_without_cells_is_two_lines() {
    let (cells, height) = layout(&Vec::new(), 4);
    assert!(cells.is_empty());
    assert_eq!(height, 2);
}

#[test]
fn column_width_is_a_fifth_rounded_down() {
    assert_eq!(COLUMN_COUNT, 5);
    assert_eq!(column_width(100), 20);
    assert_eq!(column_width(104), 20);
    assert_eq!(column_width(4), 0);
    assert_eq!(column_width(5), 1);
    assert_eq!(column_width(0), 0);
    assert_eq!(column_width(u16::MAX), 13107);
}

#[test]
fn cell_text_puts_a_blank_line_above_and_below() {
    assert_eq!(cell_text(&strings(&["abcde", "fghij", "kl"])), "\nabcde\nfghij\nkl\n");
    assert_eq!(cell_text(&strings(&["abc"])), "\nabc\n");
    assert_eq!(cell_text(&Vec::new()), "\n\n");
}

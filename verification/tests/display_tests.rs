use braillix::display::{get_char, set_coord, set_mask, unset_coord, Display};

#[test]
fn braille_lookup() {
    assert_eq!(get_char(0b1110_1111), '⣷');
}

#[test]
fn set() {
    let mut i: u8 = 0;
    set_mask(&mut i, 0b1110_1111);
    assert_eq!(get_char(i), '⣷');

    i = 15;
    assert_eq!(get_char(i), '⡇');

    set_coord(&mut i, 1, 2);
    assert_eq!(get_char(i), '⡧');
}

#[test]
fn unset() {
    let mut i: u8 = 79;
    assert_eq!(get_char(i), '⡧');

    unset_coord(&mut i, 0, 1);
    unset_coord(&mut i, 0, 2);
    assert_eq!(get_char(i), '⡡');
}

#[test]
fn new() {
    let display = Display::with_dot_size(4, 4);
    assert_eq!(display, Display::with_output_size(2, 1));
    assert_eq!(display.output_size(), (2, 1));
    for x in 0..4 {
        for y in 0..4 {
            assert!(!display.is_set(x, y));
        }
    }
}

fn collect_lines(display: &Display) -> Vec<String> {
    let mut lines = Vec::new();
    let mut it = display.lines();
    while let Some(line) = it.next() {
        lines.push(line);
    }
    lines
}

#[test]
fn display_lines() {
    let mut display = Display::with_dot_size(4, 4);
    // First cell: 0b1001_1111; second cell: 0b1111_1001.
    for (x, y) in [
        (0, 0),
        (0, 1),
        (0, 2),
        (0, 3),
        (1, 0),
        (1, 3),
        (2, 0),
        (2, 3),
        (3, 0),
        (3, 1),
        (3, 2),
        (3, 3),
    ] {
        display.set(x, y);
    }

    let lines = collect_lines(&display);
    assert_eq!(lines, vec!["⣏⣹"]);
}

#[test]
fn display_set() {
    let mut display = Display::with_dot_size(8, 8);
    for i in 0..8 {
        display.set(i, i);
    }

    let lines = collect_lines(&display);
    assert_eq!(
        lines,
        vec![
            "⠑⢄⠀⠀", //
            "⠀⠀⠑⢄", //
        ]
    )
}

#[test]
fn set_unset_roundtrip() {
    let mut display = Display::with_dot_size(8, 8);
    for x in 0..8 {
        for y in 0..8 {
            display.set(x, y);
            assert!(display.is_set(x, y));
            display.unset(x, y);
            assert!(!display.is_set(x, y));
        }
    }
}

#[test]
fn out_of_range_is_ignored() {
    let mut display = Display::with_dot_size(8, 8);
    display.set(3, 3);
    let reference = Display::with_dot_size(8, 8);

    // Out-of-range accesses neither fail nor touch any cell.
    display.set(8, 0);
    display.set(0, 8);
    display.set(1000, 1000);
    display.unset(8, 0);
    display.unset(0, 1000);
    assert!(!display.is_set(8, 0));
    assert!(!display.is_set(0, 8));
    assert!(display.is_set(3, 3));

    let mut expected = reference;
    expected.set(3, 3);
    assert_eq!(display, expected);
}

#[test]
fn clear_unsets_everything() {
    let mut display = Display::with_dot_size(8, 8);
    for i in 0..8 {
        display.set(i, 7 - i);
    }
    display.clear();
    assert_eq!(display, Display::with_dot_size(8, 8));
}

#[test]
fn dot_and_output_dimensions() {
    let display = Display::with_output_size(3, 2);
    assert_eq!(display.output_width(), 3);
    assert_eq!(display.output_height(), 2);
    assert_eq!(display.dot_width(), 6);
    assert_eq!(display.dot_height(), 8);
    assert_eq!(display.dot_size(), (6, 8));
}

#[test]
fn lines_reflect_current_state() {
    let mut display = Display::with_dot_size(8, 8);
    display.set(0, 0);
    assert_eq!(collect_lines(&display), vec!["⠁⠀⠀⠀", "⠀⠀⠀⠀"]);

    // A fresh cursor sees the mutation; the old one was not cached anywhere.
    display.set(7, 7);
    assert_eq!(collect_lines(&display), vec!["⠁⠀⠀⠀", "⠀⠀⠀⢀"]);
}

#[test]
fn to_text_joins_lines() {
    let mut display = Display::with_dot_size(8, 8);
    for i in 0..8 {
        display.set(i, i);
    }
    assert_eq!(display.to_text(), "⠑⢄⠀⠀\n⠀⠀⠑⢄");
}

use braillix::canvas::geometry::{Circle, Line, Rect, Tri};
use braillix::canvas::{Canvas, Style};

fn collect_lines(canvas: &Canvas) -> Vec<String> {
    let mut lines = Vec::new();
    let mut it = canvas.display().lines();
    while let Some(line) = it.next() {
        lines.push(line);
    }
    lines
}

#[test]
fn outlined_rect() {
    let mut canvas = Canvas::with_dot_size(4, 4);
    canvas.draw(Rect::new((0, 0), (4, 4)), Style::outlined());
    assert_eq!(collect_lines(&canvas), vec!["⣏⣹"]);
}

#[test]
fn rect_zero_extent_is_noop() {
    let blank = Canvas::with_dot_size(8, 8).to_text();

    let mut canvas = Canvas::with_dot_size(8, 8);
    canvas.draw(Rect::new((2, 2), (0, 5)), Style::outlined());
    assert_eq!(canvas.to_text(), blank);

    let mut canvas = Canvas::with_dot_size(8, 8);
    canvas.draw(Rect::new((2, 2), (5, 0)), Style::outlined());
    assert_eq!(canvas.to_text(), blank);

    // A degenerate extent skips the fill pass as well, on both axes.
    let mut canvas = Canvas::with_dot_size(8, 8);
    let style = Style::filled().outline_on();
    canvas.draw(Rect::new((2, 2), (5, 0)), style);
    assert_eq!(canvas.to_text(), blank);

    let mut canvas = Canvas::with_dot_size(8, 8);
    canvas.draw(Rect::new((2, 2), (0, 5)), Style::filled());
    assert_eq!(canvas.to_text(), blank);

    let mut canvas = Canvas::with_dot_size(8, 8);
    canvas.draw(Rect::new((2, 2), (0, 0)), Style::filled().outline_on());
    assert_eq!(canvas.to_text(), blank);
}

#[test]
fn thin_rect_is_its_spanning_segment() {
    // 1 wide: only the rectangle's own column, nothing beside it.
    let mut canvas = Canvas::with_dot_size(8, 8);
    canvas.draw(Rect::new((0, 0), (1, 3)), Style::outlined());
    for y in 0..8 {
        for x in 0..8 {
            let on_segment = x == 0 && y < 3;
            assert_eq!(canvas.display().is_set(x, y), on_segment, "dot ({x}, {y})");
        }
    }

    // 1 tall: only the rectangle's own row.
    let mut canvas = Canvas::with_dot_size(8, 8);
    canvas.draw(Rect::new((2, 3), (4, 1)), Style::outlined());
    for y in 0..8 {
        for x in 0..8 {
            let on_segment = y == 3 && (2..6).contains(&x);
            assert_eq!(canvas.display().is_set(x, y), on_segment, "dot ({x}, {y})");
        }
    }

    // 1x1: exactly the one dot.
    let mut canvas = Canvas::with_dot_size(8, 8);
    canvas.draw(Rect::new((4, 5), (1, 1)), Style::outlined());
    for y in 0..8 {
        for x in 0..8 {
            assert_eq!(canvas.display().is_set(x, y), x == 4 && y == 5, "dot ({x}, {y})");
        }
    }
}

#[test]
fn filled_rect_covers_interior() {
    let mut canvas = Canvas::with_dot_size(8, 8);
    canvas.draw(Rect::new((1, 1), (5, 5)), Style::filled());
    // Full brightness: every dot of rows 1..5, columns 1..5 is set.
    for y in 0..8 {
        for x in 0..8 {
            let inside = (1..6).contains(&x) && (1..6).contains(&y);
            assert_eq!(canvas.display().is_set(x, y), inside, "dot ({x}, {y})");
        }
    }
}

#[test]
fn set_with_brightness_extremes() {
    let mut canvas = Canvas::with_dot_size(8, 8);
    for x in 0..8 {
        for y in 0..8 {
            canvas.set_with_brightness((x, y), 64);
        }
    }
    for x in 0..8 {
        for y in 0..8 {
            assert!(canvas.display().is_set(x as usize, y as usize));
        }
    }
    for x in 0..8 {
        for y in 0..8 {
            canvas.set_with_brightness((x, y), 0);
        }
    }
    for x in 0..8 {
        for y in 0..8 {
            assert!(!canvas.display().is_set(x as usize, y as usize));
        }
    }
}

#[test]
fn set_with_brightness_uses_threshold() {
    let mut canvas = Canvas::with_dot_size(8, 8);
    // threshold(0, 0) == 0, so brightness 1 beats it ...
    canvas.set_with_brightness((0, 0), 1);
    assert!(canvas.display().is_set(0, 0));
    // ... while threshold(1, 0) == 48 swallows it.
    canvas.set_with_brightness((1, 0), 1);
    assert!(!canvas.display().is_set(1, 0));
    // Brightness 49 beats 48.
    canvas.set_with_brightness((1, 0), 49);
    assert!(canvas.display().is_set(1, 0));
}

#[test]
fn set_with_brightness_idempotent() {
    for brightness in [0, 1, 17, 32, 48, 63, 64, 100] {
        let mut canvas = Canvas::with_dot_size(8, 8);
        for x in 0..8 {
            for y in 0..8 {
                canvas.set_with_brightness((x, y), brightness);
            }
        }
        let once = canvas.to_text();
        for x in 0..8 {
            for y in 0..8 {
                canvas.set_with_brightness((x, y), brightness);
            }
        }
        assert_eq!(canvas.to_text(), once, "brightness {brightness}");
    }
}

#[test]
fn set_with_brightness_clips() {
    let blank = Canvas::with_dot_size(8, 8).to_text();
    let mut canvas = Canvas::with_dot_size(8, 8);
    canvas.set_with_brightness((-1, 3), 64);
    canvas.set_with_brightness((3, -7), 64);
    canvas.set_with_brightness((8, 0), 64);
    canvas.set_with_brightness((0, 8), 64);
    assert_eq!(canvas.to_text(), blank);
}

#[test]
fn diagonal_line() {
    let mut canvas = Canvas::with_dot_size(8, 8);
    canvas.draw(Line::new((0, 0), (7, 7)), Style::outlined());
    assert_eq!(collect_lines(&canvas), vec!["⠑⢄⠀⠀", "⠀⠀⠑⢄"]);
}

#[test]
fn straight_lines() {
    let mut canvas = Canvas::with_dot_size(8, 8);
    canvas.draw(Line::new((7, 2), (0, 2)), Style::outlined());
    canvas.draw(Line::new((3, 7), (3, 0)), Style::outlined());
    for i in 0..8 {
        assert!(canvas.display().is_set(i, 2));
        assert!(canvas.display().is_set(3, i));
    }
    assert!(!canvas.display().is_set(0, 0));
    assert!(!canvas.display().is_set(7, 7));
}

#[test]
fn line_without_outline_is_noop() {
    let blank = Canvas::with_dot_size(8, 8).to_text();
    let mut canvas = Canvas::with_dot_size(8, 8);
    canvas.draw(Line::new((0, 0), (7, 7)), Style::filled());
    assert_eq!(canvas.to_text(), blank);
}

#[test]
fn triangle_edges() {
    let mut canvas = Canvas::with_dot_size(8, 8);
    canvas.draw(Tri::new((0, 0), (7, 0), (0, 7)), Style::outlined());
    for i in 0..8 {
        assert!(canvas.display().is_set(i, 0), "top edge at {i}");
        assert!(canvas.display().is_set(0, i), "left edge at {i}");
        assert!(canvas.display().is_set(7 - i, i), "hypotenuse at {i}");
    }
    assert!(!canvas.display().is_set(2, 2));
    assert!(!canvas.display().is_set(3, 2));
}

#[test]
fn circle_outline() {
    let mut canvas = Canvas::with_dot_size(16, 16);
    canvas.draw(Circle::new((4, 4), 2), Style::outlined());
    let expected = [
        (2, 4),
        (6, 4),
        (4, 2),
        (4, 6),
        (2, 3),
        (2, 5),
        (6, 3),
        (6, 5),
        (3, 2),
        (5, 2),
        (3, 6),
        (5, 6),
    ];
    for y in 0..16 {
        for x in 0..16 {
            assert_eq!(
                canvas.display().is_set(x, y),
                expected.contains(&(x, y)),
                "dot ({x}, {y})"
            );
        }
    }
}

#[test]
fn negative_radius_circle_is_noop() {
    let blank = Canvas::with_dot_size(8, 8).to_text();
    let mut canvas = Canvas::with_dot_size(8, 8);
    canvas.draw(Circle::new((4, 4), -3), Style::outlined().fill_on());
    assert_eq!(canvas.to_text(), blank);
}

#[test]
fn clear_resets_canvas() {
    let mut canvas = Canvas::with_dot_size(8, 8);
    canvas.draw(Rect::new((0, 0), (8, 8)), Style::filled());
    canvas.clear();
    assert_eq!(canvas.to_text(), Canvas::with_dot_size(8, 8).to_text());
}

#[test]
fn canvas_dimensions() {
    let canvas = Canvas::with_output_size(4, 3);
    assert_eq!(canvas.output_size(), (4, 3));
    assert_eq!(canvas.output_width(), 4);
    assert_eq!(canvas.output_height(), 3);
    assert_eq!(canvas.dot_size(), (8, 12));
    assert_eq!(canvas.dot_width(), 8);
    assert_eq!(canvas.dot_height(), 12);
}

#[test]
fn display_mut_reaches_the_buffer() {
    let mut canvas = Canvas::with_dot_size(4, 4);
    canvas.display_mut().set(0, 0);
    assert!(canvas.display().is_set(0, 0));
}

#[test]
fn outline_matching_fill_is_dropped() {
    // With outline == fill the outline pass draws nothing; at brightness 14
    // only the dots whose threshold lies below 14 survive the fill dither.
    let style = Style {
        outline: Some(14),
        fill: Some(14),
    };
    let mut canvas = Canvas::with_dot_size(8, 8);
    canvas.draw(Rect::new((0, 0), (8, 8)), style);

    let mut reference = Canvas::with_dot_size(8, 8);
    reference.draw(Rect::new((0, 0), (8, 8)), Style::filled_with_brightness(14));
    assert_eq!(canvas.to_text(), reference.to_text());
}

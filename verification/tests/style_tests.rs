use braillix::canvas::Style;

#[test]
fn distinguishable_outline() {
    let no_distinguishable_outline = Style {
        outline: Some(14),
        fill: Some(14),
    };
    assert_eq!(no_distinguishable_outline.distinguishable_outline(), None);

    let no_outline = Style {
        outline: None,
        fill: Some(16),
    };
    assert_eq!(no_outline.distinguishable_outline(), None);

    let no_fill = Style {
        outline: Some(5),
        fill: None,
    };
    assert_eq!(no_fill.distinguishable_outline(), Some(5));

    let distinguishable_outline = Style {
        outline: Some(16),
        fill: Some(5),
    };
    assert_eq!(distinguishable_outline.distinguishable_outline(), Some(16));
}

#[test]
fn builders_set_and_clamp() {
    let s = Style::default();
    assert_eq!(s.outline, None);
    assert_eq!(s.fill, None);

    let s = Style::none();
    assert_eq!(s.outline, None);
    assert_eq!(s.fill, None);

    let s = Style::filled();
    assert_eq!(s.fill, Some(64));
    assert_eq!(s.outline, None);

    let s = Style::outlined();
    assert_eq!(s.outline, Some(64));
    assert_eq!(s.fill, None);

    let s = Style::filled_with_brightness(100);
    assert_eq!(s.fill, Some(64));
    let s = Style::filled_with_brightness(17);
    assert_eq!(s.fill, Some(17));

    let s = Style::outlined_with_brightness(65);
    assert_eq!(s.outline, Some(64));
    let s = Style::outlined_with_brightness(63);
    assert_eq!(s.outline, Some(63));

    let s = Style::none().fill_on().outline_off();
    assert_eq!(s.fill, Some(64));
    assert_eq!(s.outline, Some(0));

    let s = s.fill_off().outline_on();
    assert_eq!(s.fill, Some(0));
    assert_eq!(s.outline, Some(64));

    let s = s.no_fill().no_outline();
    assert_eq!(s.fill, None);
    assert_eq!(s.outline, None);

    let s = Style::none().outline_brightness(3).fill_brightness(200);
    assert_eq!(s.outline, Some(3));
    assert_eq!(s.fill, Some(64));
}

use obsidian::color::parse_rgb;

fn color_of(s: &str) -> (f64, f64, f64, f64) {
    let (r, g, b) = parse_rgb(s).unwrap();
    (r as f64 / 255.0, g as f64 / 255.0, b as f64 / 255.0, 1.0)
}

#[test]
fn deserialize_colors() {
    for (s, c) in vec![
        ("#000000", (0.0, 0.0, 0.0, 1.0)),
        ("#1d1f21", (29.0 / 255.0, 31.0 / 255.0, 33.0 / 255.0, 1.0)),
        ("#ffaf00", (1.0, 175.0 / 255.0, 0.0, 1.0)),
        ("#ffffff", (1.0, 1.0, 1.0, 1.0)),
    ] {
        assert_eq!(color_of(s), c);
    }
}

#[test]
fn color_bytes() {
    assert_eq!(parse_rgb("#1d1f21"), Some((29, 31, 33)));
    assert_eq!(parse_rgb("FFAF00"), Some((255, 175, 0)));
    assert_eq!(parse_rgb("#ffaf0"), None);
    assert_eq!(parse_rgb("#ffaf000"), None);
    assert_eq!(parse_rgb("##ffaf00"), None);
    assert_eq!(parse_rgb("#ffag00"), None);
    assert_eq!(parse_rgb("#ffaf0é"), None);
    assert_eq!(parse_rgb(""), None);
}

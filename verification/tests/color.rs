use ksforge::color::{paint, Color};

#[test]
fn paint_returns_plain_text_when_disabled() {
    assert_eq!(paint("hello", Color::Red, false, false), "hello");
}

#[test]
fn paint_wraps_in_ansi_codes_when_enabled() {
    let painted = paint("hello", Color::Red, true, true);
    assert!(painted.starts_with("\x1b[1;31m"));
    assert!(painted.ends_with("\x1b[0m"));
    assert!(painted.contains("hello"));
}

#[test]
fn paint_without_bold_uses_the_plain_colour_code() {
    assert_eq!(paint("ok", Color::Green, false, true), "\x1b[32mok\x1b[0m");
}

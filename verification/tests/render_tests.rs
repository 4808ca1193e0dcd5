use plato_dashboard::render::box_drawing;
use plato_dashboard::{Color, Render};

#[test]
fn test_box_drawing() {
    let lines = Render::draw_box("Test Panel", 30, 5);
    assert_eq!(lines.len(), 5);
    assert!(lines[0].starts_with('┌'));
    assert!(lines[0].ends_with('┐'));
    assert!(lines[4].starts_with('└'));
    assert!(lines[4].ends_with('┘'));
    // Middle lines have vertical bars
    assert!(lines[1].starts_with('│'));
    assert!(lines[1].ends_with('│'));
}

#[test]
fn test_color_formatting() {
    let red = Render::colorize("ALERT", Color::Red);
    assert!(red.contains("\x1b[31m"));
    assert!(red.contains("ALERT"));
    assert!(red.contains("\x1b[0m"));
}

#[test]
fn test_center() {
    let centered = Render::center("hi", 10);
    assert_eq!(centered, "    hi    ");
}

#[test]
fn test_pad_truncate() {
    let padded = Render::pad("hello", 10);
    assert_eq!(padded, "hello     ");
    let truncated = Render::pad("hello world", 5);
    assert_eq!(truncated, "hello");
}

#[test]
fn test_clear_screen() {
    let clear = Render::clear_screen();
    assert!(clear.contains("\x1b[2J"));
}

#[test]
fn test_move_cursor() {
    let mv = Render::move_cursor(5, 10);
    assert_eq!(mv, "\x1b[5;10H");
}

#[test]
fn test_color_codes() {
    assert_eq!(Color::Red.fg_code(), "\x1b[31m");
    assert_eq!(Color::Green.bg_code(), "\x1b[42m");
    assert_eq!(Color::Reset.fg_code(), "\x1b[0m");
}

#[test]
fn test_horizontal_line() {
    let line = Render::horizontal_line(5);
    assert_eq!(line, "─────");
}

#[test]
fn test_hide_show_cursor() {
    assert_eq!(Render::hide_cursor(), "\x1b[?25l");
    assert_eq!(Render::show_cursor(), "\x1b[?25h");
}

#[test]
fn draw_box_exact_lines() {
    let lines = Render::draw_box("Hi", 10, 3);
    assert_eq!(lines, vec!["┌── Hi ──┐", "│        │", "└────────┘"]);
    let odd = Render::draw_box("Hi", 9, 2);
    assert_eq!(odd, vec!["┌─ Hi ──┐", "└───────┘"]);
}

#[test]
fn draw_box_degenerate_heights() {
    assert_eq!(Render::draw_box("T", 6, 0).len(), 1);
    assert_eq!(Render::draw_box("T", 6, 1).len(), 1);
    assert_eq!(Render::draw_box("T", 6, 2).len(), 2);
    // A title wider than the box is kept whole.
    assert_eq!(Render::draw_box("Long title", 4, 1), vec!["┌ Long title ┐"]);
}

#[test]
fn pad_always_has_exact_width() {
    for w in 0..12 {
        assert_eq!(Render::pad("héllo wörld", w).chars().count(), w);
    }
    assert_eq!(Render::pad("", 3), "   ");
    assert_eq!(Render::pad("✓✓✓", 2), "✓✓");
}

#[test]
fn center_edge_cases() {
    assert_eq!(Render::center("abc", 6), " abc  ");
    assert_eq!(Render::center("toolong", 3), "toolong");
    assert_eq!(Render::center("", 2), "  ");
}

#[test]
fn colorize_exact() {
    assert_eq!(Render::colorize("x", Color::Cyan), "\x1b[36mx\x1b[0m");
    assert_eq!(Render::colorize("", Color::Reset), "\x1b[0m\x1b[0m");
}

#[test]
fn all_color_codes() {
    let fg = [
        (Color::Red, "\x1b[31m", "\x1b[41m"),
        (Color::Green, "\x1b[32m", "\x1b[42m"),
        (Color::Yellow, "\x1b[33m", "\x1b[43m"),
        (Color::Blue, "\x1b[34m", "\x1b[44m"),
        (Color::Magenta, "\x1b[35m", "\x1b[45m"),
        (Color::Cyan, "\x1b[36m", "\x1b[46m"),
        (Color::White, "\x1b[37m", "\x1b[47m"),
        (Color::Reset, "\x1b[0m", "\x1b[0m"),
    ];
    for (c, f, b) in fg {
        assert_eq!(c.fg_code(), f);
        assert_eq!(c.bg_code(), b);
    }
}

#[test]
fn renderer_dimensions_and_codes() {
    let r = Render::default_size();
    assert_eq!((r.width(), r.height()), (80, 24));
    let r = Render::new(120, 40);
    assert_eq!((r.width(), r.height()), (120, 40));
    assert_eq!(Render::clear_screen(), "\x1b[2J\x1b[H");
    assert_eq!(Render::reset(), "\x1b[0m");
    assert_eq!(Render::move_cursor(0, 123456789), "\x1b[0;123456789H");
    assert_eq!(Render::horizontal_line(0), "");
}

#[test]
fn box_drawing_characters() {
    assert_eq!(box_drawing::TOP_LEFT, '┌');
    assert_eq!(box_drawing::TOP_RIGHT, '┐');
    assert_eq!(box_drawing::BOTTOM_LEFT, '└');
    assert_eq!(box_drawing::BOTTOM_RIGHT, '┘');
    assert_eq!(box_drawing::HORIZONTAL, '─');
    assert_eq!(box_drawing::VERTICAL, '│');
    assert_eq!(box_drawing::T_DOWN, '┬');
    assert_eq!(box_drawing::T_UP, '┴');
    assert_eq!(box_drawing::T_RIGHT, '├');
    assert_eq!(box_drawing::T_LEFT, '┤');
    assert_eq!(box_drawing::CROSS, '┼');
}

//! Terminal rendering utilities: ANSI escape codes, colors, box drawing,
//! padding and centering.

pub mod box_drawing;

use vstd::prelude::*;
use crate::text::{
    center_spec, char_count, dec, pad_spec, push_decimal, push_padded, push_repeat, push_str,
    repeat_seq, spaces, views,
};
use crate::render::box_drawing as bd;

verus! {

/// Terminal color codes.
#[derive(Debug, Clone, Copy, PartialEq, Eq, Structural)]
pub enum Color {
    Red,
    Green,
    Yellow,
    Blue,
    Magenta,
    Cyan,
    White,
    Reset,
}

/// The ANSI foreground escape sequence of a color.
pub open spec fn fg_code_spec(c: Color) -> Seq<char> {
    match c {
        Color::Red => "\x1b[31m"@,
        Color::Green => "\x1b[32m"@,
        Color::Yellow => "\x1b[33m"@,
        Color::Blue => "\x1b[34m"@,
        Color::Magenta => "\x1b[35m"@,
        Color::Cyan => "\x1b[36m"@,
        Color::White => "\x1b[37m"@,
        Color::Reset => "\x1b[0m"@,
    }
}

/// The ANSI background escape sequence of a color.
pub open spec fn bg_code_spec(c: Color) -> Seq<char> {
    match c {
        Color::Red => "\x1b[41m"@,
        Color::Green => "\x1b[42m"@,
        Color::Yellow => "\x1b[43m"@,
        Color::Blue => "\x1b[44m"@,
        Color::Magenta => "\x1b[45m"@,
        Color::Cyan => "\x1b[46m"@,
        Color::White => "\x1b[47m"@,
        Color::Reset => "\x1b[0m"@,
    }
}

impl Color {
    /// Return the ANSI foreground code for this color.
    pub fn fg_code(&self) -> (r: &'static str)
        ensures
            r@ == fg_code_spec(*self),
    {
        match self {
            Color::Red => "\x1b[31m",
            Color::Green => "\x1b[32m",
            Color::Yellow => "\x1b[33m",
            Color::Blue => "\x1b[34m",
            Color::Magenta => "\x1b[35m",
            Color::Cyan => "\x1b[36m",
            Color::White => "\x1b[37m",
            Color::Reset => "\x1b[0m",
        }
    }

    /// Return the ANSI background code for this color.
    pub fn bg_code(&self) -> (r: &'static str)
        ensures
            r@ == bg_code_spec(*self),
    {
        match self {
            Color::Red => "\x1b[41m",
            Color::Green => "\x1b[42m",
            Color::Yellow => "\x1b[43m",
            Color::Blue => "\x1b[44m",
            Color::Magenta => "\x1b[45m",
            Color::Cyan => "\x1b[46m",
            Color::White => "\x1b[47m",
            Color::Reset => "\x1b[0m",
        }
    }
}

/// `text` wrapped in the foreground code of `color` and the reset code.
pub open spec fn colorize_spec(text: Seq<char>, color: Color) -> Seq<char> {
    fg_code_spec(color) + text + fg_code_spec(Color::Reset)
}

/// The title bar of a box: the title between blanks, centered in a run of
/// horizontal lines (the odd line going right), between the top corners.
pub open spec fn box_top_spec(title: Seq<char>, width: nat) -> Seq<char> {
    let inner = if width >= 2 { (width - 2) as nat } else { 0nat };
    let title_str = seq![' '] + title + seq![' '];
    let remaining = if inner >= title_str.len() { (inner - title_str.len()) as nat } else { 0nat };
    seq![bd::TOP_LEFT] + repeat_seq(bd::HORIZONTAL, remaining / 2) + title_str
        + repeat_seq(bd::HORIZONTAL, (remaining - remaining / 2) as nat) + seq![bd::TOP_RIGHT]
}

/// An empty row of a box: blanks between two vertical lines.
pub open spec fn box_side_spec(width: nat) -> Seq<char> {
    let inner = if width >= 2 { (width - 2) as nat } else { 0nat };
    seq![bd::VERTICAL] + spaces(inner) + seq![bd::VERTICAL]
}

/// The bottom border of a box.
pub open spec fn box_bottom_spec(width: nat) -> Seq<char> {
    let inner = if width >= 2 { (width - 2) as nat } else { 0nat };
    seq![bd::BOTTOM_LEFT] + repeat_seq(bd::HORIZONTAL, inner) + seq![bd::BOTTOM_RIGHT]
}

/// The lines of a box: the title bar, `height - 2` empty rows, and the
/// bottom border when `height > 1`.
pub open spec fn draw_box_spec(title: Seq<char>, width: nat, height: nat) -> Seq<Seq<char>> {
    let sides = if height >= 2 { (height - 2) as nat } else { 0nat };
    seq![box_top_spec(title, width)] + Seq::new(sides, |i: int| box_side_spec(width)) + (if height > 1 {
        seq![box_bottom_spec(width)]
    } else {
        Seq::empty()
    })
}

/// A panel row: `text` fitted to the inner width `inner` between two vertical lines.
pub open spec fn framed(text: Seq<char>, inner: nat) -> Seq<char> {
    seq![bd::VERTICAL] + pad_spec(text, inner) + seq![bd::VERTICAL]
}

/// The inner width of a panel `width` columns wide.
pub open spec fn inner_width(width: nat) -> nat {
    if width >= 2 { (width - 2) as nat } else { 0nat }
}

/// Appends the framed form of `text` to `out`.
pub(crate) fn push_framed(out: &mut String, text: &str, inner: usize)
    ensures
        final(out)@ == old(out)@ + framed(text@, inner as nat),
{
    out.push(bd::VERTICAL);
    push_padded(out, text, inner);
    out.push(bd::VERTICAL);
    assert(final(out)@ =~= old(out)@ + framed(text@, inner as nat));
}

/// Terminal rendering helper.
pub struct Render {
    width: usize,
    height: usize,
}

impl Render {
    /// The terminal width this renderer was made with.
    pub closed spec fn width_spec(&self) -> usize {
        self.width
    }

    /// The terminal height this renderer was made with.
    pub closed spec fn height_spec(&self) -> usize {
        self.height
    }

    /// Create a new renderer with the given terminal dimensions.
    pub fn new(width: usize, height: usize) -> (r: Self)
        ensures
            r.width_spec() == width,
            r.height_spec() == height,
    {
        Self { width, height }
    }

    /// Create a renderer with default 80x24 dimensions.
    pub fn default_size() -> (r: Self)
        ensures
            r.width_spec() == 80,
            r.height_spec() == 24,
    {
        Self::new(80, 24)
    }

    /// Get the terminal width.
    pub fn width(&self) -> (r: usize)
        ensures
            r == self.width_spec(),
    {
        self.width
    }

    /// Get the terminal height.
    pub fn height(&self) -> (r: usize)
        ensures
            r == self.height_spec(),
    {
        self.height
    }

    /// Generate a clear screen escape sequence.
    pub fn clear_screen() -> (r: String)
        ensures
            r@ == "\x1b[2J\x1b[H"@,
    {
        String::from_str("\x1b[2J\x1b[H")
    }

    /// Move cursor to position (row, col), 1-indexed.
    pub fn move_cursor(row: usize, col: usize) -> (r: String)
        ensures
            r@ == "\x1b["@ + dec(row as nat) + ";"@ + dec(col as nat) + "H"@,
    {
        let mut out = String::from_str("\x1b[");
        push_decimal(&mut out, row as u64);
        push_str(&mut out, ";");
        push_decimal(&mut out, col as u64);
        push_str(&mut out, "H");
        out
    }

    /// Hide the cursor.
    pub fn hide_cursor() -> (r: String)
        ensures
            r@ == "\x1b[?25l"@,
    {
        String::from_str("\x1b[?25l")
    }

    /// Show the cursor.
    pub fn show_cursor() -> (r: String)
        ensures
            r@ == "\x1b[?25h"@,
    {
        String::from_str("\x1b[?25h")
    }

    /// Color a string with a foreground color.
    pub fn colorize(text: &str, color: Color) -> (r: String)
        ensures
            r@ == colorize_spec(text@, color),
    {
        let mut out = String::from_str(color.fg_code());
        push_str(&mut out, text);
        push_str(&mut out, Color::Reset.fg_code());
        out
    }

    /// Draw a horizontal line of the given width using box-drawing characters.
    pub fn horizontal_line(width: usize) -> (r: String)
        ensures
            r@ == repeat_seq(bd::HORIZONTAL, width as nat),
    {
        let mut out = String::new();
        push_repeat(&mut out, bd::HORIZONTAL, width);
        assert(out@ =~= repeat_seq(bd::HORIZONTAL, width as nat));
        out
    }

    /// Draw a box with a title and the given dimensions.
    /// Returns lines ready to render.
    pub fn draw_box(title: &str, width: usize, height: usize) -> (lines: Vec<String>)
        ensures
            views(lines@) == draw_box_spec(title@, width as nat, height as nat),
            lines@.len() == if height > 1 { height as nat } else { 1nat },
    {
        let inner_width = width.saturating_sub(2);
        let mut lines: Vec<String> = Vec::new();

        // Top border with title
        proof {
            reveal_strlit(" ");
        }
        let mut title_str = String::from_str(" ");
        push_str(&mut title_str, title);
        push_str(&mut title_str, " ");
        let title_len = char_count(title_str.as_str());
        let remaining = inner_width.saturating_sub(title_len);
        let mut top = String::new();
        top.push(bd::TOP_LEFT);
        push_repeat(&mut top, bd::HORIZONTAL, remaining / 2);
        push_str(&mut top, title_str.as_str());
        push_repeat(&mut top, bd::HORIZONTAL, remaining - remaining / 2);
        top.push(bd::TOP_RIGHT);
        assert(title_str@ =~= seq![' '] + title@ + seq![' ']);
        assert(top@ =~= box_top_spec(title@, width as nat));
        lines.push(top);

        // Side borders
        let sides = height.saturating_sub(2);
        let mut k: usize = 0;
        while k < sides
            invariant
                k <= sides,
                sides == (if height >= 2 { (height - 2) as nat } else { 0nat }),
                inner_width == (if width >= 2 { (width - 2) as nat } else { 0nat }),
                views(lines@) =~= seq![box_top_spec(title@, width as nat)]
                    + Seq::new(k as nat, |i: int| box_side_spec(width as nat)),
            decreases sides - k,
        {
            let mut side = String::new();
            side.push(bd::VERTICAL);
            push_repeat(&mut side, ' ', inner_width);
            side.push(bd::VERTICAL);
            assert(side@ =~= box_side_spec(width as nat));
            let ghost before = lines@;
            lines.push(side);
            assert(views(lines@) =~= views(before).push(side@));
            k = k + 1;
            assert(views(lines@) =~= seq![box_top_spec(title@, width as nat)]
                + Seq::new(k as nat, |i: int| box_side_spec(width as nat)));
        }

        // Bottom border
        if height > 1 {
            let mut bottom = String::new();
            bottom.push(bd::BOTTOM_LEFT);
            push_repeat(&mut bottom, bd::HORIZONTAL, inner_width);
            bottom.push(bd::BOTTOM_RIGHT);
            assert(bottom@ =~= box_bottom_spec(width as nat));
            lines.push(bottom);
        }
        assert(views(lines@) =~= draw_box_spec(title@, width as nat, height as nat));
        lines
    }

    /// Center text within a given width.
    pub fn center(text: &str, width: usize) -> (r: String)
        ensures
            r@ == center_spec(text@, width as nat),
            r@.len() == if text@.len() >= width { text@.len() } else { width as nat },
    {
        let text_len = char_count(text);
        if text_len >= width {
            return String::from_str(text);
        }
        let left = (width - text_len) / 2;
        let right = width - text_len - left;
        let mut out = String::new();
        push_repeat(&mut out, ' ', left);
        push_str(&mut out, text);
        push_repeat(&mut out, ' ', right);
        assert(out@ =~= center_spec(text@, width as nat));
        out
    }

    /// Pad or truncate text to exact width.
    pub fn pad(text: &str, width: usize) -> (r: String)
        ensures
            r@ == pad_spec(text@, width as nat),
            r@.len() == width,
    {
        let mut out = String::new();
        push_padded(&mut out, text, width);
        assert(out@ =~= pad_spec(text@, width as nat));
        out
    }

    /// Reset all formatting.
    pub fn reset() -> (r: String)
        ensures
            r@ == "\x1b[0m"@,
    {
        String::from_str("\x1b[0m")
    }
}

} // verus!

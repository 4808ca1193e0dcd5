//! Character-sequence building blocks shared by every panel renderer:
//! decimal numbers, repeated characters, padding and alignment.

use vstd::prelude::*;

verus! {

/// `String::push` appends one character to the end of the string.
pub assume_specification[ String::push ](s: &mut String, ch: char)
    ensures
        final(s)@ == old(s)@.push(ch),
;

/// `n` copies of the character `c`.
pub open spec fn repeat_seq(c: char, n: nat) -> Seq<char> {
    Seq::new(n, |i: int| c)
}

/// `n` blanks.
pub open spec fn spaces(n: nat) -> Seq<char> {
    repeat_seq(' ', n)
}

/// `t` cut down to `w` characters, or filled up to `w` with blanks.
pub open spec fn pad_spec(t: Seq<char>, w: nat) -> Seq<char> {
    if t.len() >= w {
        t.take(w as int)
    } else {
        t + spaces((w - t.len()) as nat)
    }
}

/// `t` filled up on the right with blanks to at least `w` characters
/// (what a `{:<w}` format does); longer text is kept whole.
pub open spec fn left_align(t: Seq<char>, w: nat) -> Seq<char> {
    if t.len() >= w {
        t
    } else {
        t + spaces((w - t.len()) as nat)
    }
}

/// `t` filled up on the left with blanks to at least `w` characters
/// (what a `{:>w}` format does); longer text is kept whole.
pub open spec fn right_align(t: Seq<char>, w: nat) -> Seq<char> {
    if t.len() >= w {
        t
    } else {
        spaces((w - t.len()) as nat) + t
    }
}

/// `t` centered in `w` columns, the odd blank going to the right; text at
/// least `w` long is kept whole.
pub open spec fn center_spec(t: Seq<char>, w: nat) -> Seq<char> {
    if t.len() >= w {
        t
    } else {
        let left = ((w - t.len()) / 2) as nat;
        let right = (w - t.len() - left) as nat;
        spaces(left) + t + spaces(right)
    }
}

/// The ASCII digit for `d` (0..=9).
pub open spec fn digit_char(d: nat) -> char {
    if d == 0 { '0' }
    else if d == 1 { '1' }
    else if d == 2 { '2' }
    else if d == 3 { '3' }
    else if d == 4 { '4' }
    else if d == 5 { '5' }
    else if d == 6 { '6' }
    else if d == 7 { '7' }
    else if d == 8 { '8' }
    else { '9' }
}

/// The decimal representation of `n`, without leading zeros.
pub open spec fn dec(n: nat) -> Seq<char>
    decreases n,
{
    if n < 10 {
        seq![digit_char(n)]
    } else {
        dec(n / 10).push(digit_char(n % 10))
    }
}

/// The decimal representation of `n` with at least two digits (`{:02}`).
pub open spec fn dec2(n: nat) -> Seq<char> {
    if n < 10 {
        seq!['0'] + dec(n)
    } else {
        dec(n)
    }
}

/// The character views of a sequence of strings.
pub open spec fn views(v: Seq<String>) -> Seq<Seq<char>> {
    v.map_values(|s: String| s@)
}

fn digit(d: u64) -> (c: char)
    requires
        d < 10,
    ensures
        c == digit_char(d as nat),
{
    match d {
        0 => '0',
        1 => '1',
        2 => '2',
        3 => '3',
        4 => '4',
        5 => '5',
        6 => '6',
        7 => '7',
        8 => '8',
        _ => '9',
    }
}

/// Appends the decimal representation of `n` to `out`.
pub(crate) fn push_decimal(out: &mut String, n: u64)
    ensures
        final(out)@ == old(out)@ + dec(n as nat),
    decreases n,
{
    if n >= 10 {
        push_decimal(out, n / 10);
    }
    out.push(digit(n % 10));
    proof {
        if n >= 10 {
            assert(dec(n as nat) == dec((n / 10) as nat).push(digit_char((n % 10) as nat)));
        }
    }
}

/// Appends `n` with at least two digits to `out`.
pub(crate) fn push_decimal2(out: &mut String, n: u64)
    ensures
        final(out)@ == old(out)@ + dec2(n as nat),
{
    if n < 10 {
        out.push('0');
    }
    push_decimal(out, n);
}

/// Appends `n` copies of `c` to `out`.
pub(crate) fn push_repeat(out: &mut String, c: char, n: usize)
    ensures
        final(out)@ == old(out)@ + repeat_seq(c, n as nat),
{
    let ghost start = out@;
    let mut i: usize = 0;
    while i < n
        invariant
            i <= n,
            out@ == start + repeat_seq(c, i as nat),
        decreases n - i,
    {
        out.push(c);
        i = i + 1;
        assert(start + repeat_seq(c, i as nat) =~= (start + repeat_seq(c, (i - 1) as nat)).push(c));
    }
}

/// Appends `text` to `out`.
pub(crate) fn push_str(out: &mut String, text: &str)
    ensures
        final(out)@ == old(out)@ + text@,
{
    out.append(text);
}

/// Appends `text`, cut down or blank-filled to exactly `width` characters.
pub(crate) fn push_padded(out: &mut String, text: &str, width: usize)
    ensures
        final(out)@ == old(out)@ + pad_spec(text@, width as nat),
{
    let ghost start = out@;
    let mut n: usize = 0;
    let ghost mut seen: int = 0;
    for c in it: text.chars()
        invariant
            it.seq() == text@,
            seen == it.index(),
            n <= width,
            n == (if it.index() <= width { it.index() as int } else { width as int }),
            out@ == start + it.seq().take(n as int),
    {
        if n < width {
            out.push(c);
            n = n + 1;
            assert(start + it.seq().take(n as int) =~= (start + it.seq().take(n - 1)).push(c));
        }
        proof { seen = seen + 1; }
    }
    assert(seen == text@.len());
    if n < width {
        assert(text@.take(n as int) =~= text@);
        push_repeat(out, ' ', width - n);
        assert(start + text@ + spaces((width - n) as nat) =~= start + pad_spec(text@, width as nat));
    } else {
        assert(text@.take(n as int) =~= pad_spec(text@, width as nat));
    }
}

/// The number of characters in `text`.
pub(crate) fn char_count(text: &str) -> (n: usize)
    ensures
        n == text@.len(),
{
    text.unicode_len()
}

/// Appends `text`, blank-filled on the right to at least `width` characters.
pub(crate) fn push_left_aligned(out: &mut String, text: &str, width: usize)
    ensures
        final(out)@ == old(out)@ + left_align(text@, width as nat),
{
    let n = char_count(text);
    push_str(out, text);
    if n < width {
        push_repeat(out, ' ', width - n);
    }
    assert(old(out)@ + left_align(text@, width as nat) =~= final(out)@) by {
        if n < width {
            assert(old(out)@ + text@ + spaces((width - n) as nat) =~= old(out)@ + left_align(text@, width as nat));
        }
    };
}

/// Appends `text`, blank-filled on the left to at least `width` characters.
pub(crate) fn push_right_aligned(out: &mut String, text: &str, width: usize)
    ensures
        final(out)@ == old(out)@ + right_align(text@, width as nat),
{
    let n = char_count(text);
    if n < width {
        push_repeat(out, ' ', width - n);
    }
    push_str(out, text);
    assert(old(out)@ + right_align(text@, width as nat) =~= final(out)@) by {
        if n < width {
            assert(old(out)@ + spaces((width - n) as nat) + text@ =~= old(out)@ + right_align(text@, width as nat));
        }
    };
}

} // verus!

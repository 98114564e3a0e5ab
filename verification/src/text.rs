//! Where the letters of a text go: one glyph per character on a grid of
//! cells, a line break starting the next row.

use vstd::prelude::*;

verus! {

/// A letter placed on the grid, with the byte it is drawn from.
#[derive(Clone, Copy, PartialEq, Eq, Structural, Debug)]
pub struct Glyph {
    pub col: usize,
    pub row: usize,
    pub code: u8,
}

/// The byte a character is drawn from: the low eight bits of its code.
pub open spec fn char_code(c: char) -> u8 {
    ((c as u32) % 256) as u8
}

/// Where the next letter goes after the characters of `s`: `(row, col)`.
pub open spec fn cursor_after(s: Seq<char>) -> (nat, nat)
    decreases s.len(),
{
    if s.len() == 0 {
        (0, 0)
    } else {
        let (row, col) = cursor_after(s.drop_last());
        if char_code(s.last()) == 10 {
            (row + 1, 0)
        } else {
            (row, col + 1)
        }
    }
}

/// The glyphs of `s`, in order; line breaks take no glyph.
pub open spec fn glyphs_of(s: Seq<char>) -> Seq<Glyph>
    decreases s.len(),
{
    if s.len() == 0 {
        Seq::empty()
    } else {
        let (row, col) = cursor_after(s.drop_last());
        let code = char_code(s.last());
        if code == 10 {
            glyphs_of(s.drop_last())
        } else {
            glyphs_of(s.drop_last()).push(Glyph { col: col as usize, row: row as usize, code })
        }
    }
}

/// The cursor never passes the number of characters read.
proof fn lemma_cursor_bounded(s: Seq<char>)
    ensures
        cursor_after(s).0 + cursor_after(s).1 <= s.len(),
    decreases s.len(),
{
    if s.len() > 0 {
        lemma_cursor_bounded(s.drop_last());
    }
}

/// The glyphs of `text`, as they are drawn.
pub fn layout_text(text: &str) -> (r: Vec<Glyph>)
    ensures
        r@ == glyphs_of(text@),
{
    let n = text.unicode_len();
    let mut out: Vec<Glyph> = Vec::new();
    let mut row: usize = 0;
    let mut col: usize = 0;
    let mut i: usize = 0;
    while i < n
        invariant
            n == text@.len(),
            i <= n,
            out@ == glyphs_of(text@.take(i as int)),
            (row as nat, col as nat) == cursor_after(text@.take(i as int)),
        decreases n - i,
    {
        proof {
            lemma_cursor_bounded(text@.take(i as int));
        }
        assert(text@.take(i + 1).drop_last() =~= text@.take(i as int));
        let c = text.get_char(i);
        let code = ((c as u32) % 256) as u8;
        if code == 10 {
            row += 1;
            col = 0;
        } else {
            out.push(Glyph { col, row, code });
            col += 1;
        }
        i += 1;
    }
    assert(text@.take(n as int) =~= text@);
    out
}

/// A line break starts the next row at its first column; any other
/// character moves one column to the right on the same row.
pub proof fn law_line_break_moves_down(s: Seq<char>, c: char)
    ensures
        cursor_after(s.push('\n')) == (cursor_after(s).0 + 1, 0nat),
        char_code(c) != 10 ==> cursor_after(s.push(c)) == (cursor_after(s).0, cursor_after(s).1 + 1),
{
    assert(s.push('\n').drop_last() =~= s);
    assert(s.push(c).drop_last() =~= s);
}

/// The row that the text has reached is the number of line breaks in it.
pub proof fn law_row_counts_line_breaks(s: Seq<char>)
    ensures
        cursor_after(s).0 == s.filter(|c: char| char_code(c) == 10).len(),
    decreases s.len(),
{
    reveal(Seq::filter);
    if s.len() > 0 {
        law_row_counts_line_breaks(s.drop_last());
    }
}

/// A letter written after `s` is drawn where the cursor stands after `s`,
/// on the row of the line breaks before it; a line break draws nothing.
pub proof fn law_letter_at_cursor(s: Seq<char>, c: char)
    ensures
        char_code(c) != 10 ==> glyphs_of(s.push(c)) == glyphs_of(s).push(
            (Glyph {
                col: cursor_after(s).1 as usize,
                row: s.filter(|c: char| char_code(c) == 10).len() as usize,
                code: char_code(c),
            }),
        ),
        char_code(c) == 10 ==> glyphs_of(s.push(c)) == glyphs_of(s),
{
    assert(s.push(c).drop_last() =~= s);
    law_row_counts_line_breaks(s);
}

} // verus!

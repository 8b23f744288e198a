//! Drawing on the launcher's 1280x720 ARGB canvas: clipped rectangles, outlines and
//! text in the 8x8 Basic Latin font.
use vstd::prelude::*;
use vstd::arithmetic::div_mod::{lemma_fundamental_div_mod, lemma_fundamental_div_mod_converse};
use font8x8::{UnicodeFonts, BASIC_FONTS};

verus! {

pub const UI_WIDTH: usize = 1280;
pub const UI_HEIGHT: usize = 720;
pub const UI_PIXELS: usize = 921_600;

/// Opaque ARGB colour from 8-bit channels.
pub open spec fn spec_pack_rgb(r: u8, g: u8, b: u8) -> u32 {
    (0xFF00_0000u32 | ((r as u32) << 16u32) | ((g as u32) << 8u32) | (b as u32)) as u32
}

pub fn pack_rgb(r: u8, g: u8, b: u8) -> (c: u32)
    ensures
        c == spec_pack_rgb(r, g, b),
{
    0xFF00_0000 | ((r as u32) << 16u32) | ((g as u32) << 8u32) | (b as u32)
}

pub open spec fn col_of(i: int) -> int {
    i % (UI_WIDTH as int)
}

pub open spec fn row_of(i: int) -> int {
    i / (UI_WIDTH as int)
}

/// Whether canvas pixel `i` lies in the rectangle at (`x`, `y`) of size `w` x `h`.
pub open spec fn in_rect(i: int, x: i32, y: i32, w: i32, h: i32) -> bool {
    &&& w > 0
    &&& h > 0
    &&& x <= col_of(i) < x + w
    &&& y <= row_of(i) < y + h
}

/// The canvas with the rectangle filled; what lies off the canvas is dropped.
pub open spec fn spec_draw_rect(fb: Seq<u32>, x: i32, y: i32, w: i32, h: i32, color: u32) -> Seq<u32> {
    Seq::new(
        fb.len(),
        |i: int|
            if in_rect(i, x, y, w, h) {
                color
            } else {
                fb[i]
            },
    )
}

/// Canvas after painting rows `y0..py` and, on row `py`, columns `x0..px`.
pub open spec fn painted(fb: Seq<u32>, x0: int, x1: int, y0: int, py: int, px: int, color: u32) -> Seq<u32> {
    Seq::new(
        fb.len(),
        |i: int|
            if x0 <= col_of(i) < x1 && y0 <= row_of(i) && (row_of(i) < py || (row_of(i) == py && col_of(i)
                < px)) {
                color
            } else {
                fb[i]
            },
    )
}

proof fn lemma_cell(i: int)
    requires
        0 <= i < UI_PIXELS,
    ensures
        i == row_of(i) * UI_WIDTH + col_of(i),
        0 <= col_of(i) < UI_WIDTH,
        0 <= row_of(i) < UI_HEIGHT,
{
    lemma_fundamental_div_mod(i, UI_WIDTH as int);
    assert(0 <= col_of(i) < UI_WIDTH);
    assert(row_of(i) * UI_WIDTH <= i);
}

proof fn lemma_index_of_cell(py: int, px: int)
    requires
        0 <= px < UI_WIDTH,
        0 <= py,
    ensures
        row_of(py * UI_WIDTH + px) == py,
        col_of(py * UI_WIDTH + px) == px,
{
    lemma_fundamental_div_mod_converse(py * UI_WIDTH + px, UI_WIDTH as int, py, px);
}

/// Fills a rectangle, clipped to the canvas.
pub fn draw_rect(fb: &mut Vec<u32>, x: i32, y: i32, w: i32, h: i32, color: u32)
    requires
        old(fb)@.len() == UI_PIXELS,
        i32::MIN <= x + w <= i32::MAX,
        i32::MIN <= y + h <= i32::MAX,
    ensures
        final(fb)@ == spec_draw_rect(old(fb)@, x, y, w, h, color),
{
    if w <= 0 || h <= 0 {
        assert(fb@ =~= spec_draw_rect(old(fb)@, x, y, w, h, color));
        return;
    }
    let x0: usize = if x < 0 {
        0
    } else if x > UI_WIDTH as i32 {
        UI_WIDTH
    } else {
        x as usize
    };
    let y0: usize = if y < 0 {
        0
    } else if y > UI_HEIGHT as i32 {
        UI_HEIGHT
    } else {
        y as usize
    };
    let xe = x + w;
    let ye = y + h;
    let x1: usize = if xe < 0 {
        0
    } else if xe > UI_WIDTH as i32 {
        UI_WIDTH
    } else {
        xe as usize
    };
    let y1: usize = if ye < 0 {
        0
    } else if ye > UI_HEIGHT as i32 {
        UI_HEIGHT
    } else {
        ye as usize
    };
    let ghost fb0 = fb@;
    assert forall|i: int| 0 <= i < fb0.len() implies (in_rect(i, x, y, w, h) <==> (x0 <= col_of(i) < x1
        && y0 <= row_of(i) < y1)) by {
        lemma_cell(i);
    }
    if x0 >= x1 || y0 >= y1 {
        assert(fb@ =~= spec_draw_rect(fb0, x, y, w, h, color));
        return;
    }
    let mut py: usize = y0;
    assert(fb@ =~= painted(fb0, x0 as int, x1 as int, y0 as int, py as int, x0 as int, color));
    while py < y1
        invariant
            y0 <= py <= y1,
            y1 <= UI_HEIGHT,
            x0 < x1 <= UI_WIDTH,
            fb0.len() == UI_PIXELS,
            fb@ == painted(fb0, x0 as int, x1 as int, y0 as int, py as int, x0 as int, color),
        decreases y1 - py,
    {
        let row = py * UI_WIDTH;
        let mut px: usize = x0;
        while px < x1
            invariant
                y0 <= py < y1,
                y1 <= UI_HEIGHT,
                x0 <= px <= x1,
                x1 <= UI_WIDTH,
                row == py * UI_WIDTH,
                fb0.len() == UI_PIXELS,
                fb@ == painted(fb0, x0 as int, x1 as int, y0 as int, py as int, px as int, color),
            decreases x1 - px,
        {
            proof {
                lemma_index_of_cell(py as int, px as int);
            }
            fb.set(row + px, color);
            proof {
                let target = painted(fb0, x0 as int, x1 as int, y0 as int, py as int, px + 1, color);
                assert forall|i: int| 0 <= i < fb0.len() implies #[trigger] fb@[i] == target[i] by {
                    lemma_cell(i);
                }
                assert(fb@ =~= target);
            }
            px = px + 1;
        }
        proof {
            let target = painted(fb0, x0 as int, x1 as int, y0 as int, py + 1, x0 as int, color);
            assert forall|i: int| 0 <= i < fb0.len() implies #[trigger] fb@[i] == target[i] by {
                lemma_cell(i);
            }
            assert(fb@ =~= target);
        }
        py = py + 1;
    }
    proof {
        let target = spec_draw_rect(fb0, x, y, w, h, color);
        assert forall|i: int| 0 <= i < fb0.len() implies #[trigger] fb@[i] == target[i] by {
            lemma_cell(i);
        }
        assert(fb@ =~= target);
    }
}

/// The four edges of a rectangle, each `thickness` wide, drawn top, bottom, left, right.
pub open spec fn spec_outline(fb: Seq<u32>, x: i32, y: i32, w: i32, h: i32, color: u32, t: i32) -> Seq<u32> {
    let f1 = spec_draw_rect(fb, x, y, w, t, color);
    let f2 = spec_draw_rect(f1, x, (y + h - t) as i32, w, t, color);
    let f3 = spec_draw_rect(f2, x, y, t, h, color);
    spec_draw_rect(f3, (x + w - t) as i32, y, t, h, color)
}

/// Coordinates small enough that no edge computation overflows.
pub open spec fn outline_fits(x: i32, y: i32, w: i32, h: i32, t: i32) -> bool {
    &&& i32::MIN <= x + w <= i32::MAX
    &&& i32::MIN <= y + h <= i32::MAX
    &&& i32::MIN <= x + t <= i32::MAX
    &&& i32::MIN <= y + t <= i32::MAX
    &&& i32::MIN <= x + w - t <= i32::MAX
    &&& i32::MIN <= y + h - t <= i32::MAX
}

pub fn draw_outline(fb: &mut Vec<u32>, x: i32, y: i32, w: i32, h: i32, color: u32, thickness: i32)
    requires
        old(fb)@.len() == UI_PIXELS,
        outline_fits(x, y, w, h, thickness),
    ensures
        final(fb)@ == spec_outline(old(fb)@, x, y, w, h, color, thickness),
{
    draw_rect(fb, x, y, w, thickness, color);
    draw_rect(fb, x, y + h - thickness, w, thickness, color);
    draw_rect(fb, x, y, thickness, h, color);
    draw_rect(fb, x + w - thickness, y, thickness, h, color);
}

// ---------------------------------------------------------------------------
// Text
// ---------------------------------------------------------------------------

/// The 8x8 Basic Latin glyph of `ch` in font8x8 (one byte per row, bit `c` set when
/// column `c` is lit).
pub uninterp spec fn basic_font_glyph(ch: char) -> Seq<u8>;

/// Looks `ch` up in font8x8's `BASIC_FONTS` collection, which covers U+0000 to U+007F.
/// Claimed: a glyph exactly for those characters, and that glyph is
/// `basic_font_glyph(ch)`; the rows themselves are left unsaid.
#[verifier::external_body]
fn basic_glyph(ch: char) -> (r: Option<[u8; 8]>)
    ensures
        (ch as u32) < 128 <==> r is Some,
        r matches Some(g) ==> g@ == basic_font_glyph(ch),
{
    BASIC_FONTS.get(ch)
}

/// The glyph drawn for `ch`: its own, or the one of `?` for characters outside Basic
/// Latin.
pub open spec fn glyph_of(ch: char) -> Seq<u8> {
    if (ch as u32) < 128 {
        basic_font_glyph(ch)
    } else {
        basic_font_glyph('?')
    }
}

pub open spec fn glyph_bit(glyph: Seq<u8>, row: int, col: int) -> bool {
    (glyph[row] >> (col as u8)) & 1 != 0
}

/// Cells `k..64` of a glyph (row `k / 8`, column `k % 8`), each lit one a
/// `scale` x `scale` square.
pub open spec fn glyph_cells_from(fb: Seq<u32>, x: i32, y: i32, scale: i32, color: u32, glyph: Seq<u8>, k: int) -> Seq<u32>
    decreases 64 - k,
{
    if k >= 64 || k < 0 {
        fb
    } else {
        let row = k / 8;
        let col = k % 8;
        let fb1 = if glyph_bit(glyph, row, col) {
            spec_draw_rect(fb, (x + col * scale) as i32, (y + row * scale) as i32, scale, scale, color)
        } else {
            fb
        };
        glyph_cells_from(fb1, x, y, scale, color, glyph, k + 1)
    }
}

pub open spec fn spec_draw_char(fb: Seq<u32>, x: i32, y: i32, scale: i32, color: u32, ch: char) -> Seq<u32> {
    glyph_cells_from(fb, x, y, scale, color, glyph_of(ch), 0)
}

/// Positions and scales for which no text arithmetic overflows: the scale is not
/// negative and, when there is text, the cell width, the end of the text and the
/// bottom of its cells fit in 32 bits.
pub open spec fn text_fits(x: i32, y: i32, scale: i32, len: nat) -> bool {
    &&& 0 <= scale
    &&& len > 0 ==> 8 * scale <= i32::MAX && x + 8 * scale * len <= i32::MAX && y + 8 * scale <= i32::MAX
}

/// Draws one character with its top-left corner at (`x`, `y`), each font pixel a
/// `scale` x `scale` square.
pub fn draw_char(fb: &mut Vec<u32>, x: i32, y: i32, scale: i32, color: u32, ch: char)
    requires
        old(fb)@.len() == UI_PIXELS,
        text_fits(x, y, scale, 1),
    ensures
        final(fb)@ == spec_draw_char(old(fb)@, x, y, scale, color, ch),
        final(fb)@.len() == UI_PIXELS,
{
    let glyph = match basic_glyph(ch) {
        Some(g) => g,
        None => match basic_glyph('?') {
            Some(g) => g,
            None => {
                assert(false);
                return;
            },
        },
    };
    assert(glyph@ == glyph_of(ch));
    let ghost target = glyph_cells_from(fb@, x, y, scale, color, glyph@, 0);
    let mut row: usize = 0;
    while row < 8
        invariant
            row <= 8,
            fb@.len() == UI_PIXELS,
            text_fits(x, y, scale, 1),
            glyph@.len() == 8,
            glyph_cells_from(fb@, x, y, scale, color, glyph@, (row * 8) as int) == target,
        decreases 8 - row,
    {
        let bits = glyph[row];
        let mut col: usize = 0;
        while col < 8
            invariant
                row < 8,
                col <= 8,
                bits == glyph@[row as int],
                fb@.len() == UI_PIXELS,
                text_fits(x, y, scale, 1),
                glyph@.len() == 8,
                glyph_cells_from(fb@, x, y, scale, color, glyph@, (row * 8 + col) as int) == target,
            decreases 8 - col,
        {
            let k = row * 8 + col;
            assert(k / 8 == row && k % 8 == col);
            assert(0 <= col * scale <= 7 * scale && 0 <= row * scale <= 7 * scale) by (nonlinear_arith)
                requires
                    col < 8,
                    row < 8,
                    0 <= scale,
            ;
            if (bits >> (col as u8)) & 1 != 0 {
                let px = x + (col as i32) * scale;
                let py = y + (row as i32) * scale;
                draw_rect(fb, px, py, scale, scale, color);
            }
            col = col + 1;
        }
        row = row + 1;
    }
}

/// Characters `k..` of `text`, the first of them at `x`, each 8 * `scale` right of
/// the one before.
pub open spec fn chars_from(fb: Seq<u32>, x: i32, y: i32, scale: i32, color: u32, text: Seq<char>, k: int) -> Seq<u32>
    decreases text.len() - k,
{
    if k >= text.len() || k < 0 {
        fb
    } else {
        chars_from(spec_draw_char(fb, x, y, scale, color, text[k]), (x + 8 * scale) as i32, y, scale, color, text, k + 1)
    }
}

pub open spec fn spec_draw_text(fb: Seq<u32>, x: i32, y: i32, scale: i32, color: u32, text: Seq<char>) -> Seq<u32> {
    chars_from(fb, x, y, scale, color, text, 0)
}

/// Draws a line of characters from (`x`, `y`).
pub fn draw_chars(fb: &mut Vec<u32>, x: i32, y: i32, scale: i32, color: u32, text: &Vec<char>)
    requires
        old(fb)@.len() == UI_PIXELS,
        text_fits(x, y, scale, text@.len()),
    ensures
        final(fb)@ == spec_draw_text(old(fb)@, x, y, scale, color, text@),
        final(fb)@.len() == UI_PIXELS,
{
    let n = text.len();
    let ghost target = spec_draw_text(fb@, x, y, scale, color, text@);
    let mut cursor_x = x;
    let mut k: usize = 0;
    while k < n
        invariant
            k <= n,
            n == text@.len(),
            fb@.len() == UI_PIXELS,
            text_fits(x, y, scale, n as nat),
            cursor_x == x + 8 * scale * k,
            chars_from(fb@, cursor_x, y, scale, color, text@, k as int) == target,
        decreases n - k,
    {
        assert(0 <= 8 * scale * k && 8 * scale * (k + 1) <= 8 * scale * n && 8 * scale * k + 8 * scale == 8
            * scale * (k + 1) && 8 * scale * 1 == 8 * scale) by (nonlinear_arith)
            requires
                0 <= scale,
                k < n,
        ;
        draw_char(fb, cursor_x, y, scale, color, text[k]);
        cursor_x = cursor_x + 8 * scale;
        k = k + 1;
        assert(cursor_x == x + 8 * scale * k) by (nonlinear_arith)
            requires
                cursor_x == x + 8 * scale * (k - 1) + 8 * scale,
        ;
    }
}

fn chars_of(text: &str) -> (r: Vec<char>)
    ensures
        r@ == text@,
{
    let n = text.unicode_len();
    let mut out: Vec<char> = Vec::new();
    let mut k: usize = 0;
    while k < n
        invariant
            k <= n,
            n == text@.len(),
            out@ == text@.subrange(0, k as int),
        decreases n - k,
    {
        out.push(text.get_char(k));
        k = k + 1;
        assert(out@ =~= text@.subrange(0, k as int));
    }
    assert(out@ =~= text@);
    out
}

/// Draws a line of text from (`x`, `y`).
pub fn draw_text(fb: &mut Vec<u32>, x: i32, y: i32, scale: i32, color: u32, text: &str)
    requires
        old(fb)@.len() == UI_PIXELS,
        text_fits(x, y, scale, text@.len()),
    ensures
        final(fb)@ == spec_draw_text(old(fb)@, x, y, scale, color, text@),
        final(fb)@.len() == UI_PIXELS,
{
    let chars = chars_of(text);
    draw_chars(fb, x, y, scale, color, &chars);
}

// ---------------------------------------------------------------------------
// Wrapped text
// ---------------------------------------------------------------------------

/// Unicode White_Space characters (the characters `char::is_whitespace` accepts).
pub open spec fn spec_is_white_space(c: char) -> bool {
    let u = c as u32;
    ||| 0x09 <= u <= 0x0D
    ||| u == 0x20
    ||| u == 0x85
    ||| u == 0xA0
    ||| u == 0x1680
    ||| 0x2000 <= u <= 0x200A
    ||| u == 0x2028
    ||| u == 0x2029
    ||| u == 0x202F
    ||| u == 0x205F
    ||| u == 0x3000
}

pub fn is_white_space(c: char) -> (r: bool)
    ensures
        r == spec_is_white_space(c),
{
    let u = c as u32;
    (0x09 <= u && u <= 0x0D) || u == 0x20 || u == 0x85 || u == 0xA0 || u == 0x1680 || (0x2000 <= u
        && u <= 0x200A) || u == 0x2028 || u == 0x2029 || u == 0x202F || u == 0x205F || u == 0x3000
}

/// Words found in the first `n` characters, and the word still being read.
pub open spec fn words_upto(text: Seq<char>, n: int) -> (Seq<Seq<char>>, Seq<char>)
    decreases n,
{
    if n <= 0 {
        (Seq::empty(), Seq::empty())
    } else {
        let (words, cur) = words_upto(text, n - 1);
        let c = text[n - 1];
        if spec_is_white_space(c) {
            if cur.len() > 0 {
                (words.push(cur), Seq::empty())
            } else {
                (words, cur)
            }
        } else {
            (words, cur.push(c))
        }
    }
}

/// The maximal runs of non-white-space characters, in order.
pub open spec fn split_words(text: Seq<char>) -> Seq<Seq<char>> {
    let (words, cur) = words_upto(text, text.len() as int);
    if cur.len() > 0 {
        words.push(cur)
    } else {
        words
    }
}

/// Splits text into words at white space.
pub fn split_whitespace_words(text: &Vec<char>) -> (r: Vec<Vec<char>>)
    ensures
        r@.len() == split_words(text@).len(),
        forall|i: int| 0 <= i < r@.len() ==> #[trigger] r@[i]@ == split_words(text@)[i],
{
    let mut words: Vec<Vec<char>> = Vec::new();
    let mut cur: Vec<char> = Vec::new();
    let mut k: usize = 0;
    while k < text.len()
        invariant
            k <= text@.len(),
            words@.len() == words_upto(text@, k as int).0.len(),
            forall|i: int| 0 <= i < words@.len() ==> #[trigger] words@[i]@ == words_upto(text@, k as int).0[i],
            cur@ == words_upto(text@, k as int).1,
        decreases text@.len() - k,
    {
        let c = text[k];
        if is_white_space(c) {
            if cur.len() > 0 {
                let mut done: Vec<char> = Vec::new();
                std::mem::swap(&mut done, &mut cur);
                words.push(done);
            }
        } else {
            cur.push(c);
        }
        k = k + 1;
    }
    if cur.len() > 0 {
        words.push(cur);
    }
    words
}

/// Bytes of `c` in UTF-8.
pub open spec fn spec_utf8_len(c: char) -> nat {
    let u = c as u32;
    if u < 0x80 {
        1
    } else if u < 0x800 {
        2
    } else if u < 0x1_0000 {
        3
    } else {
        4
    }
}

pub open spec fn utf8_len_of(s: Seq<char>) -> nat
    decreases s.len(),
{
    if s.len() == 0 {
        0
    } else {
        utf8_len_of(s.drop_last()) + spec_utf8_len(s.last())
    }
}

fn utf8_len_exec(s: &Vec<char>) -> (r: usize)
    requires
        s@.len() <= 0x2000_0000,
    ensures
        r == utf8_len_of(s@),
        r <= 4 * s@.len(),
{
    let mut total: usize = 0;
    let mut k: usize = 0;
    while k < s.len()
        invariant
            k <= s@.len(),
            s@.len() <= 0x2000_0000,
            total == utf8_len_of(s@.subrange(0, k as int)),
            total <= 4 * k,
        decreases s@.len() - k,
    {
        let u = s[k] as u32;
        let n: usize = if u < 0x80 {
            1
        } else if u < 0x800 {
            2
        } else if u < 0x1_0000 {
            3
        } else {
            4
        };
        assert(s@.subrange(0, k + 1).drop_last() =~= s@.subrange(0, k as int));
        total = total + n;
        k = k + 1;
    }
    assert(s@.subrange(0, s@.len() as int) =~= s@);
    total
}

/// Line breaking of `words` into lines of at most `max_bytes` bytes (counting a
/// separating space): returns the finished lines, the line being filled, and whether
/// three lines are finished (the rest is dropped).
pub open spec fn wrap_from(words: Seq<Seq<char>>, max_bytes: int, k: int) -> (Seq<Seq<char>>, Seq<char>, bool)
    decreases k,
{
    if k <= 0 {
        (Seq::empty(), Seq::empty(), false)
    } else {
        let (lines, line, full) = wrap_from(words, max_bytes, k - 1);
        let w = words[k - 1];
        if full {
            (lines, line, full)
        } else if utf8_len_of(line) + utf8_len_of(w) + 1 > max_bytes {
            let lines1 = lines.push(line);
            if lines1.len() >= 3 {
                (lines1, Seq::empty(), true)
            } else {
                (lines1, w, false)
            }
        } else if line.len() == 0 {
            (lines, w, false)
        } else {
            (lines, line + seq![' '] + w, false)
        }
    }
}

proof fn lemma_wrap_full_stays(words: Seq<Seq<char>>, max_bytes: int, k: int, k2: int)
    requires
        1 <= k <= k2,
        wrap_from(words, max_bytes, k).2,
    ensures
        wrap_from(words, max_bytes, k2) == wrap_from(words, max_bytes, k),
    decreases k2 - k,
{
    if k2 > k {
        lemma_wrap_full_stays(words, max_bytes, k, k2 - 1);
    }
}

/// The lines drawn for `text` in a box `max_width` pixels wide: at most three.
pub open spec fn wrapped_lines(text: Seq<char>, max_width: i32, scale: i32) -> Seq<Seq<char>> {
    let max_chars: int = if max_width < 8 * scale {
        1
    } else {
        max_width as int / (8 * scale)
    };
    let words = split_words(text);
    let (lines, line, full) = wrap_from(words, max_chars, words.len() as int);
    if !full && line.len() > 0 {
        lines.push(line)
    } else {
        lines
    }
}

/// Lines `0..n` drawn one under the other, 10 * `scale` apart.
pub open spec fn lines_upto(fb: Seq<u32>, x: i32, y: i32, scale: i32, color: u32, lines: Seq<Seq<char>>, n: int) -> Seq<u32>
    decreases n,
{
    if n <= 0 {
        fb
    } else {
        spec_draw_text(
            lines_upto(fb, x, y, scale, color, lines, n - 1),
            x,
            (y + (n - 1) * (10 * scale)) as i32,
            scale,
            color,
            lines[n - 1],
        )
    }
}

pub open spec fn spec_draw_wrapped_text(fb: Seq<u32>, x: i32, y: i32, max_width: i32, scale: i32, color: u32, text: Seq<char>) -> Seq<u32> {
    let lines = wrapped_lines(text, max_width, scale);
    lines_upto(fb, x, y, scale, color, lines, lines.len() as int)
}

proof fn lemma_lines_upto_prefix(fb: Seq<u32>, x: i32, y: i32, scale: i32, color: u32, a: Seq<Seq<char>>, b: Seq<Seq<char>>, n: int)
    requires
        0 <= n <= a.len(),
        n <= b.len(),
        a.subrange(0, n) == b.subrange(0, n),
    ensures
        lines_upto(fb, x, y, scale, color, a, n) == lines_upto(fb, x, y, scale, color, b, n),
    decreases n,
{
    if n > 0 {
        assert(a.subrange(0, n - 1) =~= b.subrange(0, n - 1)) by {
            assert forall|i: int| 0 <= i < n - 1 implies a[i] == b[i] by {
                assert(a.subrange(0, n)[i] == b.subrange(0, n)[i]);
            }
        }
        assert(a[n - 1] == a.subrange(0, n)[n - 1]);
        assert(b[n - 1] == b.subrange(0, n)[n - 1]);
        lemma_lines_upto_prefix(fb, x, y, scale, color, a, b, n - 1);
    }
}

/// Characters needed by the words from `k` on, each with a separator.
pub open spec fn words_budget(ws: Seq<Seq<char>>, k: int) -> int
    decreases ws.len() - k,
{
    if k >= ws.len() || k < 0 {
        0
    } else {
        ws[k].len() + 1 + words_budget(ws, k + 1)
    }
}

proof fn lemma_budget_push(ws: Seq<Seq<char>>, w: Seq<char>, k: int)
    requires
        0 <= k <= ws.len(),
    ensures
        words_budget(ws.push(w), k) == words_budget(ws, k) + w.len() + 1,
    decreases ws.len() - k,
{
    if k < ws.len() {
        lemma_budget_push(ws, w, k + 1);
        assert(ws.push(w)[k] == ws[k]);
    } else {
        assert(ws.push(w)[k] == w);
        assert(words_budget(ws.push(w), k + 1) == 0);
    }
}

proof fn lemma_budget_nonneg(ws: Seq<Seq<char>>, k: int)
    ensures
        words_budget(ws, k) >= 0,
    decreases ws.len() - k,
{
    if 0 <= k < ws.len() {
        lemma_budget_nonneg(ws, k + 1);
    }
}

proof fn lemma_words_upto_budget(text: Seq<char>, n: int)
    requires
        0 <= n <= text.len(),
    ensures
        words_budget(words_upto(text, n).0, 0) + words_upto(text, n).1.len() <= n,
    decreases n,
{
    if n > 0 {
        lemma_words_upto_budget(text, n - 1);
        let (words, cur) = words_upto(text, n - 1);
        lemma_budget_push(words, cur, 0);
    }
}

proof fn lemma_split_words_budget(text: Seq<char>)
    ensures
        words_budget(split_words(text), 0) <= text.len() + 1,
{
    lemma_words_upto_budget(text, text.len() as int);
    let (words, cur) = words_upto(text, text.len() as int);
    lemma_budget_push(words, cur, 0);
}

/// Draws text word-wrapped in a box `max_width` pixels wide: a word goes on the next
/// line when it would pass the box, and at most three lines are drawn.
pub fn draw_wrapped_text(fb: &mut Vec<u32>, x: i32, y: i32, max_width: i32, scale: i32, color: u32, text: &str)
    requires
        old(fb)@.len() == UI_PIXELS,
        1 <= scale,
        28 * scale <= i32::MAX,
        x + 8 * scale * (text@.len() + 1) <= i32::MAX,
        y + 28 * scale <= i32::MAX,
    ensures
        final(fb)@ == spec_draw_wrapped_text(old(fb)@, x, y, max_width, scale, color, text@),
        final(fb)@.len() == UI_PIXELS,
{
    // At least one character per line.
    let max_chars: usize = if max_width < 8 * scale {
        1
    } else {
        assert(max_width as int / (8 * scale) >= 1) by (nonlinear_arith)
            requires
                max_width >= 8 * scale,
                8 * scale > 0,
        ;
        (max_width / (8 * scale)) as usize
    };
    let chars = chars_of(text);
    let words = split_whitespace_words(&chars);
    let ghost ws = split_words(text@);
    assert(words@.len() == ws.len());
    proof {
        lemma_split_words_budget(text@);
    }
    let ghost fb0 = fb@;
    let ghost tl = text@.len() as int;
    assert(tl < 0x2000_0000) by (nonlinear_arith)
        requires
            x + 8 * scale * (tl + 1) <= i32::MAX,
            i32::MIN <= x,
            1 <= scale,
    ;
    let mut line: Vec<char> = Vec::new();
    let mut line_no: i32 = 0;
    let mut k: usize = 0;
    while k < words.len()
        invariant
            k <= words@.len(),
            words@.len() == ws.len(),
            forall|i: int| 0 <= i < words@.len() ==> #[trigger] words@[i]@ == ws[i],
            max_chars >= 1,
            max_chars as int == (if max_width < 8 * scale {
                1
            } else {
                max_width as int / (8 * scale)
            }),
            ws == split_words(text@),
            !wrap_from(ws, max_chars as int, k as int).2,
            line@ == wrap_from(ws, max_chars as int, k as int).1,
            line_no == wrap_from(ws, max_chars as int, k as int).0.len(),
            0 <= line_no < 3,
            line@.len() + words_budget(ws, k as int) <= tl + 1,
            tl == text@.len(),
            tl < 0x2000_0000,
            fb0.len() == UI_PIXELS,
            fb0 == old(fb)@,
            1 <= scale,
            28 * scale <= i32::MAX,
            x + 8 * scale * (tl + 1) <= i32::MAX,
            y + 28 * scale <= i32::MAX,
            fb@.len() == UI_PIXELS,
            fb@ == lines_upto(fb0, x, y, scale, color, wrap_from(ws, max_chars as int, k as int).0, line_no as int),
        decreases words@.len() - k,
    {
        let ghost before = wrap_from(ws, max_chars as int, k as int);
        let w = &words[k];
        assert(w@ == ws[k as int]);
        proof {
            lemma_budget_nonneg(ws, k + 1);
            lemma_budget_nonneg(ws, k as int);
        }
        let line_bytes = utf8_len_exec(&line);
        let word_bytes = utf8_len_exec(w);
        if (line_bytes as u64) + (word_bytes as u64) + 1 > max_chars as u64 {
            assert(8 * scale * line@.len() <= 8 * scale * (tl + 1)) by (nonlinear_arith)
                requires
                    line@.len() <= tl + 1,
                    1 <= scale,
            ;
            assert(0 <= line_no * (10 * scale) <= 20 * scale) by (nonlinear_arith)
                requires
                    0 <= line_no < 3,
                    1 <= scale,
            ;
            let line_y = y + line_no * (10 * scale);
            draw_chars(fb, x, line_y, scale, color, &line);
            proof {
                let lines1 = before.0.push(line@);
                assert(before.0.subrange(0, line_no as int) =~= lines1.subrange(0, line_no as int));
                lemma_lines_upto_prefix(fb0, x, y, scale, color, before.0, lines1, line_no as int);
            }
            line_no = line_no + 1;
            if line_no >= 3 {
                proof {
                    assert(wrap_from(ws, max_chars as int, k + 1) == (before.0.push(before.1), Seq::<char>::empty(), true));
                    lemma_wrap_full_stays(ws, max_chars as int, k + 1, ws.len() as int);
                }
                return;
            }
            line = w.clone();
            assert(line@ == w@);
        } else {
            if line.len() > 0 {
                line.push(' ');
            }
            let mut j: usize = 0;
            let ghost line0 = line@;
            while j < w.len()
                invariant
                    j <= w@.len(),
                    line@ == line0 + w@.subrange(0, j as int),
                decreases w@.len() - j,
            {
                line.push(w[j]);
                j = j + 1;
                assert(line@ =~= line0 + w@.subrange(0, j as int));
            }
            assert(w@.subrange(0, w@.len() as int) =~= w@);
            assert(before.1.len() == 0 ==> line@ =~= w@);
            assert(before.1.len() != 0 ==> line@ =~= before.1 + seq![' '] + w@);
        }
        k = k + 1;
    }
    if line.len() > 0 && line_no < 3 {
        assert(8 * scale * line@.len() <= 8 * scale * (tl + 1)) by (nonlinear_arith)
            requires
                line@.len() <= tl + 1,
                1 <= scale,
        ;
        assert(0 <= line_no * (10 * scale) <= 20 * scale) by (nonlinear_arith)
            requires
                0 <= line_no < 3,
                1 <= scale,
        ;
        let line_y = y + line_no * (10 * scale);
        draw_chars(fb, x, line_y, scale, color, &line);
        proof {
            let lines0 = wrap_from(ws, max_chars as int, k as int).0;
            assert(lines0.subrange(0, line_no as int) =~= lines0.push(line@).subrange(0, line_no as int));
            lemma_lines_upto_prefix(fb0, x, y, scale, color, lines0, lines0.push(line@), line_no as int);
        }
    }
}
} // verus!

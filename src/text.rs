use crate::glyph::{FontMap, Glyph, GLYPH_COLS, GLYPH_ROWS};
use vstd::prelude::*;
use vstd::string::{StrSliceExecFns, StringExecFns};

verus! {

/// The text without leading and trailing white space.
pub uninterp spec fn trim_of(s: Seq<char>) -> Seq<char>;

/// The text in upper case.
pub uninterp spec fn upper_of(s: Seq<char>) -> Seq<char>;

/// The text in lower case.
pub uninterp spec fn lower_of(s: Seq<char>) -> Seq<char>;

/// Relies on `str::trim`: the text without leading and trailing white space,
/// which depends on the characters alone.
#[verifier::external_body]
fn trim(s: &str) -> (r: &str)
    ensures
        r@ == trim_of(s@),
{
    s.trim()
}

/// Relies on `str::to_uppercase`: the upper case of the text, which depends on
/// the characters alone.
#[verifier::external_body]
fn to_upper(s: &str) -> (r: String)
    ensures
        r@ == upper_of(s@),
{
    s.to_uppercase()
}

/// Relies on `str::to_lowercase`: the lower case of the text, which depends on
/// the characters alone.
#[verifier::external_body]
fn to_lower(s: &str) -> (r: String)
    ensures
        r@ == lower_of(s@),
{
    s.to_lowercase()
}

/// The word to paint from a line the operator typed: trimmed, in upper case.
pub fn normalize_text(input: &str) -> (r: String)
    ensures
        r@ == upper_of(trim_of(input@)),
{
    to_upper(trim(input))
}

/// Whether an answer already trimmed and in lower case says yes: it is `y`.
pub fn is_yes_folded(folded: &str) -> (r: bool)
    ensures
        r == (folded@ == seq!['y']),
{
    let n = folded.unicode_len();
    if n != 1 {
        return false;
    }
    let c = folded.get_char(0);
    if c == 'y' {
        assert(folded@ =~= seq!['y']);
        true
    } else {
        false
    }
}

/// Whether the operator answered yes: `y` in any case, with any white space
/// around it. Anything else is no.
pub fn is_yes(answer: &str) -> (r: bool)
    ensures
        r == (lower_of(trim_of(answer@)) == seq!['y']),
{
    let folded = to_lower(trim(answer));
    is_yes_folded(folded.as_str())
}

/// Character that shows an on cell in the preview.
pub open spec fn on_mark() -> char {
    '█'
}

/// Character that shows an off cell in the preview.
pub open spec fn off_mark() -> char {
    '░'
}

/// Row `row` of a glyph as preview text, one mark per column.
pub open spec fn glyph_row_text(g: Glyph, row: int) -> Seq<char> {
    Seq::new(
        GLYPH_COLS as nat,
        |c: int|
            if g.cell(row, c) {
                on_mark()
            } else {
                off_mark()
            },
    )
}

/// Row `row` of the preview of `word`: the row of each glyph followed by a
/// space; characters without a glyph show nothing.
pub open spec fn preview_line(font: Map<char, Glyph>, word: Seq<char>, row: int) -> Seq<char>
    decreases word.len(),
{
    if word.len() == 0 {
        seq![]
    } else {
        preview_line(font, word.drop_last(), row) + if font.contains_key(word.last()) {
            glyph_row_text(font[word.last()], row) + seq![' ']
        } else {
            seq![]
        }
    }
}

/// Appends row `row` of a glyph as preview text, and a space.
fn push_glyph_row(g: &Glyph, row: usize, line: &mut String)
    requires
        row < GLYPH_ROWS,
    ensures
        final(line)@ == old(line)@ + glyph_row_text(*g, row as int) + seq![' '],
{
    let mut col: usize = 0;
    while col < GLYPH_COLS
        invariant
            col <= GLYPH_COLS,
            row < GLYPH_ROWS,
            line@ == old(line)@ + glyph_row_text(*g, row as int).take(col as int),
        decreases GLYPH_COLS - col,
    {
        let ghost text = glyph_row_text(*g, row as int);
        assert(text.take(col + 1) == text.take(col as int).push(text[col as int]));
        let ghost before = line@;
        if g.is_on(row, col) {
            line.append("█");
            proof {
                reveal_strlit("█");
            }
            assert("█"@ =~= seq![on_mark()]);
        } else {
            line.append("░");
            proof {
                reveal_strlit("░");
            }
            assert("░"@ =~= seq![off_mark()]);
        }
        assert(line@ =~= before.push(text[col as int]));
        col += 1;
    }
    assert(glyph_row_text(*g, row as int).take(GLYPH_COLS as int) == glyph_row_text(
        *g,
        row as int,
    ));
    line.append(" ");
    proof {
        reveal_strlit(" ");
    }
    assert(" "@ =~= seq![' ']);
}

/// The Preview Renderer: the seven lines that show `word` as its glyphs will
/// be painted, line `row` holding row `row` of each glyph, each followed by a
/// space.
pub fn preview_lines(font: &FontMap, word: &str) -> (r: Vec<String>)
    ensures
        r@.len() == GLYPH_ROWS,
        forall|row: int| 0 <= row < GLYPH_ROWS ==> #[trigger] r@[row]@ == preview_line(font@, word@, row),
{
    let n = word.unicode_len();
    let mut lines: Vec<String> = Vec::new();
    let mut row: usize = 0;
    while row < GLYPH_ROWS
        invariant
            n == word@.len(),
            row <= GLYPH_ROWS,
            lines@.len() == row,
            forall|k: int| 0 <= k < row ==> #[trigger] lines@[k]@ == preview_line(font@, word@, k),
        decreases GLYPH_ROWS - row,
    {
        let mut line = String::new();
        let mut i: usize = 0;
        while i < n
            invariant
                n == word@.len(),
                i <= n,
                row < GLYPH_ROWS,
                line@ == preview_line(font@, word@.take(i as int), row as int),
            decreases n - i,
        {
            let c = word.get_char(i);
            let ghost prev = word@.take(i as int);
            assert(word@.take(i + 1).drop_last() == prev);
            assert(word@.take(i + 1).last() == c);
            match font.get(c) {
                Some(g) => {
                    push_glyph_row(&g, row, &mut line);
                    assert(line@ =~= preview_line(font@, word@.take(i + 1), row as int));
                },
                None => {
                    assert(line@ =~= preview_line(font@, word@.take(i + 1), row as int));
                },
            }
            i += 1;
        }
        assert(word@.take(n as int) == word@);
        lines.push(line);
        row += 1;
    }
    lines
}

} // verus!

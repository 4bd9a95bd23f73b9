use crate::glyph::{FontMap, Glyph, GLYPH_COLS, GLYPH_ROWS};
use vstd::prelude::*;
use vstd::string::StrSliceExecFns;

verus! {

/// Weeks the cursor moves past a glyph: its five columns and one blank column.
pub const GLYPH_ADVANCE: i64 = 6;

/// Commits made on each painted date.
pub const PAINTED_COMMITS: u32 = 15;

/// Days from a glyph's first cell to its last: four weeks and six days.
pub const GLYPH_SPAN_DAYS: i64 = 34;

/// Dates of the on cells in rows `0 .. rows` of column `col`, top to bottom,
/// for a glyph whose first column starts on `base`.
pub open spec fn column_dates(g: Glyph, base: int, col: int, rows: int) -> Seq<int>
    decreases rows,
{
    if rows <= 0 {
        seq![]
    } else {
        column_dates(g, base, col, rows - 1) + if g.cell(rows - 1, col) {
            seq![base + 7 * col + (rows - 1)]
        } else {
            seq![]
        }
    }
}

/// Dates of the on cells in columns `0 .. cols` of a glyph, column by column.
pub open spec fn glyph_dates(g: Glyph, base: int, cols: int) -> Seq<int>
    decreases cols,
{
    if cols <= 0 {
        seq![]
    } else {
        glyph_dates(g, base, cols - 1) + column_dates(g, base, cols - 1, GLYPH_ROWS as int)
    }
}

/// How many characters of `word` have a glyph.
pub open spec fn supported_count(font: Map<char, Glyph>, word: Seq<char>) -> int
    decreases word.len(),
{
    if word.len() == 0 {
        0
    } else {
        supported_count(font, word.drop_last()) + if font.contains_key(word.last()) {
            1int
        } else {
            0int
        }
    }
}

/// Weeks from the anchor to the first column of the glyph that follows `word`:
/// characters without a glyph take no room.
pub open spec fn week_offset(font: Map<char, Glyph>, word: Seq<char>) -> int {
    GLYPH_ADVANCE * supported_count(font, word)
}

/// Painted dates of `word`, glyph by glyph, each column by column, each column
/// top to bottom.
pub open spec fn layout_dates(font: Map<char, Glyph>, word: Seq<char>, anchor: int) -> Seq<int>
    decreases word.len(),
{
    if word.len() == 0 {
        seq![]
    } else {
        let prev = word.drop_last();
        layout_dates(font, prev, anchor) + if font.contains_key(word.last()) {
            glyph_dates(
                font[word.last()],
                anchor + 7 * week_offset(font, prev),
                GLYPH_COLS as int,
            )
        } else {
            seq![]
        }
    }
}

/// Dates paired with the painted commit count.
pub open spec fn painted(dates: Seq<int>) -> Seq<(i64, u32)> {
    dates.map_values(|d: int| (d as i64, PAINTED_COMMITS))
}

/// What the layout of `word` is: one (date, commit count) pair per on cell.
pub open spec fn layout_pairs(font: Map<char, Glyph>, word: Seq<char>, anchor: int) -> Seq<
    (i64, u32),
> {
    painted(layout_dates(font, word, anchor))
}

/// Dates of a word's cells fit in an `i64`.
pub open spec fn layout_fits(word: Seq<char>, anchor: int) -> bool {
    &&& 7 * GLYPH_ADVANCE * word.len() + GLYPH_SPAN_DAYS <= i64::MAX
    &&& anchor + 7 * GLYPH_ADVANCE * word.len() + GLYPH_SPAN_DAYS <= i64::MAX
}

/// Number of on cells in rows `0 .. rows` of column `col` of a glyph.
pub open spec fn column_on_count(g: Glyph, col: int, rows: int) -> int
    decreases rows,
{
    if rows <= 0 {
        0
    } else {
        column_on_count(g, col, rows - 1) + if g.cell(rows - 1, col) {
            1int
        } else {
            0int
        }
    }
}

/// Number of on cells in columns `0 .. cols` of a glyph.
pub open spec fn on_count(g: Glyph, cols: int) -> int
    decreases cols,
{
    if cols <= 0 {
        0
    } else {
        on_count(g, cols - 1) + column_on_count(g, cols - 1, GLYPH_ROWS as int)
    }
}

/// Number of on cells over the glyphs of a word's characters.
pub open spec fn word_on_count(font: Map<char, Glyph>, word: Seq<char>) -> int
    decreases word.len(),
{
    if word.len() == 0 {
        0
    } else {
        word_on_count(font, word.drop_last()) + if font.contains_key(word.last()) {
            on_count(font[word.last()], GLYPH_COLS as int)
        } else {
            0int
        }
    }
}

/// A column yields one date for each of its on cells.
proof fn lemma_column_dates_len(g: Glyph, base: int, col: int, rows: int)
    ensures
        column_dates(g, base, col, rows).len() == column_on_count(g, col, rows),
    decreases rows,
{
    if rows > 0 {
        lemma_column_dates_len(g, base, col, rows - 1);
    }
}

/// A glyph yields one date for each of its on cells.
proof fn lemma_glyph_dates_len(g: Glyph, base: int, cols: int)
    ensures
        glyph_dates(g, base, cols).len() == on_count(g, cols),
    decreases cols,
{
    if cols > 0 {
        lemma_glyph_dates_len(g, base, cols - 1);
        lemma_column_dates_len(g, base, cols - 1, GLYPH_ROWS as int);
    }
}

/// The layout of a word has exactly as many pairs as its glyphs have on cells,
/// characters without a glyph adding none.
pub proof fn lemma_layout_len(font: Map<char, Glyph>, word: Seq<char>, anchor: int)
    ensures
        layout_pairs(font, word, anchor).len() == word_on_count(font, word),
    decreases word.len(),
{
    if word.len() > 0 {
        lemma_layout_len(font, word.drop_last(), anchor);
        if font.contains_key(word.last()) {
            lemma_glyph_dates_len(
                font[word.last()],
                anchor + 7 * week_offset(font, word.drop_last()),
                GLYPH_COLS as int,
            );
        }
    }
}

/// The layout depends on the table, the word and the anchor alone: two
/// results that meet `layout`'s contract for the same inputs are the same
/// sequence.
pub proof fn lemma_layout_deterministic(
    font: Map<char, Glyph>,
    word: Seq<char>,
    anchor: int,
    first: Seq<(i64, u32)>,
    second: Seq<(i64, u32)>,
)
    requires
        first == layout_pairs(font, word, anchor),
        second == layout_pairs(font, word, anchor),
    ensures
        first == second,
{
}

/// A character without a glyph adds no pair and moves no later glyph.
pub proof fn lemma_unsupported_adds_nothing(
    font: Map<char, Glyph>,
    word: Seq<char>,
    c: char,
    anchor: int,
)
    requires
        !font.contains_key(c),
    ensures
        layout_pairs(font, word.push(c), anchor) == layout_pairs(font, word, anchor),
        week_offset(font, word.push(c)) == week_offset(font, word),
{
    assert(word.push(c).drop_last() == word);
    assert(layout_dates(font, word.push(c), anchor) =~= layout_dates(font, word, anchor));
}

/// Appends the painted pairs of a glyph whose first column starts on `base`.
fn push_glyph(g: &Glyph, base: i64, out: &mut Vec<(i64, u32)>)
    requires
        base + GLYPH_SPAN_DAYS <= i64::MAX,
    ensures
        final(out)@ == old(out)@ + painted(glyph_dates(*g, base as int, GLYPH_COLS as int)),
{
    let mut col: usize = 0;
    while col < GLYPH_COLS
        invariant
            col <= GLYPH_COLS,
            base + GLYPH_SPAN_DAYS <= i64::MAX,
            out@ == old(out)@ + painted(glyph_dates(*g, base as int, col as int)),
        decreases GLYPH_COLS - col,
    {
        let ghost before = out@;
        let mut row: usize = 0;
        while row < GLYPH_ROWS
            invariant
                row <= GLYPH_ROWS,
                col < GLYPH_COLS,
                base + GLYPH_SPAN_DAYS <= i64::MAX,
                before == old(out)@ + painted(glyph_dates(*g, base as int, col as int)),
                out@ == before + painted(column_dates(*g, base as int, col as int, row as int)),
            decreases GLYPH_ROWS - row,
        {
            let ghost prev = column_dates(*g, base as int, col as int, row as int);
            if g.is_on(row, col) {
                let d: i64 = base + 7 * (col as i64) + row as i64;
                out.push((d, PAINTED_COMMITS));
                assert(painted(prev + seq![d as int]) =~= painted(prev) + seq![
                    (d, PAINTED_COMMITS),
                ]);
            } else {
                assert(prev + seq![] =~= prev);
            }
            row += 1;
        }
        let ghost whole = glyph_dates(*g, base as int, col as int);
        let ghost column = column_dates(*g, base as int, col as int, GLYPH_ROWS as int);
        assert(painted(whole + column) =~= painted(whole) + painted(column));
        col += 1;
    }
}

/// The Layout Engine: one (date, commit count) pair for each on cell of each
/// glyph of `word`, the glyph after `k` glyphs starting `GLYPH_ADVANCE * k`
/// weeks after `anchor`, a cell in column `col` and row `row` of its glyph
/// falling `col` weeks and `row` days after that. Characters without a glyph
/// are skipped.
pub fn layout(font: &FontMap, word: &str, anchor: i64) -> (r: Vec<(i64, u32)>)
    requires
        layout_fits(word@, anchor as int),
    ensures
        r@ == layout_pairs(font@, word@, anchor as int),
{
    let n = word.unicode_len();
    let mut out: Vec<(i64, u32)> = Vec::new();
    let mut offset: i64 = 0;
    let mut i: usize = 0;
    while i < n
        invariant
            n == word@.len(),
            i <= n,
            layout_fits(word@, anchor as int),
            0 <= supported_count(font@, word@.take(i as int)) <= i,
            offset == week_offset(font@, word@.take(i as int)),
            out@ == layout_pairs(font@, word@.take(i as int), anchor as int),
        decreases n - i,
    {
        let c = word.get_char(i);
        let ghost prev = word@.take(i as int);
        assert(word@.take(i + 1).drop_last() == prev);
        assert(word@.take(i + 1).last() == c);
        match font.get(c) {
            Some(g) => {
                let ghost count = supported_count(font@, prev);
                assert(0 <= 7 * offset <= 42 * n - 42) by (nonlinear_arith)
                    requires
                        offset == 6 * count,
                        0 <= count <= i,
                        i < n,
                ;
                let base: i64 = anchor + 7 * offset;
                let ghost head = layout_dates(font@, prev, anchor as int);
                let ghost tail = glyph_dates(g, base as int, GLYPH_COLS as int);
                push_glyph(&g, base, &mut out);
                assert(painted(head + tail) =~= painted(head) + painted(tail));
                offset = offset + GLYPH_ADVANCE;
            },
            None => {
                let ghost head = layout_dates(font@, prev, anchor as int);
                assert(head + seq![] =~= head);
            },
        }
        i += 1;
    }
    assert(word@.take(n as int) == word@);
    out
}

} // verus!

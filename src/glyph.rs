use vstd::prelude::*;

verus! {

/// Number of cell rows in a glyph: one per weekday.
pub const GLYPH_ROWS: usize = 7;

/// Number of cell columns in a glyph: one per week.
pub const GLYPH_COLS: usize = 5;

/// Every glyph bitmap fits below this bound (`GLYPH_ROWS * GLYPH_COLS` bits).
pub const GLYPH_BITS_BOUND: u64 = 0x8_0000_0000;

// Glyph bitmaps, read row by row from the top, five bits per row, the
// leftmost column in the highest bit of its row.
pub const GLYPH_A: u64 = 0b01110_10001_10001_11111_10001_10001_10001;
pub const GLYPH_B: u64 = 0b11110_10001_10001_11110_10001_10001_11110;
pub const GLYPH_C: u64 = 0b01111_10000_10000_10000_10000_10000_01111;
pub const GLYPH_D: u64 = 0b11100_10010_10001_10001_10001_10010_11100;
pub const GLYPH_E: u64 = 0b11111_10000_10000_11110_10000_10000_11111;
pub const GLYPH_F: u64 = 0b11111_10000_10000_11110_10000_10000_10000;
pub const GLYPH_G: u64 = 0b01111_10000_10000_10111_10001_10001_01110;
pub const GLYPH_H: u64 = 0b10001_10001_10001_11111_10001_10001_10001;
pub const GLYPH_I: u64 = 0b01110_00100_00100_00100_00100_00100_01110;
pub const GLYPH_J: u64 = 0b00111_00010_00010_00010_00010_10010_01100;
pub const GLYPH_K: u64 = 0b10001_10010_10100_11000_10100_10010_10001;
pub const GLYPH_L: u64 = 0b10000_10000_10000_10000_10000_10000_11111;
pub const GLYPH_M: u64 = 0b10001_11011_10101_10001_10001_10001_10001;
pub const GLYPH_N: u64 = 0b10001_11001_10101_10011_10001_10001_10001;
pub const GLYPH_O: u64 = 0b01110_10001_10001_10001_10001_10001_01110;
pub const GLYPH_P: u64 = 0b11110_10001_10001_11110_10000_10000_10000;
pub const GLYPH_Q: u64 = 0b01110_10001_10001_10001_10101_10010_01101;
pub const GLYPH_R: u64 = 0b11110_10001_10001_11110_10100_10010_10001;
pub const GLYPH_S: u64 = 0b01111_10000_01110_00001_00001_00001_11110;
pub const GLYPH_T: u64 = 0b11111_00100_00100_00100_00100_00100_00100;
pub const GLYPH_U: u64 = 0b10001_10001_10001_10001_10001_10001_01110;
pub const GLYPH_V: u64 = 0b10001_10001_10001_10001_10001_01010_00100;
pub const GLYPH_W: u64 = 0b10001_10001_10001_10101_10101_11011_10001;
pub const GLYPH_X: u64 = 0b10001_10001_01010_00100_01010_10001_10001;
pub const GLYPH_Y: u64 = 0b10001_10001_01010_00100_00100_00100_00100;
pub const GLYPH_Z: u64 = 0b11111_00001_00010_00100_01000_10000_11111;
pub const GLYPH_SPACE: u64 = 0b00000_00000_00000_00000_00000_00000_00000;

/// A 7-row by 5-column bitmap of on/off cells.
#[derive(Clone, Copy, Debug, PartialEq, Eq, Structural)]
pub struct Glyph {
    pub bits: u64,
}

impl Glyph {
    /// No bit is set outside the 7 x 5 grid.
    pub open spec fn wf(self) -> bool {
        self.bits < GLYPH_BITS_BOUND
    }

    /// Whether the cell at `row`, `col` is on.
    pub open spec fn cell(self, row: int, col: int) -> bool {
        (self.bits >> ((34 - (5 * row + col)) as u64)) & 1 == 1
    }

    /// The bitmap as rows of cells.
    pub open spec fn rows(self) -> Seq<Seq<bool>> {
        Seq::new(GLYPH_ROWS as nat, |r: int| Seq::new(GLYPH_COLS as nat, |c: int| self.cell(r, c)))
    }

    /// Whether the cell at `row`, `col` is on.
    pub fn is_on(&self, row: usize, col: usize) -> (r: bool)
        requires
            row < GLYPH_ROWS,
            col < GLYPH_COLS,
        ensures
            r == self.cell(row as int, col as int),
    {
        let shift: u64 = (34 - (5 * row + col)) as u64;
        (self.bits >> shift) & 1 == 1
    }
}

/// The characters that have a glyph: `A` to `Z` and the space.
pub open spec fn is_supported(c: char) -> bool {
    ('A' <= c && c <= 'Z') || c == ' '
}

/// The glyph table as a map.
pub open spec fn font_spec() -> Map<char, Glyph> {
    map![
        'A' => Glyph { bits: GLYPH_A },
        'B' => Glyph { bits: GLYPH_B },
        'C' => Glyph { bits: GLYPH_C },
        'D' => Glyph { bits: GLYPH_D },
        'E' => Glyph { bits: GLYPH_E },
        'F' => Glyph { bits: GLYPH_F },
        'G' => Glyph { bits: GLYPH_G },
        'H' => Glyph { bits: GLYPH_H },
        'I' => Glyph { bits: GLYPH_I },
        'J' => Glyph { bits: GLYPH_J },
        'K' => Glyph { bits: GLYPH_K },
        'L' => Glyph { bits: GLYPH_L },
        'M' => Glyph { bits: GLYPH_M },
        'N' => Glyph { bits: GLYPH_N },
        'O' => Glyph { bits: GLYPH_O },
        'P' => Glyph { bits: GLYPH_P },
        'Q' => Glyph { bits: GLYPH_Q },
        'R' => Glyph { bits: GLYPH_R },
        'S' => Glyph { bits: GLYPH_S },
        'T' => Glyph { bits: GLYPH_T },
        'U' => Glyph { bits: GLYPH_U },
        'V' => Glyph { bits: GLYPH_V },
        'W' => Glyph { bits: GLYPH_W },
        'X' => Glyph { bits: GLYPH_X },
        'Y' => Glyph { bits: GLYPH_Y },
        'Z' => Glyph { bits: GLYPH_Z },
        ' ' => Glyph { bits: GLYPH_SPACE },
    ]
}

/// Exactly `A` to `Z` and the space have a glyph, and every glyph of the
/// table is a 7 x 5 grid: seven rows of five cells, no bit set outside them.
pub proof fn lemma_font_glyphs_are_seven_by_five(c: char)
    ensures
        font_spec().contains_key(c) <==> is_supported(c),
        font_spec().contains_key(c) ==> {
            let g = font_spec()[c];
            &&& g.wf()
            &&& g.rows().len() == GLYPH_ROWS
            &&& forall|r: int| 0 <= r < GLYPH_ROWS ==> #[trigger] g.rows()[r].len() == GLYPH_COLS
        },
{
}

/// The map that a sequence of insertions leaves, later entries overriding
/// earlier ones.
pub open spec fn entries_map(s: Seq<(char, Glyph)>) -> Map<char, Glyph>
    decreases s.len(),
{
    if s.len() == 0 {
        Map::empty()
    } else {
        entries_map(s.drop_last()).insert(s.last().0, s.last().1)
    }
}

/// A lookup table from characters to glyphs.
pub struct FontMap {
    entries: Vec<(char, Glyph)>,
}

impl View for FontMap {
    type V = Map<char, Glyph>;

    closed spec fn view(&self) -> Map<char, Glyph> {
        entries_map(self.entries@)
    }
}

impl FontMap {
    /// An empty table.
    pub fn new() -> (r: FontMap)
        ensures
            r@ == Map::<char, Glyph>::empty(),
    {
        FontMap { entries: Vec::new() }
    }

    /// Maps `c` to `g`, replacing any glyph it had.
    pub fn insert(&mut self, c: char, g: Glyph)
        ensures
            final(self)@ == old(self)@.insert(c, g),
    {
        self.entries.push((c, g));
        assert(self.entries@.drop_last() == old(self).entries@);
    }

    /// The glyph of `c`, if it has one.
    pub fn get(&self, c: char) -> (r: Option<Glyph>)
        ensures
            r == (if self@.contains_key(c) {
                Some(self@[c])
            } else {
                None
            }),
    {
        let ghost s = self.entries@;
        let mut i: usize = self.entries.len();
        assert(s.take(i as int) == s);
        while i > 0
            invariant
                i <= s.len(),
                s == self.entries@,
                entries_map(s).contains_key(c) == entries_map(s.take(i as int)).contains_key(c),
                entries_map(s).contains_key(c) ==> entries_map(s)[c] == entries_map(
                    s.take(i as int),
                )[c],
            decreases i,
        {
            assert(s.take(i as int).drop_last() == s.take(i - 1));
            i -= 1;
            if self.entries[i].0 == c {
                return Some(self.entries[i].1);
            }
        }
        None
    }
}

/// Builds the glyph table.
pub fn get_font_map() -> (r: FontMap)
    ensures
        r@ == font_spec(),
{
    let mut f = FontMap::new();
    f.insert('A', Glyph { bits: GLYPH_A });
    f.insert('B', Glyph { bits: GLYPH_B });
    f.insert('C', Glyph { bits: GLYPH_C });
    f.insert('D', Glyph { bits: GLYPH_D });
    f.insert('E', Glyph { bits: GLYPH_E });
    f.insert('F', Glyph { bits: GLYPH_F });
    f.insert('G', Glyph { bits: GLYPH_G });
    f.insert('H', Glyph { bits: GLYPH_H });
    f.insert('I', Glyph { bits: GLYPH_I });
    f.insert('J', Glyph { bits: GLYPH_J });
    f.insert('K', Glyph { bits: GLYPH_K });
    f.insert('L', Glyph { bits: GLYPH_L });
    f.insert('M', Glyph { bits: GLYPH_M });
    f.insert('N', Glyph { bits: GLYPH_N });
    f.insert('O', Glyph { bits: GLYPH_O });
    f.insert('P', Glyph { bits: GLYPH_P });
    f.insert('Q', Glyph { bits: GLYPH_Q });
    f.insert('R', Glyph { bits: GLYPH_R });
    f.insert('S', Glyph { bits: GLYPH_S });
    f.insert('T', Glyph { bits: GLYPH_T });
    f.insert('U', Glyph { bits: GLYPH_U });
    f.insert('V', Glyph { bits: GLYPH_V });
    f.insert('W', Glyph { bits: GLYPH_W });
    f.insert('X', Glyph { bits: GLYPH_X });
    f.insert('Y', Glyph { bits: GLYPH_Y });
    f.insert('Z', Glyph { bits: GLYPH_Z });
    f.insert(' ', Glyph { bits: GLYPH_SPACE });
    f
}

} // verus!

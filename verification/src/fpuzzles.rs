//! Records of the f-puzzles puzzle file format, and the URL shapes the
//! site uses. The records are plain data; reading and writing them in a
//! serialized form is a front-end concern.

use vstd::prelude::*;

use crate::numeric::int_chars;
use crate::numeric::i32_to_string;
use crate::numeric::parse_i32;
use crate::numeric::parse_i32_spec;
use crate::serialization::StrOrInt;
use crate::text::find_char_from;
use crate::text::lemma_find_char_first;

verus! {

/// A cell position, written `R<row>C<column>` in the file format.
#[derive(Debug, PartialEq, Eq, Structural, Clone, Copy)]
pub struct CellPos {
    pub row: i8,
    pub column: i8,
}

/// What a cell string denotes: `R`, a signed row number, `C`, a signed
/// column number, nothing else, with both numbers within the row type's
/// range. The row part runs up to the first `C`, and a leading `+`, which
/// plain number parsing would take, is not part of the grammar.
pub open spec fn cell_pos_spec(s: Seq<char>) -> Option<CellPos> {
    if s.len() == 0 || s[0] != 'R' {
        None
    } else {
        match find_char_from(s, 1, 'C') {
            None => None,
            Some(ci) => {
                let row_part = s.subrange(1, ci);
                let col_part = s.subrange(ci + 1, s.len() as int);
                if row_part.len() > 0 && row_part[0] == '+' || col_part.len() > 0 && col_part[0]
                    == '+' {
                    None
                } else {
                    match (parse_i32_spec(row_part), parse_i32_spec(col_part)) {
                        (Some(row), Some(column)) => if -128 <= row <= 127 && -128 <= column
                            <= 127 {
                            Some(CellPos { row: row as i8, column: column as i8 })
                        } else {
                            None
                        },
                        _ => None,
                    }
                }
            },
        }
    }
}

impl CellPos {
    /// Reads a cell string, per [`cell_pos_spec`].
    #[verifier::loop_isolation(false)]
    pub fn parse(s: &str) -> (r: Option<CellPos>)
        ensures
            r == cell_pos_spec(s@),
    {
        let n = s.unicode_len();
        if n == 0 || s.get_char(0) != 'R' {
            return None;
        }
        let mut ci: usize = 1;
        while ci < n && s.get_char(ci) != 'C'
            invariant
                1 <= ci <= n,
                find_char_from(s@, 1, 'C') == find_char_from(s@, ci as int, 'C'),
            decreases n - ci,
        {
            ci = ci + 1;
        }
        if ci >= n {
            return None;
        }
        let row_str = s.substring_char(1, ci);
        let col_str = s.substring_char(ci + 1, n);
        if row_str.unicode_len() > 0 && row_str.get_char(0) == '+' {
            return None;
        }
        if col_str.unicode_len() > 0 && col_str.get_char(0) == '+' {
            return None;
        }
        match (parse_i32(row_str), parse_i32(col_str)) {
            (Some(row), Some(column)) => {
                if -128 <= row && row <= 127 && -128 <= column && column <= 127 {
                    Some(CellPos { row: row as i8, column: column as i8 })
                } else {
                    None
                }
            },
            _ => None,
        }
    }

    /// Writes the cell string `R<row>C<column>`.
    pub fn cell_string(&self) -> (r: String)
        ensures
            r@ == seq!['R'] + int_chars(self.row as int) + seq!['C'] + int_chars(
                self.column as int,
            ),
    {
        let mut out = String::from_str("R");
        let row_text = i32_to_string(self.row as i32);
        out.append(row_text.as_str());
        out.append("C");
        let column_text = i32_to_string(self.column as i32);
        out.append(column_text.as_str());
        proof {
            reveal_strlit("R");
            reveal_strlit("C");
            assert(out@ =~= seq!['R'] + int_chars(self.row as int) + seq!['C'] + int_chars(
                self.column as int,
            ));
        }
        out
    }
}

/// A written cell reads back to itself: the cell string of every position
/// parses to exactly that position.
pub proof fn lemma_cell_string_round_trip(p: CellPos)
    ensures
        cell_pos_spec(
            seq!['R'] + int_chars(p.row as int) + seq!['C'] + int_chars(p.column as int),
        ) == Some(p),
{
    let row_chars = int_chars(p.row as int);
    let col_chars = int_chars(p.column as int);
    let s = seq!['R'] + row_chars + seq!['C'] + col_chars;
    crate::numeric::lemma_int_chars_shape(p.row as int);
    crate::numeric::lemma_int_chars_shape(p.column as int);
    assert(s[0] == 'R');
    let ci = 1 + row_chars.len() as int;
    assert(s[ci] == 'C');
    assert forall|k: int| 1 <= k < ci implies s[k] != 'C' by {
        assert(s[k] == row_chars[k - 1]);
        assert(row_chars[k - 1] == '-' || crate::numeric::dec_digit(row_chars[k - 1]));
    }
    lemma_find_char_first(s, 1, 'C', ci);
    assert(s.subrange(1, ci) =~= row_chars);
    assert(s.subrange(ci + 1, s.len() as int) =~= col_chars);
    crate::numeric::lemma_int_chars_round_trip(p.row as int);
    crate::numeric::lemma_int_chars_round_trip(p.column as int);
}

/// A diagonal direction of an arrow-style constraint.
#[derive(Debug, PartialEq, Eq, Structural, Clone, Copy)]
pub enum Direction {
    DownRight,
    DownLeft,
    UpRight,
    UpLeft,
}

/// The fixed palette of cell highlight colors.
#[derive(Debug, PartialEq, Eq, Structural, Clone, Copy, Default)]
pub enum HighlightColor {
    #[default]
    White,
    Gray,
    Black,
    Red,
    Yellow,
    LightYellow,
    LightGreen,
    Green,
    LightBlue,
    Bleue,
    Lavender,
    LightRed,
}

impl HighlightColor {
    /// The palette index of each color, in palette order.
    pub open spec fn spec_code(self) -> u8 {
        match self {
            HighlightColor::White => 0,
            HighlightColor::Gray => 1,
            HighlightColor::Black => 2,
            HighlightColor::Red => 3,
            HighlightColor::Yellow => 4,
            HighlightColor::LightYellow => 5,
            HighlightColor::LightGreen => 6,
            HighlightColor::Green => 7,
            HighlightColor::LightBlue => 8,
            HighlightColor::Bleue => 9,
            HighlightColor::Lavender => 10,
            HighlightColor::LightRed => 11,
        }
    }

    /// The color's palette index.
    pub fn code(&self) -> (r: u8)
        ensures
            r == self.spec_code(),
    {
        match self {
            HighlightColor::White => 0,
            HighlightColor::Gray => 1,
            HighlightColor::Black => 2,
            HighlightColor::Red => 3,
            HighlightColor::Yellow => 4,
            HighlightColor::LightYellow => 5,
            HighlightColor::LightGreen => 6,
            HighlightColor::Green => 7,
            HighlightColor::LightBlue => 8,
            HighlightColor::Bleue => 9,
            HighlightColor::Lavender => 10,
            HighlightColor::LightRed => 11,
        }
    }

    /// The color of a palette index: exactly the indices up to 11 name a
    /// color, and each color round-trips through its index.
    pub fn try_from_code(code: u8) -> (r: Option<HighlightColor>)
        ensures
            match r {
                Some(c) => c.spec_code() == code,
                None => code > 11,
            },
    {
        match code {
            0 => Some(HighlightColor::White),
            1 => Some(HighlightColor::Gray),
            2 => Some(HighlightColor::Black),
            3 => Some(HighlightColor::Red),
            4 => Some(HighlightColor::Yellow),
            5 => Some(HighlightColor::LightYellow),
            6 => Some(HighlightColor::LightGreen),
            7 => Some(HighlightColor::Green),
            8 => Some(HighlightColor::LightBlue),
            9 => Some(HighlightColor::Bleue),
            10 => Some(HighlightColor::Lavender),
            11 => Some(HighlightColor::LightRed),
            _ => None,
        }
    }
}

/// One of the two constraint families that carry a negative flag.
#[derive(Debug, PartialEq, Eq, Structural, Clone, Copy)]
pub enum NegativeFlag {
    Ratio,
    XV,
}

/// Which negative constraints are active. The file format writes this as
/// a list of flags; the record keeps one boolean per flag.
#[derive(Debug, Default, PartialEq, Eq, Structural, Clone, Copy)]
pub struct Negative {
    pub ratio: bool,
    pub xv: bool,
}

/// The record a list of flags denotes: each boolean says whether its flag
/// occurs in the list, however often and in whatever order.
pub open spec fn negative_of_flags(flags: Seq<NegativeFlag>) -> Negative {
    Negative { ratio: flags.contains(NegativeFlag::Ratio), xv: flags.contains(NegativeFlag::XV) }
}

/// The canonical flag list of a record: `Ratio` before `XV`, each at most
/// once.
pub open spec fn flags_of_negative(n: Negative) -> Seq<NegativeFlag> {
    if n.ratio && n.xv {
        seq![NegativeFlag::Ratio, NegativeFlag::XV]
    } else if n.ratio {
        seq![NegativeFlag::Ratio]
    } else if n.xv {
        seq![NegativeFlag::XV]
    } else {
        Seq::empty()
    }
}

/// A record survives the trip to its canonical flag list and back.
pub proof fn lemma_negative_flags_round_trip(n: Negative)
    ensures
        negative_of_flags(flags_of_negative(n)) == n,
{
    let flags = flags_of_negative(n);
    if n.ratio {
        assert(flags[0] == NegativeFlag::Ratio);
        assert(flags.contains(NegativeFlag::Ratio));
    }
    if n.xv {
        assert(flags.last() == NegativeFlag::XV);
        assert(flags.contains(NegativeFlag::XV));
    }
    if !n.ratio {
        assert(forall|i: int| 0 <= i < flags.len() ==> flags[i] != NegativeFlag::Ratio);
    }
    if !n.xv {
        assert(forall|i: int| 0 <= i < flags.len() ==> flags[i] != NegativeFlag::XV);
    }
}

impl Negative {
    /// Reads a flag list into a record, per [`negative_of_flags`].
    pub fn from_flags(flags: &[NegativeFlag]) -> (r: Negative)
        ensures
            r == negative_of_flags(flags@),
    {
        let mut ratio = false;
        let mut xv = false;
        let mut i: usize = 0;
        while i < flags.len()
            invariant
                i <= flags@.len(),
                ratio == flags@.take(i as int).contains(NegativeFlag::Ratio),
                xv == flags@.take(i as int).contains(NegativeFlag::XV),
            decreases flags@.len() - i,
        {
            proof {
                broadcast use vstd::seq_lib::lemma_seq_contains_after_push;

                assert(flags@.take(i + 1) =~= flags@.take(i as int).push(flags@[i as int]));
            }
            match flags[i] {
                NegativeFlag::Ratio => {
                    ratio = true;
                },
                NegativeFlag::XV => {
                    xv = true;
                },
            }
            i = i + 1;
        }
        proof {
            assert(flags@.take(flags@.len() as int) =~= flags@);
        }
        Negative { ratio, xv }
    }

    /// Writes the record as its canonical flag list, per
    /// [`flags_of_negative`].
    pub fn flags(&self) -> (r: Vec<NegativeFlag>)
        ensures
            r@ == flags_of_negative(*self),
    {
        let mut out: Vec<NegativeFlag> = Vec::new();
        if self.ratio {
            out.push(NegativeFlag::Ratio);
        }
        if self.xv {
            out.push(NegativeFlag::XV);
        }
        proof {
            assert(out@ =~= flags_of_negative(*self));
        }
        out
    }
}

/// A constraint instance: which of the fields are filled depends on the
/// constraint family it belongs to.
#[derive(Debug, PartialEq, Eq, Clone)]
pub struct Constraint {
    pub lines: Vec<Vec<CellPos>>,
    pub cell: Option<CellPos>,
    pub cells: Vec<CellPos>,
    pub clone_cells: Vec<CellPos>,
    pub direction: Option<Direction>,
    pub value: Option<String>,
    pub values: Vec<StrOrInt>,
}

/// A group of cells with an optional value, as killer cages use.
#[derive(Debug, PartialEq, Eq, Clone)]
pub struct CellCollectionWithValue {
    pub cells: Vec<CellPos>,
    pub value: Option<String>,
}

/// A constraint on a single cell.
#[derive(Debug, PartialEq, Eq, Structural, Clone, Copy)]
pub struct SingleCell {
    pub cell: CellPos,
}

/// The two URL shapes of the f-puzzles site.
pub enum FPuzzlesURL {
    /// The full payload is embedded in the URL.
    Normal(String),
    /// A short id that a redirect service expands.
    Shortened(String),
}

/// The URL shapes of the sudokupad site.
pub enum SudokuPadUrl {
    /// A full id in the scl encoding.
    Scl(String),
    /// A full id in the f-puzzles encoding.
    FPuz(String),
    /// A short id that the site's lookup endpoint expands.
    Shortened(String),
}

impl SudokuPadUrl {
    /// A coarse split of a full id by its length: long ids are full scl
    /// payloads, short ones need a lookup. The id itself is not kept.
    pub fn from_full_id(full_id: &str) -> (r: Self)
        ensures
            full_id@.len() > 20 ==> (r matches SudokuPadUrl::Scl(s) && s@.len() == 0),
            full_id@.len() <= 20 ==> (r matches SudokuPadUrl::Shortened(s) && s@.len() == 0),
    {
        if full_id.unicode_len() > 20 {
            SudokuPadUrl::Scl(String::new())
        } else {
            SudokuPadUrl::Shortened(String::new())
        }
    }
}

/// A puzzle URL of any supported site.
pub enum PuzzleUrl {
    SudokuPad(SudokuPadUrl),
    FPuzzles(FPuzzlesURL),
    SudokuMakerURL(String),
}

} // verus!

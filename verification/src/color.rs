//! Cell colors and their one-letter wire tokens.

use crate::error::MmsError;
use vstd::prelude::*;
use vstd::string::*;

verus! {

/// A color that a cell can be painted in. The dark colors are written
/// with the upper-case letter of their light counterpart.
#[derive(Clone, Copy, Debug, PartialEq, Eq, Structural)]
pub enum CellColor {
    Black,
    Blue,
    Gray,
    Cyan,
    Green,
    Orange,
    Red,
    White,
    Yellow,
    DarkBlue,
    DarkCyan,
    DarkGray,
    DarkGreen,
    DarkRed,
    DarkYellow,
}

impl CellColor {
    /// The letter that stands for this color on the wire.
    pub open spec fn token(self) -> char {
        match self {
            CellColor::Black => 'k',
            CellColor::Blue => 'b',
            CellColor::Gray => 'a',
            CellColor::Cyan => 'c',
            CellColor::Green => 'g',
            CellColor::Orange => 'o',
            CellColor::Red => 'r',
            CellColor::White => 'w',
            CellColor::Yellow => 'y',
            CellColor::DarkBlue => 'B',
            CellColor::DarkCyan => 'C',
            CellColor::DarkGray => 'A',
            CellColor::DarkGreen => 'G',
            CellColor::DarkRed => 'R',
            CellColor::DarkYellow => 'Y',
        }
    }

    /// The color that the letter `c` stands for, if any.
    pub open spec fn from_letter(c: char) -> Option<CellColor> {
        if c == 'k' {
            Some(CellColor::Black)
        } else if c == 'b' {
            Some(CellColor::Blue)
        } else if c == 'a' {
            Some(CellColor::Gray)
        } else if c == 'c' {
            Some(CellColor::Cyan)
        } else if c == 'g' {
            Some(CellColor::Green)
        } else if c == 'o' {
            Some(CellColor::Orange)
        } else if c == 'r' {
            Some(CellColor::Red)
        } else if c == 'w' {
            Some(CellColor::White)
        } else if c == 'y' {
            Some(CellColor::Yellow)
        } else if c == 'B' {
            Some(CellColor::DarkBlue)
        } else if c == 'C' {
            Some(CellColor::DarkCyan)
        } else if c == 'A' {
            Some(CellColor::DarkGray)
        } else if c == 'G' {
            Some(CellColor::DarkGreen)
        } else if c == 'R' {
            Some(CellColor::DarkRed)
        } else if c == 'Y' {
            Some(CellColor::DarkYellow)
        } else {
            None
        }
    }

    /// The color that the text `s` names, if any: `s` is then a single
    /// letter.
    pub open spec fn from_token(s: Seq<char>) -> Option<CellColor> {
        if s.len() == 1 {
            Self::from_letter(s[0])
        } else {
            None
        }
    }

    /// The letters that name a color.
    pub open spec fn tokens() -> Set<char> {
        set!['k', 'b', 'a', 'c', 'g', 'o', 'r', 'w', 'y', 'B', 'C', 'A', 'G', 'R', 'Y']
    }

    /// Returns the wire letter of this color.
    pub fn get_char(&self) -> (c: char)
        ensures
            c == self.token(),
    {
        match self {
            CellColor::Black => 'k',
            CellColor::Blue => 'b',
            CellColor::Gray => 'a',
            CellColor::Cyan => 'c',
            CellColor::Green => 'g',
            CellColor::Orange => 'o',
            CellColor::Red => 'r',
            CellColor::White => 'w',
            CellColor::Yellow => 'y',
            CellColor::DarkBlue => 'B',
            CellColor::DarkCyan => 'C',
            CellColor::DarkGray => 'A',
            CellColor::DarkGreen => 'G',
            CellColor::DarkRed => 'R',
            CellColor::DarkYellow => 'Y',
        }
    }

    /// Reads a color from its wire token. Any text but the fifteen
    /// letters is rejected, and the error holds that text.
    pub fn from_str(s: &str) -> (r: Result<CellColor, MmsError>)
        ensures
            match r {
                Ok(c) => Self::from_token(s@) == Some(c),
                Err(e) => Self::from_token(s@) is None && (e matches MmsError::InvalidColorString(
                    t,
                ) && t@ == s@),
            },
    {
        if s.unicode_len() == 1 {
            let c = s.get_char(0);
            if c == 'k' {
                return Ok(CellColor::Black);
            } else if c == 'b' {
                return Ok(CellColor::Blue);
            } else if c == 'a' {
                return Ok(CellColor::Gray);
            } else if c == 'c' {
                return Ok(CellColor::Cyan);
            } else if c == 'g' {
                return Ok(CellColor::Green);
            } else if c == 'o' {
                return Ok(CellColor::Orange);
            } else if c == 'r' {
                return Ok(CellColor::Red);
            } else if c == 'w' {
                return Ok(CellColor::White);
            } else if c == 'y' {
                return Ok(CellColor::Yellow);
            } else if c == 'B' {
                return Ok(CellColor::DarkBlue);
            } else if c == 'C' {
                return Ok(CellColor::DarkCyan);
            } else if c == 'A' {
                return Ok(CellColor::DarkGray);
            } else if c == 'G' {
                return Ok(CellColor::DarkGreen);
            } else if c == 'R' {
                return Ok(CellColor::DarkRed);
            } else if c == 'Y' {
                return Ok(CellColor::DarkYellow);
            }
        }
        Err(MmsError::InvalidColorString(s.to_owned()))
    }
}

impl std::str::FromStr for CellColor {
    type Err = MmsError;

    /// Reads a color from its wire token, as `CellColor::from_str` does:
    /// one of the fifteen letters gives its color, and any other text is
    /// rejected with an error that holds it.
    fn from_str(s: &str) -> (r: Result<Self, Self::Err>)
        ensures
            match r {
                Ok(c) => CellColor::from_token(s@) == Some(c),
                Err(e) => CellColor::from_token(s@) is None && (e matches MmsError::InvalidColorString(
                    t,
                ) && t@ == s@),
            },
    {
        CellColor::from_str(s)
    }
}

/// Writing a color and reading the letter again gives the color back.
pub proof fn lemma_color_round_trip(c: CellColor)
    ensures
        CellColor::from_letter(c.token()) == Some(c),
        CellColor::from_token(seq![c.token()]) == Some(c),
{
}

/// A text that names a color is exactly that color's letter.
pub proof fn lemma_color_token_round_trip(s: Seq<char>, c: CellColor)
    requires
        CellColor::from_token(s) == Some(c),
    ensures
        s == seq![c.token()],
{
    assert(s =~= seq![c.token()]);
}

/// Different colors have different letters.
pub proof fn lemma_color_token_injective(a: CellColor, b: CellColor)
    requires
        a.token() == b.token(),
    ensures
        a == b,
{
}

/// The letters that name a color are the fifteen of `tokens`, each the
/// letter of one color, and no other text names a color.
pub proof fn lemma_color_tokens(s: Seq<char>)
    ensures
        CellColor::from_token(s) is Some <==> s.len() == 1 && CellColor::tokens().contains(s[0]),
        forall|c: CellColor| CellColor::tokens().contains(#[trigger] c.token()),
        CellColor::tokens().finite(),
        CellColor::tokens().len() == 15,
{
    assert forall|c: CellColor| CellColor::tokens().contains(#[trigger] c.token()) by {
        lemma_color_round_trip(c);
    }
    lemma_color_token_count();
}

/// There are fifteen letters that name a color.
proof fn lemma_color_token_count()
    ensures
        CellColor::tokens().finite(),
        CellColor::tokens().len() == 15,
{
    let s0 = Set::<char>::empty();
    let s1 = s0.insert('k');
    let s2 = s1.insert('b');
    let s3 = s2.insert('a');
    let s4 = s3.insert('c');
    let s5 = s4.insert('g');
    let s6 = s5.insert('o');
    let s7 = s6.insert('r');
    let s8 = s7.insert('w');
    let s9 = s8.insert('y');
    let s10 = s9.insert('B');
    let s11 = s10.insert('C');
    let s12 = s11.insert('A');
    let s13 = s12.insert('G');
    let s14 = s13.insert('R');
    let s15 = s14.insert('Y');
    assert(s1.len() == 1);
    assert(s2.len() == 2);
    assert(s3.len() == 3);
    assert(s4.len() == 4);
    assert(s5.len() == 5);
    assert(s6.len() == 6);
    assert(s7.len() == 7);
    assert(s8.len() == 8);
    assert(s9.len() == 9);
    assert(s10.len() == 10);
    assert(s11.len() == 11);
    assert(s12.len() == 12);
    assert(s13.len() == 13);
    assert(s14.len() == 14);
    assert(s15.len() == 15);
    assert(CellColor::tokens() =~= s15);
}

} // verus!

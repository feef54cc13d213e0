//! Wall directions and their one-letter wire tokens.

use crate::error::MmsError;
use vstd::prelude::*;
use vstd::string::*;

verus! {

/// The side of a cell on which a wall stands.
#[derive(Clone, Copy, Debug, PartialEq, Eq, Structural)]
pub enum Direction {
    North,
    East,
    South,
    West,
}

impl Direction {
    /// The letter that stands for this direction on the wire.
    pub open spec fn token(self) -> char {
        match self {
            Direction::North => 'n',
            Direction::East => 'e',
            Direction::South => 's',
            Direction::West => 'w',
        }
    }

    /// The direction that the letter `c` stands for, if any.
    pub open spec fn from_letter(c: char) -> Option<Direction> {
        if c == 'n' {
            Some(Direction::North)
        } else if c == 'e' {
            Some(Direction::East)
        } else if c == 's' {
            Some(Direction::South)
        } else if c == 'w' {
            Some(Direction::West)
        } else {
            None
        }
    }

    /// The direction that the text `s` names, if any: `s` is then a
    /// single letter.
    pub open spec fn from_token(s: Seq<char>) -> Option<Direction> {
        if s.len() == 1 {
            Self::from_letter(s[0])
        } else {
            None
        }
    }

    /// Returns the wire letter of this direction.
    pub fn get_string(&self) -> (c: char)
        ensures
            c == self.token(),
    {
        match self {
            Direction::North => 'n',
            Direction::East => 'e',
            Direction::South => 's',
            Direction::West => 'w',
        }
    }

    /// Reads a direction from its wire token. Any text but the four
    /// letters is rejected, and the error holds that text.
    pub fn from_str(s: &str) -> (r: Result<Direction, MmsError>)
        ensures
            match r {
                Ok(d) => Self::from_token(s@) == Some(d),
                Err(e) => Self::from_token(s@) is None && (e matches MmsError::InvalidDirectionString(
                    t,
                ) && t@ == s@),
            },
    {
        if s.unicode_len() == 1 {
            let c = s.get_char(0);
            if c == 'n' {
                return Ok(Direction::North);
            } else if c == 'e' {
                return Ok(Direction::East);
            } else if c == 's' {
                return Ok(Direction::South);
            } else if c == 'w' {
                return Ok(Direction::West);
            }
        }
        Err(MmsError::InvalidDirectionString(s.to_owned()))
    }
}

impl std::str::FromStr for Direction {
    type Err = MmsError;

    /// Reads a direction from its wire token, as `Direction::from_str`
    /// does: one of the four letters gives its direction, and any other
    /// text is rejected with an error that holds it.
    fn from_str(s: &str) -> (r: Result<Self, Self::Err>)
        ensures
            match r {
                Ok(d) => Direction::from_token(s@) == Some(d),
                Err(e) => Direction::from_token(s@) is None && (e matches MmsError::InvalidDirectionString(
                    t,
                ) && t@ == s@),
            },
    {
        Direction::from_str(s)
    }
}

/// Writing a direction and reading the letter again gives the direction
/// back.
pub proof fn lemma_direction_round_trip(d: Direction)
    ensures
        Direction::from_letter(d.token()) == Some(d),
        Direction::from_token(seq![d.token()]) == Some(d),
{
}

/// A text that names a direction is exactly that direction's letter.
pub proof fn lemma_direction_token_round_trip(s: Seq<char>, d: Direction)
    requires
        Direction::from_token(s) == Some(d),
    ensures
        s == seq![d.token()],
{
    assert(s =~= seq![d.token()]);
}

/// Different directions have different letters.
pub proof fn lemma_direction_token_injective(a: Direction, b: Direction)
    requires
        a.token() == b.token(),
    ensures
        a == b,
{
}

/// The tokens are the four letters `n`, `e`, `s` and `w`, and no other
/// text names a direction.
pub proof fn lemma_direction_tokens(s: Seq<char>)
    ensures
        Direction::from_token(s) is Some <==> s.len() == 1 && (s[0] == 'n' || s[0] == 'e' || s[0]
            == 's' || s[0] == 'w'),
{
}

} // verus!

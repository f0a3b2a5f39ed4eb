//! Geometry primitives: grid points and the eight compass headings, with the
//! keypad characters that stand for the headings.

use vstd::prelude::*;

verus! {

/// A grid position `(x, y)`. Interior cells of a map have both coordinates
/// at least 1.
#[derive(Debug, PartialEq, Eq, Structural, Clone, Copy)]
pub struct Point(pub u16, pub u16);

/// The keypad characters that stand for a heading, laid out around the
/// neutral key `s`:
///
/// ```text
/// q w e
/// a . d
/// z x c
/// ```
pub const DIRECTION_CHARS: [char; 8] = ['q', 'w', 'e', 'a', 'd', 'z', 'x', 'c'];

/// One of the eight compass headings.
#[derive(Debug, PartialEq, Eq, Structural, Clone, Copy)]
pub enum Direction {
    North,
    Northeast,
    East,
    Southeast,
    South,
    Southwest,
    West,
    Northwest,
}

/// The error of a conversion from a character that stands for no heading.
#[derive(Debug, PartialEq, Eq, Structural, Clone, Copy)]
pub struct NoMatchError;

/// Whether `c` is one of the eight keypad characters.
pub open spec fn is_direction_key(c: char) -> bool {
    c == 'q' || c == 'w' || c == 'e' || c == 'a' || c == 'd' || c == 'z' || c == 'x' || c == 'c'
}

impl Direction {
    /// The heading that the keypad character `c` stands for, if any.
    pub open spec fn from_key(c: char) -> Option<Direction> {
        if c == 'w' {
            Some(Direction::North)
        } else if c == 'e' {
            Some(Direction::Northeast)
        } else if c == 'd' {
            Some(Direction::East)
        } else if c == 'c' {
            Some(Direction::Southeast)
        } else if c == 'x' {
            Some(Direction::South)
        } else if c == 'z' {
            Some(Direction::Southwest)
        } else if c == 'a' {
            Some(Direction::West)
        } else if c == 'q' {
            Some(Direction::Northwest)
        } else {
            None
        }
    }

    /// The keypad character that stands for this heading.
    pub open spec fn key(self) -> char {
        match self {
            Direction::North => 'w',
            Direction::Northeast => 'e',
            Direction::East => 'd',
            Direction::Southeast => 'c',
            Direction::South => 'x',
            Direction::Southwest => 'z',
            Direction::West => 'a',
            Direction::Northwest => 'q',
        }
    }

    /// The lower-case English name of this heading.
    pub open spec fn name(self) -> Seq<char> {
        match self {
            Direction::North => "north"@,
            Direction::Northeast => "northeast"@,
            Direction::East => "east"@,
            Direction::Southeast => "southeast"@,
            Direction::South => "south"@,
            Direction::Southwest => "southwest"@,
            Direction::West => "west"@,
            Direction::Northwest => "northwest"@,
        }
    }

    /// The name of this heading, as it is shown to the player.
    pub fn to_string(&self) -> (r: String)
        ensures
            r@ == self.name(),
    {
        match self {
            Direction::North => "north".to_owned(),
            Direction::Northeast => "northeast".to_owned(),
            Direction::East => "east".to_owned(),
            Direction::Southeast => "southeast".to_owned(),
            Direction::South => "south".to_owned(),
            Direction::Southwest => "southwest".to_owned(),
            Direction::West => "west".to_owned(),
            Direction::Northwest => "northwest".to_owned(),
        }
    }

    /// The keypad mapping is a bijection between the eight keypad characters
    /// and the eight headings: every heading has a key that maps back to it,
    /// a character maps to a heading exactly when it is a keypad character,
    /// and no two characters map to the same heading.
    pub proof fn lemma_keypad_bijection(c: char, d: Direction)
        ensures
            Direction::from_key(d.key()) == Some(d),
            is_direction_key(d.key()),
            Direction::from_key(c) is Some <==> is_direction_key(c),
            Direction::from_key(c) == Some(d) ==> c == d.key(),
    {
    }
}

impl TryFrom<char> for Direction {
    type Error = NoMatchError;

    fn try_from(value: char) -> (r: Result<Self, Self::Error>) {
        match value {
            'w' => Ok(Direction::North),
            'e' => Ok(Direction::Northeast),
            'd' => Ok(Direction::East),
            'c' => Ok(Direction::Southeast),
            'x' => Ok(Direction::South),
            'z' => Ok(Direction::Southwest),
            'a' => Ok(Direction::West),
            'q' => Ok(Direction::Northwest),
            _ => Err(NoMatchError),
        }
    }
}

impl vstd::std_specs::convert::TryFromSpecImpl<char> for Direction {
    open spec fn obeys_try_from_spec() -> bool {
        true
    }

    open spec fn try_from_spec(v: char) -> Result<Self, Self::Error> {
        match Direction::from_key(v) {
            Some(d) => Ok(d),
            None => Err(NoMatchError),
        }
    }
}

} // verus!

//! The four directions in which focus or a pane can move.

use vstd::prelude::*;
use vstd::string::*;
use crate::text::same_text;

verus! {

/// One of the four directions on the screen.
#[derive(Eq, Clone, Copy, Debug, PartialEq, Hash, PartialOrd, Ord, Structural)]
pub enum Direction {
    Left,
    Right,
    Up,
    Down,
}

impl Direction {
    /// The direction that points the opposite way.
    pub open spec fn opposite(self) -> Direction {
        match self {
            Direction::Left => Direction::Right,
            Direction::Right => Direction::Left,
            Direction::Up => Direction::Down,
            Direction::Down => Direction::Up,
        }
    }

    /// Whether the direction runs along the horizontal axis.
    pub open spec fn horizontal(self) -> bool {
        self == Direction::Left || self == Direction::Right
    }

    /// Whether the direction runs along the vertical axis.
    pub open spec fn vertical(self) -> bool {
        self == Direction::Up || self == Direction::Down
    }

    /// The arrow that stands for the direction in text.
    pub open spec fn arrow(self) -> Seq<char> {
        match self {
            Direction::Left => seq!['\u{2190}'],
            Direction::Right => seq!['\u{2192}'],
            Direction::Up => seq!['\u{2191}'],
            Direction::Down => seq!['\u{2193}'],
        }
    }

    /// The direction that a name stands for, if it is one of the eight
    /// accepted spellings: each name capitalised or in lower case.
    pub open spec fn named(name: Seq<char>) -> Option<Direction> {
        if name == "Left"@ || name == "left"@ {
            Some(Direction::Left)
        } else if name == "Right"@ || name == "right"@ {
            Some(Direction::Right)
        } else if name == "Up"@ || name == "up"@ {
            Some(Direction::Up)
        } else if name == "Down"@ || name == "down"@ {
            Some(Direction::Down)
        } else {
            None
        }
    }

    /// The message with which an unknown name is rejected.
    pub open spec fn unknown_name(name: Seq<char>) -> Seq<char> {
        "Failed to parse Direction. Unknown Direction: "@ + name
    }

    /// Turns the direction round.
    pub fn invert(&self) -> (inverted: Direction)
        ensures
            inverted == self.opposite(),
    {
        match *self {
            Direction::Left => Direction::Right,
            Direction::Down => Direction::Up,
            Direction::Up => Direction::Down,
            Direction::Right => Direction::Left,
        }
    }

    /// Whether the direction is `Left` or `Right`.
    pub fn is_horizontal(&self) -> (horizontal: bool)
        ensures
            horizontal == self.horizontal(),
    {
        matches!(self, Direction::Left | Direction::Right)
    }

    /// Whether the direction is `Up` or `Down`.
    pub fn is_vertical(&self) -> (vertical: bool)
        ensures
            vertical == self.vertical(),
    {
        matches!(self, Direction::Down | Direction::Up)
    }

    /// The arrow of the direction, as a string of one character.
    pub fn to_string(&self) -> (text: String)
        ensures
            text@ == self.arrow(),
    {
        proof {
            reveal_strlit("\u{2190}");
            reveal_strlit("\u{2192}");
            reveal_strlit("\u{2191}");
            reveal_strlit("\u{2193}");
        }
        let text = match self {
            Direction::Left => "\u{2190}".to_owned(),
            Direction::Right => "\u{2192}".to_owned(),
            Direction::Up => "\u{2191}".to_owned(),
            Direction::Down => "\u{2193}".to_owned(),
        };
        assert(text@ =~= self.arrow());
        text
    }
}

impl std::str::FromStr for Direction {
    type Err = String;

    /// Reads a direction from its name. Any other text is rejected with a
    /// message that quotes it.
    fn from_str(s: &str) -> (parsed: Result<Self, Self::Err>)
        ensures
            match Direction::named(s@) {
                Some(direction) => parsed == Ok::<Direction, String>(direction),
                None => parsed is Err && parsed->Err_0@ == Direction::unknown_name(s@),
            },
    {
        if same_text(s, "Left") || same_text(s, "left") {
            Ok(Direction::Left)
        } else if same_text(s, "Right") || same_text(s, "right") {
            Ok(Direction::Right)
        } else if same_text(s, "Up") || same_text(s, "up") {
            Ok(Direction::Up)
        } else if same_text(s, "Down") || same_text(s, "down") {
            Ok(Direction::Down)
        } else {
            Err("Failed to parse Direction. Unknown Direction: ".to_owned().concat(s))
        }
    }
}

} // verus!

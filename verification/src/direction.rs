//! The six directions in which focus can move.

use crate::text::same_text;
use vstd::prelude::*;

verus! {

/// Where the neighbour of a pane is looked for.
#[derive(Clone, Copy, Debug, PartialEq, Eq, Structural)]
pub enum Direction {
    Up,
    Down,
    Left,
    Right,
    Next,
    Prev,
}

/// A name that is none of the six direction names.
#[derive(Clone, Debug, PartialEq, Eq)]
pub struct InvalidDirectionError {
    /// The name as it was given.
    pub name: String,
}

/// The direction that `name` spells, letter case included.
pub open spec fn named(name: Seq<char>) -> Option<Direction> {
    if name == "Up"@ {
        Some(Direction::Up)
    } else if name == "Down"@ {
        Some(Direction::Down)
    } else if name == "Left"@ {
        Some(Direction::Left)
    } else if name == "Right"@ {
        Some(Direction::Right)
    } else if name == "Next"@ {
        Some(Direction::Next)
    } else if name == "Prev"@ {
        Some(Direction::Prev)
    } else {
        None
    }
}

impl Direction {
    /// The name of the direction.
    pub open spec fn name_text(self) -> Seq<char> {
        match self {
            Direction::Up => "Up"@,
            Direction::Down => "Down"@,
            Direction::Left => "Left"@,
            Direction::Right => "Right"@,
            Direction::Next => "Next"@,
            Direction::Prev => "Prev"@,
        }
    }

    /// The name of the direction.
    pub fn name(self) -> (r: &'static str)
        ensures
            r@ == self.name_text(),
    {
        match self {
            Direction::Up => "Up",
            Direction::Down => "Down",
            Direction::Left => "Left",
            Direction::Right => "Right",
            Direction::Next => "Next",
            Direction::Prev => "Prev",
        }
    }

    /// The direction that `name` spells. The match is exact: a name in
    /// another letter case is not a direction.
    pub fn from_name(name: &str) -> (r: Result<Direction, InvalidDirectionError>)
        ensures
            match r {
                Ok(direction) => named(name@) == Some(direction),
                Err(error) => named(name@) is None && error.name@ == name@,
            },
    {
        if same_text(name, "Up") {
            Ok(Direction::Up)
        } else if same_text(name, "Down") {
            Ok(Direction::Down)
        } else if same_text(name, "Left") {
            Ok(Direction::Left)
        } else if same_text(name, "Right") {
            Ok(Direction::Right)
        } else if same_text(name, "Next") {
            Ok(Direction::Next)
        } else if same_text(name, "Prev") {
            Ok(Direction::Prev)
        } else {
            Err(InvalidDirectionError { name: name.to_owned() })
        }
    }
}

/// Each direction is spelled by its own name, and by no other direction's.
pub proof fn lemma_name_round_trip(direction: Direction)
    ensures
        named(direction.name_text()) == Some(direction),
{
    reveal_strlit("Up");
    reveal_strlit("Down");
    reveal_strlit("Left");
    reveal_strlit("Right");
    reveal_strlit("Next");
    reveal_strlit("Prev");
    assert("Up"@[0] == 'U');
    assert("Down"@[0] == 'D');
    assert("Left"@[0] == 'L');
    assert("Right"@[0] == 'R');
    assert("Next"@[0] == 'N');
    assert("Prev"@[0] == 'P');
}

} // verus!

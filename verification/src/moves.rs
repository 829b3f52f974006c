//! The moves an agent can make in one step, and their textual labels.

use crate::text::same_text;
use vstd::prelude::*;

verus! {

/// What an agent does in one step.
#[derive(Debug, Copy, Clone, PartialEq, Eq, Structural)]
pub enum NextMove {
    Idle,
    Up,
    Down,
    Left,
    Right,
    Interact,
}

/// The move a label names in the graph and in the strategy table, if it names one.
pub open spec fn label_move(label: Seq<char>) -> Option<NextMove> {
    if label == "idle"@ {
        Some(NextMove::Idle)
    } else if label == "up"@ {
        Some(NextMove::Up)
    } else if label == "down"@ {
        Some(NextMove::Down)
    } else if label == "left"@ {
        Some(NextMove::Left)
    } else if label == "right"@ {
        Some(NextMove::Right)
    } else if label == "interact"@ {
        Some(NextMove::Interact)
    } else {
        None
    }
}

/// The move that typed input names: every labelled move but `idle`.
pub open spec fn input_move(text: Seq<char>) -> Option<NextMove> {
    if text == "idle"@ {
        None
    } else {
        label_move(text)
    }
}

/// Reads a move label as the graph and the strategy table write it.
pub fn move_from_label(label: &str) -> (found: Option<NextMove>)
    ensures
        found == label_move(label@),
{
    if same_text(label, "idle") {
        Some(NextMove::Idle)
    } else if same_text(label, "up") {
        Some(NextMove::Up)
    } else if same_text(label, "down") {
        Some(NextMove::Down)
    } else if same_text(label, "left") {
        Some(NextMove::Left)
    } else if same_text(label, "right") {
        Some(NextMove::Right)
    } else if same_text(label, "interact") {
        Some(NextMove::Interact)
    } else {
        None
    }
}

/// The error of reading a move from text that names none.
#[derive(Debug, Copy, Clone, PartialEq, Eq)]
pub struct ParseMoveError;

impl ParseMoveError {
    /// The message shown for this error.
    pub fn to_string(&self) -> (message: String)
        ensures
            message@ == "Something went wrong parsing a Move!"@,
    {
        "Something went wrong parsing a Move!".to_owned()
    }
}

impl NextMove {
    /// Reads a move from typed input. `idle` is no input move.
    pub fn parse(s: &str) -> (parsed: Result<NextMove, ParseMoveError>)
        ensures
            parsed is Ok <==> input_move(s@) is Some,
            parsed matches Ok(m) ==> input_move(s@) == Some(m),
    {
        if same_text(s, "idle") {
            Err(ParseMoveError)
        } else {
            match move_from_label(s) {
                Some(m) => Ok(m),
                None => Err(ParseMoveError),
            }
        }
    }
}

impl core::str::FromStr for NextMove {
    type Err = ParseMoveError;

    /// Reads a move from typed input, as `parse` does.
    fn from_str(s: &str) -> (parsed: Result<NextMove, ParseMoveError>)
        ensures
            parsed is Ok <==> input_move(s@) is Some,
            parsed matches Ok(m) ==> input_move(s@) == Some(m),
    {
        NextMove::parse(s)
    }
}

/// The move the human asked for, waiting to be resolved.
#[derive(Debug, Copy, Clone, PartialEq, Eq, Structural)]
pub struct HumanNextMove(pub NextMove);

/// The move planned for the robot, waiting to be resolved.
#[derive(Debug, Copy, Clone, PartialEq, Eq, Structural)]
pub struct RobotNextMove(pub NextMove);

} // verus!

//! Defects of the loaded artifacts that end a session.

use vstd::prelude::*;

verus! {

/// A defect found in the graph, the strategy or the layout while a step was
/// worked out. None can be recovered from: the artifacts do not fit the rules
/// of the study.
#[derive(Debug, Copy, Clone, PartialEq, Eq, Structural)]
pub enum ConfigFault {
    /// The graph has no edge to follow from the current state.
    NoNextState,
    /// An accepting state has no scripted delivery move.
    NoDeliveryMove,
    /// The strategy's entry for the current state, or an edge that leaves
    /// it, carries a label that names no move.
    ActLabel,
    /// The strategy has no entry and the graph no move for the robot.
    NoRobotMove,
    /// An adviser entry of the current state holds not exactly one guard.
    GuardCount,
    /// An active safety guard has another width than the observation.
    GuardWidth,
    /// The human stands on a tile that has no moves.
    NoHumanMoves,
    /// The robot interacts on a tile that is no workstation.
    NoInteractingPos,
    /// The robot's move leads off the grid.
    OffGrid,
}

impl ConfigFault {
    /// The text of the message for this fault.
    pub open spec fn text(self) -> Seq<char> {
        match self {
            ConfigFault::NoNextState => "No next state found!"@,
            ConfigFault::NoDeliveryMove => "No hardcoded move found!"@,
            ConfigFault::ActLabel => "Invalid act label!"@,
            ConfigFault::NoRobotMove => "No valid move found!"@,
            ConfigFault::GuardCount => "An adviser state needs exactly one guard!"@,
            ConfigFault::GuardWidth => "obs and guard should be same length!"@,
            ConfigFault::NoHumanMoves => "Could not find valid moves!"@,
            ConfigFault::NoInteractingPos => "No interacting_pos found!"@,
            ConfigFault::OffGrid => "Move leaves the grid!"@,
        }
    }

    /// The message for this fault.
    pub fn message(&self) -> (message: String)
        ensures
            message@ == self.text(),
    {
        match self {
            ConfigFault::NoNextState => "No next state found!".to_owned(),
            ConfigFault::NoDeliveryMove => "No hardcoded move found!".to_owned(),
            ConfigFault::ActLabel => "Invalid act label!".to_owned(),
            ConfigFault::NoRobotMove => "No valid move found!".to_owned(),
            ConfigFault::GuardCount => "An adviser state needs exactly one guard!".to_owned(),
            ConfigFault::GuardWidth => "obs and guard should be same length!".to_owned(),
            ConfigFault::NoHumanMoves => "Could not find valid moves!".to_owned(),
            ConfigFault::NoInteractingPos => "No interacting_pos found!".to_owned(),
            ConfigFault::OffGrid => "Move leaves the grid!".to_owned(),
        }
    }
}

} // verus!

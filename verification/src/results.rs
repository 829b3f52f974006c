//! The record a finished session reports, and the adviser mode it ran under.

use crate::text::{decimal, push_decimal, push_signed_decimal, signed_decimal};
use vstd::prelude::*;

verus! {

/// Which adviser policy a session runs under.
#[derive(Copy, Clone, Debug, PartialEq, Eq, Structural)]
pub enum AdviserMode {
    /// The safety advisers are shown and enforced.
    LeastLimiting,
    /// Strict guidance: one move is told and enforced.
    NextMove,
    /// No adviser is shown; the safety advisers are still enforced.
    Off,
}

impl AdviserMode {
    /// The number that stands for this mode in a results record.
    pub open spec fn num(self) -> u32 {
        match self {
            AdviserMode::LeastLimiting => 0,
            AdviserMode::NextMove => 1,
            AdviserMode::Off => 2,
        }
    }

    /// The name of this mode in stored results.
    pub open spec fn name(self) -> Seq<char> {
        match self {
            AdviserMode::LeastLimiting => "LeastLimiting"@,
            AdviserMode::NextMove => "NextMove"@,
            AdviserMode::Off => "None"@,
        }
    }

    /// The name of this mode in stored results.
    pub fn to_string(&self) -> (name: String)
        ensures
            name@ == self.name(),
    {
        match self {
            AdviserMode::LeastLimiting => "LeastLimiting".to_owned(),
            AdviserMode::NextMove => "NextMove".to_owned(),
            AdviserMode::Off => "None".to_owned(),
        }
    }

    pub fn to_num(&self) -> (n: u32)
        ensures
            n == self.num(),
    {
        match self {
            AdviserMode::LeastLimiting => 0,
            AdviserMode::NextMove => 1,
            AdviserMode::Off => 2,
        }
    }

    /// The mode that `n` stands for. Only 0, 1 and 2 stand for a mode.
    pub fn from_num(n: u32) -> (mode: AdviserMode)
        requires
            n <= 2,
        ensures
            mode.num() == n,
    {
        if n == 0 {
            AdviserMode::LeastLimiting
        } else if n == 1 {
            AdviserMode::NextMove
        } else {
            AdviserMode::Off
        }
    }
}

/// What a session reports when it ends.
#[derive(Debug, Copy, Clone, PartialEq, Eq, Structural)]
pub struct GameResults {
    pub participant_id: i32,
    pub adviser_mode: u32,
    pub steps_taken: u32,
    pub safety_violated: u32,
    pub human_burgers: u32,
    pub robot_burgers: u32,
}

impl GameResults {
    /// The record as a JSON object: the six fields by name, in the order of
    /// their declaration, each with its number in decimal.
    pub open spec fn json(self) -> Seq<char> {
        "{\"participant_id\": "@ + signed_decimal(self.participant_id as int)
            + ", \"adviser_mode\": "@ + decimal(self.adviser_mode as nat)
            + ", \"steps_taken\": "@ + decimal(self.steps_taken as nat)
            + ", \"safety_violated\": "@ + decimal(self.safety_violated as nat)
            + ", \"human_burgers\": "@ + decimal(self.human_burgers as nat)
            + ", \"robot_burgers\": "@ + decimal(self.robot_burgers as nat) + "}"@
    }

    /// Writes the record as a JSON object.
    pub fn to_json(&self) -> (json: String)
        ensures
            json@ == self.json(),
    {
        let mut json = String::new();
        json.append("{\"participant_id\": ");
        push_signed_decimal(&mut json, self.participant_id as i64);
        json.append(", \"adviser_mode\": ");
        push_decimal(&mut json, self.adviser_mode as u64);
        json.append(", \"steps_taken\": ");
        push_decimal(&mut json, self.steps_taken as u64);
        json.append(", \"safety_violated\": ");
        push_decimal(&mut json, self.safety_violated as u64);
        json.append(", \"human_burgers\": ");
        push_decimal(&mut json, self.human_burgers as u64);
        json.append(", \"robot_burgers\": ");
        push_decimal(&mut json, self.robot_burgers as u64);
        json.append("}");
        json
    }
}

} // verus!

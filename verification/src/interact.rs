//! The interaction state machine of an agent at a workstation, the moves it
//! leaves the human, and the observation it produces.

use crate::grid::{
    Position, BUNS_POS_H, BUNS_POS_R, DELIVERY_POS_H, DELIVERY_POS_R, LETTUCE_POS_H,
    LETTUCE_POS_R, PATTY_POS_H, PATTY_POS_R, SAUCE_POS_H, SAUCE_POS_R, TOMATO_POS_H, TOMATO_POS_R,
};
use crate::moves::NextMove;
use crate::text::same_text;
use vstd::prelude::*;

verus! {

/// Where an agent is in an interaction with a workstation. The position held
/// by the last three states is the anchor: the tile next to the agent on the
/// side of the workstation.
#[derive(Debug, Copy, Clone, PartialEq, Eq, Structural)]
pub enum Interact {
    /// Not interacting.
    No,
    /// Reaching into the workstation.
    In(Position),
    /// Staying at the workstation.
    Stay(Position),
    /// Stepping back out.
    Out(Position),
}

/// The anchor of an interaction started at `pos`: one tile to the left at a
/// delivery tile, one tile down at a human ingredient tile, one tile up at a
/// robot ingredient tile. Other tiles have none.
pub open spec fn interact_anchor(pos: Position) -> Option<(int, int)> {
    if pos.at(DELIVERY_POS_H) || pos.at(DELIVERY_POS_R) {
        Some((pos.x - 1, pos.y as int))
    } else if pos.at(PATTY_POS_H) || pos.at(BUNS_POS_H) || pos.at(LETTUCE_POS_H) || pos.at(
        TOMATO_POS_H,
    ) || pos.at(SAUCE_POS_H) {
        Some((pos.x as int, pos.y - 1))
    } else if pos.at(PATTY_POS_R) || pos.at(BUNS_POS_R) || pos.at(LETTUCE_POS_R) || pos.at(
        TOMATO_POS_R,
    ) || pos.at(SAUCE_POS_R) {
        Some((pos.x as int, pos.y + 1))
    } else {
        None
    }
}

/// Whether `pos` is a workstation tile, that is, has an anchor.
pub fn at_workstation(pos: &Position) -> (ok: bool)
    ensures
        ok == interact_anchor(*pos) is Some,
{
    pos.is_equal(DELIVERY_POS_H) || pos.is_equal(DELIVERY_POS_R) || pos.is_equal(PATTY_POS_H)
        || pos.is_equal(BUNS_POS_H) || pos.is_equal(LETTUCE_POS_H) || pos.is_equal(TOMATO_POS_H)
        || pos.is_equal(SAUCE_POS_H) || pos.is_equal(PATTY_POS_R) || pos.is_equal(BUNS_POS_R)
        || pos.is_equal(LETTUCE_POS_R) || pos.is_equal(TOMATO_POS_R) || pos.is_equal(SAUCE_POS_R)
}

/// The anchor of an interaction started at the workstation tile `cur_pos`.
pub fn interacting_pos(cur_pos: &Position) -> (anchor: Position)
    requires
        interact_anchor(*cur_pos) is Some,
    ensures
        Some((anchor.x as int, anchor.y as int)) == interact_anchor(*cur_pos),
{
    if cur_pos.is_equal(DELIVERY_POS_H) || cur_pos.is_equal(DELIVERY_POS_R) {
        return Position { x: cur_pos.x - 1, y: cur_pos.y };
    }
    if cur_pos.is_equal(PATTY_POS_H) || cur_pos.is_equal(BUNS_POS_H) || cur_pos.is_equal(
        LETTUCE_POS_H,
    ) || cur_pos.is_equal(TOMATO_POS_H) || cur_pos.is_equal(SAUCE_POS_H) {
        return Position { x: cur_pos.x, y: cur_pos.y - 1 };
    }
    Position { x: cur_pos.x, y: cur_pos.y + 1 }
}

impl Interact {
    /// The agent is at a workstation: reaching in or staying.
    pub open spec fn engaged(self) -> bool {
        self is In || self is Stay
    }

    /// The state after a step with `next_move` by an agent standing at `pos`.
    /// Outside an interaction, `Interact` starts one at the anchor of `pos` and
    /// any other move leaves the agent outside. Inside one, `Interact` steps
    /// out and any other move stays, both keeping the anchor.
    pub open spec fn after(self, next_move: NextMove, pos: Position) -> Interact {
        match self {
            Interact::No | Interact::Out(_) => {
                if next_move == NextMove::Interact {
                    let anchor = interact_anchor(pos).unwrap();
                    Interact::In(Position { x: anchor.0 as usize, y: anchor.1 as usize })
                } else {
                    Interact::No
                }
            },
            Interact::In(anchor) | Interact::Stay(anchor) => {
                if next_move == NextMove::Interact {
                    Interact::Out(anchor)
                } else {
                    Interact::Stay(anchor)
                }
            },
        }
    }

    /// Whether the agent is at a workstation. Tests `engaged`.
    pub fn is_engaged(&self) -> (engaged: bool)
        ensures
            engaged == self.engaged(),
    {
        match self {
            Interact::In(_) => true,
            Interact::Stay(_) => true,
            _ => false,
        }
    }

    /// Advances the interaction by one step of an agent standing at `pos`.
    pub fn step(&self, next_move: NextMove, pos: &Position) -> (next: Interact)
        requires
            !self.engaged() && next_move == NextMove::Interact ==> interact_anchor(*pos) is Some,
        ensures
            next == self.after(next_move, *pos),
    {
        match self {
            Interact::In(anchor) | Interact::Stay(anchor) => {
                if next_move == NextMove::Interact {
                    Interact::Out(*anchor)
                } else {
                    Interact::Stay(*anchor)
                }
            },
            _ => {
                if next_move == NextMove::Interact {
                    Interact::In(interacting_pos(pos))
                } else {
                    Interact::No
                }
            },
        }
    }
}

/// The moves open to the human at `pos` in interaction state `interact`, in
/// the order of preference; `None` where the human stands on no tile of its
/// own. At a workstation only `Interact` is open.
pub open spec fn human_moves(pos: Position, interact: Interact) -> Option<Seq<NextMove>> {
    if interact.engaged() {
        Some(seq![NextMove::Interact])
    } else if pos.at(DELIVERY_POS_H) {
        Some(seq![NextMove::Idle, NextMove::Interact, NextMove::Down])
    } else if pos.at(PATTY_POS_H) {
        Some(seq![NextMove::Idle, NextMove::Interact, NextMove::Right])
    } else if pos.at(BUNS_POS_H) {
        Some(seq![NextMove::Idle, NextMove::Interact, NextMove::Left, NextMove::Right])
    } else if pos.at(TOMATO_POS_H) {
        Some(
            seq![
                NextMove::Idle,
                NextMove::Interact,
                NextMove::Up,
                NextMove::Left,
                NextMove::Right,
            ],
        )
    } else if pos.at(SAUCE_POS_H) {
        Some(seq![NextMove::Idle, NextMove::Interact, NextMove::Left, NextMove::Right])
    } else if pos.at(LETTUCE_POS_H) {
        Some(seq![NextMove::Idle, NextMove::Interact, NextMove::Left])
    } else {
        None
    }
}

/// Whether the human has moves at `cur_pos` in state `interact`.
pub fn has_human_moves(cur_pos: &Position, interact: &Interact) -> (ok: bool)
    ensures
        ok == human_moves(*cur_pos, *interact) is Some,
{
    interact.is_engaged() || cur_pos.is_equal(DELIVERY_POS_H) || cur_pos.is_equal(PATTY_POS_H)
        || cur_pos.is_equal(BUNS_POS_H) || cur_pos.is_equal(TOMATO_POS_H) || cur_pos.is_equal(
        SAUCE_POS_H,
    ) || cur_pos.is_equal(LETTUCE_POS_H)
}

/// The moves open to the human at `cur_pos` in state `interact`.
pub fn valid_human_moves(cur_pos: &Position, interact: &Interact) -> (moves: Vec<NextMove>)
    requires
        human_moves(*cur_pos, *interact) is Some,
    ensures
        Some(moves@) == human_moves(*cur_pos, *interact),
{
    let mut moves: Vec<NextMove> = Vec::new();
    if interact.is_engaged() {
        moves.push(NextMove::Interact);
        return moves;
    }
    moves.push(NextMove::Idle);
    moves.push(NextMove::Interact);
    if cur_pos.is_equal(DELIVERY_POS_H) {
        moves.push(NextMove::Down);
    } else if cur_pos.is_equal(PATTY_POS_H) {
        moves.push(NextMove::Right);
    } else if cur_pos.is_equal(BUNS_POS_H) || cur_pos.is_equal(SAUCE_POS_H) {
        moves.push(NextMove::Left);
        moves.push(NextMove::Right);
        assert(moves@ =~= seq![
            NextMove::Idle,
            NextMove::Interact,
            NextMove::Left,
            NextMove::Right,
        ]);
    } else if cur_pos.is_equal(TOMATO_POS_H) {
        moves.push(NextMove::Up);
        moves.push(NextMove::Left);
        moves.push(NextMove::Right);
        assert(moves@ =~= seq![
            NextMove::Idle,
            NextMove::Interact,
            NextMove::Up,
            NextMove::Left,
            NextMove::Right,
        ]);
    } else {
        moves.push(NextMove::Left);
    }
    moves
}

/// Whether `moves` holds `wanted`.
pub fn moves_contain(moves: &Vec<NextMove>, wanted: NextMove) -> (found: bool)
    ensures
        found == moves@.contains(wanted),
{
    let mut i: usize = 0;
    while i < moves.len()
        invariant
            i <= moves.len(),
            forall|j: int| 0 <= j < i ==> moves@[j] != wanted,
        decreases moves.len() - i,
    {
        if moves[i] == wanted {
            return true;
        }
        i += 1;
    }
    false
}

/// The tile that the proposition named `ap` speaks of, if it speaks of one.
pub open spec fn proposition_tile(ap: Seq<char>) -> Option<(usize, usize)> {
    if ap == "patty_h"@ {
        Some(PATTY_POS_H)
    } else if ap == "buns_h"@ {
        Some(BUNS_POS_H)
    } else if ap == "lettuce_h"@ {
        Some(LETTUCE_POS_H)
    } else if ap == "tomato_h"@ {
        Some(TOMATO_POS_H)
    } else if ap == "ketchup_h"@ {
        Some(SAUCE_POS_H)
    } else if ap == "delivery_h"@ {
        Some(DELIVERY_POS_H)
    } else {
        None
    }
}

/// The observation bit of one tile: `'1'` while the agent is at a workstation
/// and stands on `check`, else `'0'`.
pub open spec fn tile_bit(pos: Position, interact: Interact, check: (usize, usize)) -> char {
    if interact.engaged() && pos.at(check) {
        '1'
    } else {
        '0'
    }
}

/// The observation bit of the proposition named `ap`; `'0'` for a name that
/// speaks of no tile.
pub open spec fn proposition_bit(pos: Position, interact: Interact, ap: Seq<char>) -> char {
    match proposition_tile(ap) {
        Some(tile) => tile_bit(pos, interact, tile),
        None => '0',
    }
}

/// The observation of an agent at `pos` in state `interact`: one bit for each
/// proposition of `aps`, in their order.
pub open spec fn observation(pos: Position, interact: Interact, aps: Seq<Seq<char>>) -> Seq<
    char,
> {
    Seq::new(aps.len(), |i: int| proposition_bit(pos, interact, aps[i]))
}

/// Computes `tile_bit`.
pub fn interact_char(pos: Position, interact: &Interact, check: (usize, usize)) -> (bit: char)
    ensures
        bit == tile_bit(pos, *interact, check),
{
    if interact.is_engaged() {
        if pos.is_equal(check) {
            '1'
        } else {
            '0'
        }
    } else {
        '0'
    }
}

fn proposition_char(pos: Position, interact: &Interact, ap: &str) -> (bit: char)
    ensures
        bit == proposition_bit(pos, *interact, ap@),
{
    if same_text(ap, "patty_h") {
        interact_char(pos, interact, PATTY_POS_H)
    } else if same_text(ap, "buns_h") {
        interact_char(pos, interact, BUNS_POS_H)
    } else if same_text(ap, "lettuce_h") {
        interact_char(pos, interact, LETTUCE_POS_H)
    } else if same_text(ap, "tomato_h") {
        interact_char(pos, interact, TOMATO_POS_H)
    } else if same_text(ap, "ketchup_h") {
        interact_char(pos, interact, SAUCE_POS_H)
    } else if same_text(ap, "delivery_h") {
        interact_char(pos, interact, DELIVERY_POS_H)
    } else {
        '0'
    }
}

/// Computes the observation string of an agent at `pos` in state `interact`
/// over the propositions `guard_ap`.
pub fn obs_from_pos(pos: Position, interact: &Interact, guard_ap: &Vec<String>) -> (obs: String)
    ensures
        obs@ == observation(pos, *interact, guard_ap.deep_view()),
{
    let mut obs = String::new();
    let mut i: usize = 0;
    while i < guard_ap.len()
        invariant
            i <= guard_ap.len(),
            obs@.len() == i,
            forall|j: int|
                0 <= j < i ==> obs@[j] == proposition_bit(pos, *interact, #[trigger] guard_ap@[j]@),
        decreases guard_ap.len() - i,
    {
        let bit = proposition_char(pos, interact, guard_ap[i].as_str());
        proof {
            reveal_strlit("1");
            reveal_strlit("0");
        }
        if bit == '1' {
            obs.append("1");
        } else {
            obs.append("0");
        }
        i += 1;
    }
    obs
}

} // verus!

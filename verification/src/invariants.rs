//! What holds of a session from its start through every step.

use crate::fault::ConfigFault;
use crate::graph::{GameView, StateView};
use crate::grid::Position;
use crate::interact::{human_moves, Interact};
use crate::moves::NextMove;
use crate::resolver::destination;
use crate::results::AdviserMode;
use crate::session::{KeysPressed, SessionView};
use crate::strategy::StrategyView;
use vstd::prelude::*;

verus! {

/// The tile `(x, y)` is one of the human's tiles: the human has moves there.
pub open spec fn human_tile(x: usize, y: usize) -> bool {
    human_moves(Position { x, y }, Interact::No) is Some
}

impl SessionView {
    /// The human stands on one of its tiles and is going to one.
    pub open spec fn grounded(self) -> bool {
        &&& human_tile(self.player.pos.x, self.player.pos.y)
        &&& human_tile(self.player.next_pos.x, self.player.next_pos.y)
    }
}

/// From one of its tiles, every move open to the human leads to one of its
/// tiles.
pub proof fn lemma_human_keeps_to_its_tiles(pos: Position, interact: Interact, next_move: NextMove)
    requires
        human_tile(pos.x, pos.y),
        human_moves(pos, interact) is Some,
        human_moves(pos, interact).unwrap().contains(next_move),
    ensures
        human_tile(destination(pos, next_move).x, destination(pos, next_move).y),
{
    let valid = human_moves(pos, interact).unwrap();
    let i = choose|i: int| 0 <= i < valid.len() && valid[i] == next_move;
    assert(valid[i] == next_move);
}

/// A session starts with the human on one of its tiles.
pub proof fn lemma_opening_is_grounded(
    participant_id: i32,
    adviser_mode: AdviserMode,
    init: StateView,
)
    ensures
        SessionView::opening(participant_id, adviser_mode, init).grounded(),
{
}

/// Every step keeps the human on its tiles, so that resolving never finds the
/// human without moves.
pub proof fn lemma_steps_keep_the_human_grounded(
    session: SessionView,
    game: GameView,
    strategy: StrategyView,
    keys: KeysPressed,
    delta: u64,
)
    requires
        session.grounded(),
    ensures
        session.ticked(delta).grounded(),
        session.asked(keys).grounded(),
        session.settled(game.init).grounded(),
        session.arrived().grounded(),
        session.planned(strategy, game) matches Ok(after) ==> after.grounded(),
        session.resolution(game) matches Ok(after) ==> after.grounded(),
        session.resolution(game) != Err::<SessionView, ConfigFault>(ConfigFault::NoHumanMoves),
{
    if session.resolution(game) is Ok && session.resolution(game).unwrap() != session {
        let valid = human_moves(session.player.pos, session.player.interact).unwrap();
        let human_move = crate::resolver::human_choice(session.next_move_h, valid).unwrap();
        assert(valid.contains(human_move)) by {
            assert(valid[0] == valid[0]);
        }
        lemma_human_keeps_to_its_tiles(session.player.pos, session.player.interact, human_move);
    }
}

} // verus!

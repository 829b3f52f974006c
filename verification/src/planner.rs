//! Planning the robot's next move and refreshing the advisers for the state
//! it leads to.

use crate::advisers::{delivery_step, find_delivery_move};
use crate::fault::ConfigFault;
use crate::graph::{clone_state, GameView, GraphState, StateView, SynthGame};
use crate::moves::{NextMove, RobotNextMove};
use crate::session::{Session, SessionView};
use crate::strategy::{Strategy, StrategyView};
use crate::text::same_text;
use vstd::prelude::*;

verus! {

/// The robot's move at `state`. At an accepting state it is the scripted
/// delivery move for the state's first field. Elsewhere it is the move that
/// the strategy prescribes, and without an entry in the table the first move
/// that the graph offers. A label that names no move, in the table's entry
/// for `state` or on an edge that the fallback reads, is a fault.
pub open spec fn robot_choice(state: StateView, strategy: StrategyView, game: GameView) -> Result<
    NextMove,
    ConfigFault,
> {
    if game.accepting(state) {
        match delivery_step(state.0) {
            Some(m) => Ok(m),
            None => Err(ConfigFault::NoDeliveryMove),
        }
    } else if !strategy.entry_known(state) {
        Err(ConfigFault::ActLabel)
    } else if strategy.prescribed(state) is Some {
        Ok(strategy.prescribed(state).unwrap())
    } else if !game.labels_known(state) {
        Err(ConfigFault::ActLabel)
    } else if game.moves_from(state).len() == 0 {
        Err(ConfigFault::NoRobotMove)
    } else {
        Ok(game.moves_from(state)[0])
    }
}

/// The state that the robot's move starts from: `state`, but at the accepting
/// state whose first field is `20i`, where a delivery ends, the initial
/// state with `20i` as its first field.
pub open spec fn planning_state(state: StateView, game: GameView) -> StateView {
    if game.accepting(state) && state.0 == "20i"@ {
        ("20i"@, game.init.1, game.init.2)
    } else {
        state
    }
}

impl SessionView {
    /// The session after planning. While a robot move waits nothing changes.
    /// Else the robot's move is chosen and waits, the graph follows it, and
    /// the advisers are refreshed for the state reached.
    pub open spec fn planned(self, strategy: StrategyView, game: GameView) -> Result<
        SessionView,
        ConfigFault,
    > {
        if self.next_move_r is Some {
            Ok(self)
        } else {
            match robot_choice(self.game_state, strategy, game) {
                Err(fault) => Err(fault),
                Ok(robot_move) => match game.action_target(
                    planning_state(self.game_state, game),
                    robot_move,
                ) {
                    None => Err(ConfigFault::NoNextState),
                    Some(next) => if !strategy.single_guards(next) {
                        Err(ConfigFault::GuardCount)
                    } else {
                        Ok(
                            SessionView {
                                game_state: next,
                                next_move_r: Some(robot_move),
                                advisers: self.advisers.refreshed(
                                    strategy,
                                    next,
                                    self.adviser_mode,
                                    self.step_counter,
                                ),
                                ..self
                            },
                        )
                    },
                },
            }
        }
    }
}

/// Chooses the robot's move at `state`, as `robot_choice` says.
fn choose_robot_move(state: &GraphState, strategy: &Strategy, synth_game: &SynthGame) -> (chosen:
    Result<NextMove, ConfigFault>)
    ensures
        chosen == robot_choice(state@, strategy@, synth_game@),
{
    if synth_game.is_accepting(state) {
        match find_delivery_move(state.0.as_str()) {
            Some(m) => Ok(m),
            None => Err(ConfigFault::NoDeliveryMove),
        }
    } else {
        match strategy.find_move(state) {
            Err(fault) => Err(fault),
            Ok(Some(m)) => Ok(m),
            Ok(None) => {
                if !synth_game.robot_labels_known(state) {
                    return Err(ConfigFault::ActLabel);
                }
                let valid_moves = synth_game.valid_robot_moves(state);
                if valid_moves.len() == 0 {
                    return Err(ConfigFault::NoRobotMove);
                }
                Ok(valid_moves[0])
            },
        }
    }
}

/// Plans the robot's next move, unless one is waiting already: chooses it,
/// lets the graph follow it and refreshes the advisers for the state reached.
/// Fails, changing nothing, where the artifacts leave the choice, the edge or
/// the advisers undefined.
pub fn prepare_robot_move(session: &mut Session, strategy: &Strategy, synth_game: &SynthGame) -> (done:
    Result<(), ConfigFault>)
    ensures
        done is Ok ==> old(session)@.planned(strategy@, synth_game@) == Ok::<
            SessionView,
            ConfigFault,
        >(final(session)@),
        done matches Err(fault) ==> old(session)@.planned(strategy@, synth_game@) == Err::<
            SessionView,
            ConfigFault,
        >(fault) && *final(session) == *old(session),
{
    if session.next_move_r.is_some() {
        return Ok(());
    }
    let robot_move = match choose_robot_move(&session.synth_game_state.0, strategy, synth_game) {
        Ok(m) => m,
        Err(fault) => {
            return Err(fault);
        },
    };
    let restart = synth_game.is_accepting(&session.synth_game_state.0) && same_text(
        session.synth_game_state.0.0.as_str(),
        "20i",
    );
    let from: GraphState = if restart {
        ("20i".to_owned(), synth_game.graph.init.1.clone(), synth_game.graph.init.2.clone())
    } else {
        clone_state(&session.synth_game_state.0)
    };
    let next = match synth_game.find_robot_edge(&from, robot_move) {
        Some(i) => {
            clone_state(&synth_game.links[i].target)
        },
        None => {
            return Err(ConfigFault::NoNextState);
        },
    };
    match session.active_advisers.refresh(
        strategy,
        &next,
        session.adviser_mode,
        session.step_counter.0,
    ) {
        Ok(()) => {},
        Err(fault) => {
            return Err(fault);
        },
    }
    session.synth_game_state.0 = next;
    session.next_move_r = Some(RobotNextMove(robot_move));
    Ok(())
}

} // verus!

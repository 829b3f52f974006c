//! Resolving a step: both agents' moves are applied to their interactions,
//! their progress and their positions, the graph follows the human's
//! observation, and the step is checked against the advisers.

use crate::clock::{Timer, ANIM_DURATION, FADE_DURATION};
use crate::fault::ConfigFault;
use crate::graph::{clone_state, GameView, GraphState, StateView, SynthGame};
use crate::grid::{
    can_move, move_in_bounds, moved, next_pos_from_move, NextPosition, Position, DELIVERY_POS_H,
    DELIVERY_POS_R, HUMAN_START, ROBOT_START, SAUCE_POS_H, SAUCE_POS_R,
};
use crate::guard::{guards_admit, guards_fit, match_guards};
use crate::interact::{
    at_workstation, has_human_moves, human_moves, interact_anchor, moves_contain, obs_from_pos,
    observation, valid_human_moves, Interact,
};
use crate::moves::NextMove;
use crate::progress::{update_burger_status_h, update_burger_status_r, BurgerProgress};
use crate::results::{AdviserMode, GameResults};
use crate::session::{Actor, SafetyViolated, Session, SessionView, StudyState};
use vstd::prelude::*;

verus! {

/// The move the human makes, out of the moves `valid` open to it. A waiting
/// request stands if it is open, and is replaced by the first open move if it
/// is not. Without a request the human moves only where one move is open.
pub open spec fn human_choice(request: Option<NextMove>, valid: Seq<NextMove>) -> Option<NextMove> {
    match request {
        Some(m) => if valid.contains(m) {
            Some(m)
        } else {
            Some(valid[0])
        },
        None => if valid.len() == 1 {
            Some(valid[0])
        } else {
            None
        },
    }
}

/// The tile that an agent at `pos` is going to with `next_move`.
pub open spec fn destination(pos: Position, next_move: NextMove) -> NextPosition {
    NextPosition { x: moved(pos, next_move).0 as usize, y: moved(pos, next_move).1 as usize }
}

/// Whether the human's move breaks strict guidance, which tells the move
/// `told`: where the told move is open, every other move breaks it; where it
/// is not, every move but `Interact` does.
pub open spec fn strays(human_move: NextMove, told: NextMove, valid: Seq<NextMove>) -> bool {
    if valid.contains(told) {
        human_move != told
    } else {
        human_move != NextMove::Interact
    }
}

/// `n` counted up by one if `counted`.
pub open spec fn counted_up(n: u32, counted: bool) -> u32 {
    if counted {
        (n + 1) as u32
    } else {
        n
    }
}

impl Actor {
    /// The agent after its move in a step, given its progress after it.
    pub open spec fn stepped(self, next_move: NextMove, progress: BurgerProgress) -> Actor {
        Actor {
            pos: self.pos,
            next_pos: destination(self.pos, next_move),
            interact: self.interact.after(next_move, self.pos),
            progress,
        }
    }
}

impl GameView {
    /// The state that the graph reaches from `state` on the observation
    /// `obs`: it follows the observation and then the environment.
    pub open spec fn observed_target(self, state: StateView, obs: Seq<char>) -> Option<StateView> {
        match self.obs_target(state, obs) {
            Some(prob_state) => self.env_target(prob_state),
            None => None,
        }
    }
}

impl SessionView {
    /// No counter of the session is at its limit.
    pub open spec fn counters_fit(self) -> bool {
        &&& self.step_counter < u32::MAX
        &&& self.results.steps_taken < u32::MAX
        &&& self.results.safety_violated < u32::MAX
        &&& self.results.human_burgers < u32::MAX
        &&& self.results.robot_burgers < u32::MAX
        &&& self.player.progress.assembled < u32::MAX
        &&& self.robot.progress.assembled < u32::MAX
    }

    /// The human's interaction state after a step with `human_move`.
    pub open spec fn human_after(self, human_move: NextMove) -> Interact {
        self.player.interact.after(human_move, self.player.pos)
    }

    /// The robot's interaction state after a step with `robot_move`.
    pub open spec fn robot_after(self, robot_move: NextMove) -> Interact {
        self.robot.interact.after(robot_move, self.robot.pos)
    }

    /// The human's progress after a step: at a workstation after the step,
    /// the human gets what the tile under it gives; the sauce only while the
    /// robot is not at its own sauce tile's workstation.
    pub open spec fn human_progress(self, robot_move: NextMove, human_move: NextMove)
        -> BurgerProgress {
        if self.human_after(human_move).engaged() {
            self.player.progress.after_human_station(
                self.player.pos,
                self.robot_after(robot_move).engaged() && self.robot.pos.at(SAUCE_POS_R),
            )
        } else {
            self.player.progress
        }
    }

    /// The robot's progress after a step: at a workstation after the step,
    /// the robot gets what the tile under it gives; the sauce only while the
    /// human is at its sauce tile's workstation.
    pub open spec fn robot_progress(self, robot_move: NextMove, human_move: NextMove)
        -> BurgerProgress {
        if self.robot_after(robot_move).engaged() {
            self.robot.progress.after_robot_station(
                self.robot.pos,
                self.human_after(human_move).engaged() && self.player.pos.at(SAUCE_POS_H),
            )
        } else {
            self.robot.progress
        }
    }

    /// The human's observation in a step with `human_move`: taken where the
    /// human is going, in its interaction state after the step.
    pub open spec fn step_observation(self, game: GameView, human_move: NextMove) -> Seq<char> {
        let going = destination(self.player.pos, human_move);
        observation(
            Position { x: going.x, y: going.y },
            self.human_after(human_move),
            game.human_ap,
        )
    }

    /// Whether a step violates the advisers. In strict guidance the human's
    /// move is held against the told move. In the other modes the observation
    /// is held against the active safety guards.
    pub open spec fn violates(self, human_move: NextMove, valid: Seq<NextMove>, obs: Seq<char>)
        -> bool {
        if self.adviser_mode == AdviserMode::NextMove {
            strays(human_move, self.advisers.next_move, valid)
        } else {
            guards_admit(self.advisers.safety, obs)
        }
    }

    /// The session after a step that went through: both moves are used up,
    /// the agents are on their way, the graph stands at `next_state`, the
    /// steps and burgers are counted, and the animation timer is rewound. A
    /// violation is counted and marked, sets the step counter back and starts
    /// the fade in place of the animation.
    pub open spec fn stepped(
        self,
        robot_move: NextMove,
        human_move: NextMove,
        next_state: StateView,
        violated: bool,
    ) -> SessionView {
        SessionView {
            study_state: if violated {
                StudyState::FadeAway
            } else {
                StudyState::Animation
            },
            step_counter: if violated {
                0
            } else {
                (self.step_counter + 1) as u32
            },
            anim_timer: Timer::fresh(
                if violated {
                    FADE_DURATION
                } else {
                    ANIM_DURATION
                },
            ),
            results: GameResults {
                steps_taken: (self.results.steps_taken + 1) as u32,
                safety_violated: counted_up(self.results.safety_violated, violated),
                human_burgers: counted_up(
                    self.results.human_burgers,
                    self.human_after(human_move).engaged() && self.player.pos.at(DELIVERY_POS_H) && self.player.progress.complete(),
                ),
                robot_burgers: counted_up(
                    self.results.robot_burgers,
                    self.robot_after(robot_move).engaged() && self.robot.pos.at(DELIVERY_POS_R) && self.robot.progress.complete(),
                ),
                ..self.results
            },
            game_state: next_state,
            next_move_r: None,
            next_move_h: None,
            violated: self.violated || violated,
            player: self.player.stepped(human_move, self.human_progress(robot_move, human_move)),
            robot: self.robot.stepped(robot_move, self.robot_progress(robot_move, human_move)),
            ..self
        }
    }

    /// What a step with the moves `robot_move` and `human_move` leads to,
    /// `valid` being the moves open to the human. The graph follows the
    /// human's observation and then the environment.
    pub open spec fn resolved_with(
        self,
        game: GameView,
        robot_move: NextMove,
        human_move: NextMove,
        valid: Seq<NextMove>,
    ) -> Result<SessionView, ConfigFault> {
        let obs = self.step_observation(game, human_move);
        if robot_move == NextMove::Interact && !self.robot.interact.engaged() && interact_anchor(
            self.robot.pos,
        ) is None {
            Err(ConfigFault::NoInteractingPos)
        } else if !move_in_bounds(self.robot.pos, robot_move) {
            Err(ConfigFault::OffGrid)
        } else {
            match game.observed_target(self.game_state, obs) {
                None => Err(ConfigFault::NoNextState),
                Some(next_state) => if self.adviser_mode != AdviserMode::NextMove && !guards_fit(
                    self.advisers.safety,
                    obs,
                ) {
                    Err(ConfigFault::GuardWidth)
                } else {
                    Ok(
                        self.stepped(
                            robot_move,
                            human_move,
                            next_state,
                            self.violates(human_move, valid, obs),
                        ),
                    )
                },
            }
        }
    }

    /// What resolving leads to. Nothing changes unless the session is idle, a
    /// robot move waits and the human has a move to make.
    pub open spec fn resolution(self, game: GameView) -> Result<SessionView, ConfigFault> {
        if self.study_state != StudyState::Idle || self.next_move_r is None {
            Ok(self)
        } else {
            match human_moves(self.player.pos, self.player.interact) {
                None => Err(ConfigFault::NoHumanMoves),
                Some(valid) => match human_choice(self.next_move_h, valid) {
                    None => Ok(self),
                    Some(human_move) => self.resolved_with(
                        game,
                        self.next_move_r.unwrap(),
                        human_move,
                        valid,
                    ),
                },
            }
        }
    }
}

/// A move open to the human keeps it on the grid, and if it is `Interact`
/// outside an interaction, the human stands at a workstation.
pub proof fn lemma_human_move_safe(pos: Position, interact: Interact, next_move: NextMove)
    requires
        human_moves(pos, interact) is Some,
        human_moves(pos, interact).unwrap().contains(next_move),
    ensures
        move_in_bounds(pos, next_move),
        next_move == NextMove::Interact && !interact.engaged() ==> interact_anchor(pos) is Some,
{
    let valid = human_moves(pos, interact).unwrap();
    let i = choose|i: int| 0 <= i < valid.len() && valid[i] == next_move;
    assert(valid[i] == next_move);
}

/// A step that violates the advisers leads back to the start: once the fade
/// that follows it has run and the session has settled, it is idle, both
/// agents are exactly as at the start of the session, the graph is at its
/// initial state and no move waits.
pub proof fn lemma_violation_resets(session: SessionView, game: GameView, delta: u64)
    requires
        session.study_state == StudyState::Idle,
        session.resolution(game) is Ok,
        session.resolution(game).unwrap().study_state == StudyState::FadeAway,
        delta >= FADE_DURATION,
    ensures
        ({
            let after = session.resolution(game).unwrap().ticked(delta).settled(game.init);
            &&& after.study_state == StudyState::Idle
            &&& after.game_state == game.init
            &&& after.player == Actor::starting(HUMAN_START)
            &&& after.robot == Actor::starting(ROBOT_START)
            &&& after.next_move_r is None
            &&& after.next_move_h is None
            &&& !after.violated
        }),
{
}

impl Session {
    /// Whether no counter of the session is at its limit.
    pub fn has_headroom(&self) -> (fits: bool)
        ensures
            fits == self@.counters_fit(),
    {
        self.step_counter.0 < u32::MAX && self.game_results.steps_taken < u32::MAX
            && self.game_results.safety_violated < u32::MAX && self.game_results.human_burgers
            < u32::MAX && self.game_results.robot_burgers < u32::MAX
            && self.player.progress.assembled < u32::MAX && self.robot.progress.assembled
            < u32::MAX
    }
}

/// The moves of a step: the robot's, the human's, and the moves that were
/// open to the human.
struct StepMoves {
    robot_move: NextMove,
    human_move: NextMove,
    valid_moves: Vec<NextMove>,
}

/// Picks the moves of the step, if a step is due.
fn pick_moves(session: &Session) -> (picked: Result<Option<StepMoves>, ConfigFault>)
    ensures
        picked matches Err(fault) ==> fault == ConfigFault::NoHumanMoves && session@.study_state
            == StudyState::Idle && session@.next_move_r is Some && human_moves(
            session@.player.pos,
            session@.player.interact,
        ) is None,
        picked matches Ok(None) ==> session@.study_state != StudyState::Idle
            || session@.next_move_r is None || (human_moves(
            session@.player.pos,
            session@.player.interact,
        ) matches Some(valid) && human_choice(session@.next_move_h, valid) is None),
        picked matches Ok(Some(moves)) ==> session@.study_state == StudyState::Idle
            && session@.next_move_r == Some(moves.robot_move) && human_moves(
            session@.player.pos,
            session@.player.interact,
        ) == Some(moves.valid_moves@) && human_choice(session@.next_move_h, moves.valid_moves@)
            == Some(moves.human_move) && moves.valid_moves@.contains(moves.human_move),
{
    if session.study_state != StudyState::Idle {
        return Ok(None);
    }
    let robot_move = match session.next_move_r {
        Some(m) => m.0,
        None => {
            return Ok(None);
        },
    };
    if !has_human_moves(&session.player.pos, &session.player.interact) {
        return Err(ConfigFault::NoHumanMoves);
    }
    let valid_moves = valid_human_moves(&session.player.pos, &session.player.interact);
    let human_move = match session.next_move_h {
        Some(m) => {
            if moves_contain(&valid_moves, m.0) {
                m.0
            } else {
                valid_moves[0]
            }
        },
        None => {
            if valid_moves.len() == 1 {
                valid_moves[0]
            } else {
                return Ok(None);
            }
        },
    };
    Ok(Some(StepMoves { robot_move, human_move, valid_moves }))
}

/// Both agents after their moves, and whether each delivered a burger.
struct SteppedActors {
    player: Actor,
    robot: Actor,
    human_made: bool,
    robot_made: bool,
}

/// Applies both moves to the agents' interactions, progress and positions.
fn step_actors(session: &Session, robot_move: NextMove, human_move: NextMove) -> (stepped: Result<
    SteppedActors,
    ConfigFault,
>)
    requires
        session@.counters_fit(),
        move_in_bounds(session.player.pos, human_move),
        human_move == NextMove::Interact && !session.player.interact.engaged() ==> interact_anchor(
            session.player.pos,
        ) is Some,
    ensures
        stepped matches Err(fault) ==> fault == (if robot_move == NextMove::Interact
            && !session.robot.interact.engaged() && interact_anchor(session.robot.pos) is None {
            ConfigFault::NoInteractingPos
        } else {
            ConfigFault::OffGrid
        }),
        stepped is Err <==> (robot_move == NextMove::Interact && !session.robot.interact.engaged()
            && interact_anchor(session.robot.pos) is None) || !move_in_bounds(
            session.robot.pos,
            robot_move,
        ),
        stepped matches Ok(actors) ==> actors.player == session@.player.stepped(
            human_move,
            session@.human_progress(robot_move, human_move),
        ) && actors.robot == session@.robot.stepped(
            robot_move,
            session@.robot_progress(robot_move, human_move),
        ) && actors.human_made == (session@.human_after(human_move).engaged()
            && session.player.pos.at(DELIVERY_POS_H) && session.player.progress.complete())
            && actors.robot_made == (session@.robot_after(robot_move).engaged()
            && session.robot.pos.at(DELIVERY_POS_R) && session.robot.progress.complete()),
{
    let cur_pos_h = session.player.pos;
    let cur_pos_r = session.robot.pos;

    // interaction
    let interact_h = session.player.interact.step(human_move, &cur_pos_h);
    if robot_move == NextMove::Interact && !session.robot.interact.is_engaged() && !at_workstation(
        &cur_pos_r,
    ) {
        return Err(ConfigFault::NoInteractingPos);
    }
    let interact_r = session.robot.interact.step(robot_move, &cur_pos_r);

    // burger status
    let mut progress_h = session.player.progress;
    let mut human_made = false;
    if interact_h.is_engaged() {
        let robot_sauce_interact = interact_r.is_engaged() && cur_pos_r.is_equal(SAUCE_POS_R);
        human_made = update_burger_status_h(&mut progress_h, &cur_pos_h, robot_sauce_interact);
    }
    let mut progress_r = session.robot.progress;
    let mut robot_made = false;
    if interact_r.is_engaged() {
        let human_sauce_help = interact_h.is_engaged() && cur_pos_h.is_equal(SAUCE_POS_H);
        robot_made = update_burger_status_r(&mut progress_r, &cur_pos_r, human_sauce_help);
    }

    // grid positions
    if !can_move(&cur_pos_r, robot_move) {
        return Err(ConfigFault::OffGrid);
    }
    let next_pos_r = next_pos_from_move(&cur_pos_r, robot_move);
    let next_pos_h = next_pos_from_move(&cur_pos_h, human_move);
    Ok(
        SteppedActors {
            player: Actor {
                pos: cur_pos_h,
                next_pos: next_pos_h,
                interact: interact_h,
                progress: progress_h,
            },
            robot: Actor {
                pos: cur_pos_r,
                next_pos: next_pos_r,
                interact: interact_r,
                progress: progress_r,
            },
            human_made,
            robot_made,
        },
    )
}

impl SynthGame {
    /// The state that the graph reaches from `cur_state` on the observation
    /// `obs`: it follows the observation and then the environment.
    pub fn follow_observation(&self, cur_state: &GraphState, obs: &String) -> (next: Option<
        GraphState,
    >)
        ensures
            next is Some <==> self@.observed_target(cur_state@, obs@) is Some,
            next matches Some(state) ==> self@.observed_target(cur_state@, obs@) == Some(state@),
    {
        match self.find_obs_edge(cur_state, obs) {
            None => None,
            Some(i) => {
                match self.find_prob_edge(&self.links[i].target) {
                    None => None,
                    Some(k) => {
                        Some(clone_state(&self.links[k].target))
                    },
                }
            },
        }
    }
}

/// Checks a step against the advisers; `None` where an active safety guard
/// has another width than the observation.
fn check_advisers(
    session: &Session,
    human_move: NextMove,
    valid_moves: &Vec<NextMove>,
    obs: &String,
) -> (violated: Option<bool>)
    ensures
        violated is None <==> session@.adviser_mode != AdviserMode::NextMove && !guards_fit(
            session@.advisers.safety,
            obs@,
        ),
        violated matches Some(v) ==> v == session@.violates(human_move, valid_moves@, obs@),
{
    match session.adviser_mode {
        AdviserMode::NextMove => {
            if moves_contain(valid_moves, session.active_advisers.next_move) {
                Some(human_move != session.active_advisers.next_move)
            } else {
                Some(human_move != NextMove::Interact)
            }
        },
        _ => match_guards(&session.active_advisers.safety, obs),
    }
}

/// Writes the outcome of a step into the session.
fn commit_step(
    session: &mut Session,
    actors: SteppedActors,
    next_state: GraphState,
    reset_necessary: bool,
)
    requires
        old(session)@.counters_fit(),
    ensures
        final(session)@ == (SessionView {
            study_state: if reset_necessary {
                StudyState::FadeAway
            } else {
                StudyState::Animation
            },
            step_counter: if reset_necessary {
                0
            } else {
                (old(session)@.step_counter + 1) as u32
            },
            anim_timer: Timer::fresh(
                if reset_necessary {
                    FADE_DURATION
                } else {
                    ANIM_DURATION
                },
            ),
            results: GameResults {
                steps_taken: (old(session)@.results.steps_taken + 1) as u32,
                safety_violated: counted_up(old(session)@.results.safety_violated, reset_necessary),
                human_burgers: counted_up(old(session)@.results.human_burgers, actors.human_made),
                robot_burgers: counted_up(old(session)@.results.robot_burgers, actors.robot_made),
                ..old(session)@.results
            },
            game_state: next_state@,
            next_move_r: None,
            next_move_h: None,
            violated: old(session)@.violated || reset_necessary,
            player: actors.player,
            robot: actors.robot,
            ..old(session)@
        }),
{
    session.next_move_h = None;
    session.next_move_r = None;
    session.anim_timer.0.reset();
    session.game_results.steps_taken += 1;
    session.step_counter.0 += 1;
    session.player = actors.player;
    session.robot = actors.robot;
    if actors.human_made {
        session.game_results.human_burgers += 1;
    }
    if actors.robot_made {
        session.game_results.robot_burgers += 1;
    }
    session.synth_game_state.0 = next_state;
    if reset_necessary {
        session.game_results.safety_violated += 1;
        session.is_violated = Some(SafetyViolated);
        session.anim_timer.0.set_duration(FADE_DURATION);
        session.study_state = StudyState::FadeAway;
        session.step_counter.0 = 0;
    } else {
        session.anim_timer.0.set_duration(ANIM_DURATION);
        session.study_state = StudyState::Animation;
    }
}

/// Resolves a step if the session is idle, a robot move waits and the human
/// has a move to make; else nothing changes. Fails, changing nothing, where
/// the layout or the graph leaves the step undefined.
pub fn resolve_moves(session: &mut Session, synth_game: &SynthGame) -> (done: Result<
    (),
    ConfigFault,
>)
    requires
        old(session)@.counters_fit(),
    ensures
        done is Ok ==> old(session)@.resolution(synth_game@) == Ok::<SessionView, ConfigFault>(
            final(session)@,
        ),
        done matches Err(fault) ==> old(session)@.resolution(synth_game@) == Err::<
            SessionView,
            ConfigFault,
        >(fault) && *final(session) == *old(session),
{
    let moves = match pick_moves(session) {
        Err(fault) => {
            return Err(fault);
        },
        Ok(None) => {
            return Ok(());
        },
        Ok(Some(moves)) => moves,
    };
    proof {
        lemma_human_move_safe(session.player.pos, session.player.interact, moves.human_move);
    }
    let actors = match step_actors(session, moves.robot_move, moves.human_move) {
        Err(fault) => {
            return Err(fault);
        },
        Ok(actors) => actors,
    };
    let obs = obs_from_pos(
        actors.player.next_pos.as_pos(),
        &actors.player.interact,
        &synth_game.graph.human_ap,
    );
    let next_state = match synth_game.follow_observation(&session.synth_game_state.0, &obs) {
        None => {
            return Err(ConfigFault::NoNextState);
        },
        Some(state) => state,
    };
    let reset_necessary = match check_advisers(session, moves.human_move, &moves.valid_moves, &obs) {
        None => {
            return Err(ConfigFault::GuardWidth);
        },
        Some(violated) => violated,
    };
    commit_step(session, actors, next_state, reset_necessary);
    Ok(())
}

} // verus!

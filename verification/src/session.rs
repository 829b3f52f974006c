//! The state of a running session and the steps that do not touch the graph:
//! starting, ticking the timers, taking the human's input, and settling after
//! an animation or a fade.

use crate::advisers::{ActiveAdvisers, AdvisersView};
use crate::clock::{AnimationTimer, GameTimer, Timer, ANIM_DURATION, GAME_DURATION};
use crate::graph::{clone_state, GraphState, StateView, SynthGame, SynthGameState};
use crate::grid::{
    NextPosition, Position, BUNS_POS_H, DELIVERY_POS_H, HUMAN_START, LETTUCE_POS_H, PATTY_POS_H,
    ROBOT_START, SAUCE_POS_H, TOMATO_POS_H,
};
use crate::interact::Interact;
use crate::moves::{HumanNextMove, NextMove, RobotNextMove};
use crate::progress::BurgerProgress;
use crate::results::{AdviserMode, GameResults};
use rand::Rng;
use vstd::prelude::*;

verus! {

/// Whether the session accepts the next step.
#[derive(Debug, Copy, Clone, PartialEq, Eq, Hash, Structural)]
pub enum StudyState {
    /// Ready for the next step.
    Idle,
    /// The animation of a step is running.
    Animation,
    /// The fade after a violation is running.
    FadeAway,
}

/// The stages of the application around a session.
#[derive(Debug, Copy, Clone, PartialEq, Eq, Hash, Structural)]
pub enum AppState {
    AssetLoading,
    JsonLoading,
    MenuStart,
    Study,
    End,
}

/// The steps taken since the session started or was last reset.
#[derive(Debug, Copy, Clone, PartialEq, Eq, Structural)]
pub struct StepCounter(pub u32);

/// The mark that the last step violated an adviser.
#[derive(Debug, Copy, Clone, PartialEq, Eq, Structural)]
pub struct SafetyViolated;

/// The keys that went down since the last frame.
#[derive(Debug, Copy, Clone, PartialEq, Eq, Structural)]
pub struct KeysPressed {
    pub left: bool,
    pub right: bool,
    pub up: bool,
    pub down: bool,
    pub space: bool,
}

/// One agent: where it stands, where it is going, its interaction and its
/// progress.
#[derive(Debug, Copy, Clone, PartialEq, Eq, Structural)]
pub struct Actor {
    pub pos: Position,
    pub next_pos: NextPosition,
    pub interact: Interact,
    pub progress: BurgerProgress,
}

impl Actor {
    /// An agent at the start of a session, standing on `tile`.
    pub open spec fn starting(tile: (usize, usize)) -> Actor {
        Actor {
            pos: Position { x: tile.0, y: tile.1 },
            next_pos: NextPosition { x: tile.0, y: tile.1 },
            interact: Interact::No,
            progress: BurgerProgress::fresh(),
        }
    }

    /// The agent once its move is over: it stands where it was going.
    pub open spec fn arrived(self) -> Actor {
        Actor { pos: Position { x: self.next_pos.x, y: self.next_pos.y }, ..self }
    }

    /// An agent at the start of a session, standing on `tile`.
    pub fn new(tile: (usize, usize)) -> (actor: Actor)
        ensures
            actor == Actor::starting(tile),
    {
        Actor {
            pos: Position { x: tile.0, y: tile.1 },
            next_pos: NextPosition { x: tile.0, y: tile.1 },
            interact: Interact::No,
            progress: BurgerProgress::default(),
        }
    }
}

/// Everything that changes while a session runs.
#[derive(Debug, PartialEq, Eq)]
pub struct Session {
    pub study_state: StudyState,
    pub step_counter: StepCounter,
    pub anim_timer: AnimationTimer,
    pub game_timer: GameTimer,
    pub active_advisers: ActiveAdvisers,
    pub adviser_mode: AdviserMode,
    pub game_results: GameResults,
    pub synth_game_state: SynthGameState,
    /// The robot's planned move, if one is waiting.
    pub next_move_r: Option<RobotNextMove>,
    /// The human's requested move, if one is waiting.
    pub next_move_h: Option<HumanNextMove>,
    /// Set from a violating step until the reset that follows it.
    pub is_violated: Option<SafetyViolated>,
    pub player: Actor,
    pub robot: Actor,
}

/// A session as mathematical data: what the steps are stated over.
pub struct SessionView {
    pub study_state: StudyState,
    pub step_counter: u32,
    pub anim_timer: Timer,
    pub game_timer: Timer,
    pub advisers: AdvisersView,
    pub adviser_mode: AdviserMode,
    pub results: GameResults,
    pub game_state: StateView,
    pub next_move_r: Option<NextMove>,
    pub next_move_h: Option<NextMove>,
    pub violated: bool,
    pub player: Actor,
    pub robot: Actor,
}

impl View for Session {
    type V = SessionView;

    open spec fn view(&self) -> SessionView {
        SessionView {
            study_state: self.study_state,
            step_counter: self.step_counter.0,
            anim_timer: self.anim_timer.0,
            game_timer: self.game_timer.0,
            advisers: self.active_advisers@,
            adviser_mode: self.adviser_mode,
            results: self.game_results,
            game_state: self.synth_game_state.0@,
            next_move_r: match self.next_move_r {
                Some(m) => Some(m.0),
                None => None,
            },
            next_move_h: match self.next_move_h {
                Some(m) => Some(m.0),
                None => None,
            },
            violated: self.is_violated is Some,
            player: self.player,
            robot: self.robot,
        }
    }
}

/// The results record of a session that has just started.
pub open spec fn opening_results(participant_id: i32, adviser_mode: AdviserMode) -> GameResults {
    GameResults {
        participant_id,
        adviser_mode: adviser_mode.num(),
        steps_taken: 0,
        safety_violated: 0,
        human_burgers: 0,
        robot_burgers: 0,
    }
}

/// The move that the keys ask for, for a human standing at `pos`; the key
/// named last wins where several went down at once. Left asks to interact at
/// the delivery tile and to go left elsewhere; right and up ask for their
/// direction; down asks to interact at an ingredient tile and to go down
/// elsewhere; space asks to idle.
pub open spec fn requested_move(pos: Position, keys: KeysPressed) -> Option<NextMove> {
    if keys.space {
        Some(NextMove::Idle)
    } else if keys.down {
        if pos.at(PATTY_POS_H) || pos.at(BUNS_POS_H) || pos.at(LETTUCE_POS_H) || pos.at(SAUCE_POS_H)
            || pos.at(TOMATO_POS_H) {
            Some(NextMove::Interact)
        } else {
            Some(NextMove::Down)
        }
    } else if keys.up {
        Some(NextMove::Up)
    } else if keys.right {
        Some(NextMove::Right)
    } else if keys.left {
        if pos.at(DELIVERY_POS_H) {
            Some(NextMove::Interact)
        } else {
            Some(NextMove::Left)
        }
    } else {
        None
    }
}

impl SessionView {
    /// A session that has just started at the graph state `init`.
    pub open spec fn opening(participant_id: i32, adviser_mode: AdviserMode, init: StateView)
        -> SessionView {
        SessionView {
            study_state: StudyState::Idle,
            step_counter: 0,
            anim_timer: Timer::fresh(ANIM_DURATION),
            game_timer: Timer::fresh(GAME_DURATION),
            advisers: AdvisersView::inactive(),
            adviser_mode,
            results: opening_results(participant_id, adviser_mode),
            game_state: init,
            next_move_r: None,
            next_move_h: None,
            violated: false,
            player: Actor::starting(HUMAN_START),
            robot: Actor::starting(ROBOT_START),
        }
    }

    /// The session after `delta` more time on both timers.
    pub open spec fn ticked(self, delta: u64) -> SessionView {
        SessionView {
            anim_timer: self.anim_timer.ticked(delta),
            game_timer: self.game_timer.ticked(delta),
            ..self
        }
    }

    /// The session after the keys `keys`: the move they ask for waits to be
    /// resolved; where they ask for none, the move that waited stays.
    pub open spec fn asked(self, keys: KeysPressed) -> SessionView {
        match requested_move(self.player.pos, keys) {
            Some(m) => SessionView { next_move_h: Some(m), ..self },
            None => self,
        }
    }

    /// The session after the check that follows each step. While the
    /// animation timer runs nothing changes. Once it is finished the session
    /// is idle again, and after a violation both agents are as at the start
    /// of the session, the graph is back at `init`, and no move waits. The
    /// results record keeps what it has counted.
    pub open spec fn settled(self, init: StateView) -> SessionView {
        if !self.anim_timer.finished {
            self
        } else if !self.violated {
            SessionView { study_state: StudyState::Idle, ..self }
        } else {
            SessionView {
                study_state: StudyState::Idle,
                player: Actor::starting(HUMAN_START),
                robot: Actor::starting(ROBOT_START),
                game_state: init,
                violated: false,
                next_move_r: None,
                next_move_h: None,
                ..self
            }
        }
    }

    /// The session with both agents moved on to where they were going, once
    /// the animation timer is finished.
    pub open spec fn arrived(self) -> SessionView {
        if self.anim_timer.finished {
            SessionView { player: self.player.arrived(), robot: self.robot.arrived(), ..self }
        } else {
            self
        }
    }
}

/// `gen_range` of rand on `thread_rng()`, with the half-open range from `low`
/// to `high`: some number of that range, which may differ from call to call.
/// An empty range makes `gen_range` panic, so it is left out.
#[verifier::external_body]
fn random_below(low: i32, high: i32) -> (drawn: i32)
    requires
        low < high,
    ensures
        low <= drawn < high,
{
    rand::thread_rng().gen_range(low..high)
}

impl Session {
    /// A session that has just started, for the participant `participant_id`,
    /// at the initial state of `synth_game`.
    pub fn new(participant_id: i32, adviser_mode: AdviserMode, synth_game: &SynthGame) -> (session:
        Session)
        ensures
            session@ == SessionView::opening(participant_id, adviser_mode, synth_game@.init),
    {
        Session {
            study_state: StudyState::Idle,
            step_counter: StepCounter(0),
            anim_timer: AnimationTimer(Timer::new(ANIM_DURATION)),
            game_timer: GameTimer(Timer::new(GAME_DURATION)),
            active_advisers: ActiveAdvisers::default(),
            adviser_mode,
            game_results: GameResults {
                participant_id,
                adviser_mode: adviser_mode.to_num(),
                steps_taken: 0,
                safety_violated: 0,
                human_burgers: 0,
                robot_burgers: 0,
            },
            synth_game_state: SynthGameState(clone_state(&synth_game.graph.init)),
            next_move_r: None,
            next_move_h: None,
            is_violated: None,
            player: Actor::new(HUMAN_START),
            robot: Actor::new(ROBOT_START),
        }
    }
}

/// Lowest participant number.
pub const PARTICIPANT_ID_MIN: i32 = 100000;

/// The participant numbers end below this one.
pub const PARTICIPANT_ID_END: i32 = 999999;

/// Starts a session under `adviser_mode` at the initial state of
/// `synth_game`, for a participant whose number is drawn at random.
pub fn setup_study(adviser_mode: AdviserMode, synth_game: &SynthGame) -> (session: Session)
    ensures
        PARTICIPANT_ID_MIN <= session.game_results.participant_id < PARTICIPANT_ID_END,
        session@ == SessionView::opening(
            session.game_results.participant_id,
            adviser_mode,
            synth_game@.init,
        ),
{
    let participant_id = random_below(PARTICIPANT_ID_MIN, PARTICIPANT_ID_END);
    Session::new(participant_id, adviser_mode, synth_game)
}

/// Advances both timers by `delta`, and says where the application goes
/// next: to its end once the session's time is over, else nowhere.
pub fn tick_timers(session: &mut Session, delta: u64) -> (next: Option<AppState>)
    ensures
        final(session)@ == old(session)@.ticked(delta),
        next == if final(session)@.game_timer.finished {
            Some(AppState::End)
        } else {
            None
        },
{
    session.anim_timer.0.tick(delta);
    session.game_timer.0.tick(delta);
    if session.game_timer.0.finished() {
        Some(AppState::End)
    } else {
        None
    }
}

/// Takes the human's key presses: the move they ask for waits to be resolved.
pub fn prepare_human_move(session: &mut Session, keys: &KeysPressed)
    ensures
        final(session)@ == old(session)@.asked(*keys),
{
    let mut next_move: Option<NextMove> = None;
    let cur_pos = session.player.pos;
    if keys.left {
        if cur_pos.is_equal(DELIVERY_POS_H) {
            next_move = Some(NextMove::Interact);
        } else {
            next_move = Some(NextMove::Left);
        }
    }
    if keys.right {
        next_move = Some(NextMove::Right);
    }
    if keys.up {
        next_move = Some(NextMove::Up);
    }
    if keys.down {
        if cur_pos.is_equal(PATTY_POS_H) || cur_pos.is_equal(BUNS_POS_H) || cur_pos.is_equal(
            LETTUCE_POS_H,
        ) || cur_pos.is_equal(SAUCE_POS_H) || cur_pos.is_equal(TOMATO_POS_H) {
            next_move = Some(NextMove::Interact);
        } else {
            next_move = Some(NextMove::Down);
        }
    }
    if keys.space {
        next_move = Some(NextMove::Idle);
    }
    if let Some(m) = next_move {
        session.next_move_h = Some(HumanNextMove(m));
    }
}

/// Checks whether the animation or fade is over. If it is, the session is
/// idle again, and after a violation it is put back to its start: both agents
/// on their start tiles, outside any interaction and with the progress of a
/// new session, the graph at its initial state, no move waiting.
pub fn update_animation_state(session: &mut Session, synth_game: &SynthGame)
    ensures
        final(session)@ == old(session)@.settled(synth_game@.init),
{
    if session.anim_timer.0.finished() {
        session.study_state = StudyState::Idle;
        if session.is_violated.is_some() {
            session.player = Actor::new(HUMAN_START);
            session.robot = Actor::new(ROBOT_START);
            session.synth_game_state.0 = clone_state(&synth_game.graph.init);
            session.is_violated = None;
            session.next_move_r = None;
            session.next_move_h = None;
        }
    }
}

/// Moves both agents on to where they were going, once the animation timer
/// is finished.
pub fn settle_positions(session: &mut Session)
    ensures
        final(session)@ == old(session)@.arrived(),
{
    if session.anim_timer.0.finished() {
        session.player.pos = session.player.next_pos.as_pos();
        session.robot.pos = session.robot.next_pos.as_pos();
    }
}

/// After the reset that follows a violation, both agents are exactly as at
/// the start of the session: on their start tiles, outside any interaction,
/// with no ingredient collected and no burger delivered. The graph is at its
/// initial state and no move waits.
pub proof fn lemma_reset_restores_start(session: SessionView, init: StateView)
    requires
        session.anim_timer.finished,
        session.violated,
    ensures
        session.settled(init).study_state == StudyState::Idle,
        session.settled(init).game_state == init,
        session.settled(init).player == Actor::starting(HUMAN_START),
        session.settled(init).robot == Actor::starting(ROBOT_START),
        session.settled(init).player.progress == BurgerProgress::fresh(),
        session.settled(init).robot.progress == BurgerProgress::fresh(),
        session.settled(init).next_move_r is None,
        session.settled(init).next_move_h is None,
        !session.settled(init).violated,
        session.settled(init).results == session.results,
{
}

} // verus!

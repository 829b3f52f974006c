//! The advisers that are active at the current state, and the scripted moves
//! that stand beside the strategy.

use crate::fault::ConfigFault;
use crate::graph::{state_eq, GraphState, StateView};
use crate::guard::{guards_admit, guards_fit, match_guards, Guards};
use crate::moves::NextMove;
use crate::results::AdviserMode;
use crate::strategy::{AdviserView, Strategy, StrategyView};
use crate::text::same_text;
use vstd::prelude::*;

verus! {

/// Length of the scripted cycle of human moves.
pub const MOVE_CYCLE: u32 = 24;

/// The scripted cycle of human moves shown in strict guidance: fetch buns,
/// patty, sauce (after helping the robot with it), lettuce and tomato, then
/// deliver.
pub open spec fn move_cycle() -> Seq<NextMove> {
    seq![
        NextMove::Down,
        NextMove::Left,
        NextMove::Down,
        NextMove::Left,
        NextMove::Left,
        NextMove::Down,
        NextMove::Right,
        NextMove::Right,
        NextMove::Right,
        NextMove::Right,
        NextMove::Down,
        NextMove::Down,
        NextMove::Down,
        NextMove::Right,
        NextMove::Right,
        NextMove::Down,
        NextMove::Left,
        NextMove::Left,
        NextMove::Left,
        NextMove::Down,
        NextMove::Up,
        NextMove::Up,
        NextMove::Left,
        NextMove::Down,
    ]
}

/// The scripted human move after `steps_taken` steps: the cycle's entry at
/// `steps_taken` modulo its length.
pub open spec fn scripted_move(steps_taken: u32) -> NextMove {
    move_cycle()[(steps_taken % MOVE_CYCLE) as int]
}

/// The scripted human move after `steps_taken` steps.
pub fn hardcoded_next_move(steps_taken: u32) -> (next_move: NextMove)
    ensures
        next_move == scripted_move(steps_taken),
{
    match steps_taken % MOVE_CYCLE {
        0 => NextMove::Down,
        1 => NextMove::Left,
        2 => NextMove::Down,
        3 => NextMove::Left,
        4 => NextMove::Left,
        5 => NextMove::Down,
        6 => NextMove::Right,
        7 => NextMove::Right,
        8 => NextMove::Right,
        9 => NextMove::Right,
        10 => NextMove::Down,
        11 => NextMove::Down,
        12 => NextMove::Down,
        13 => NextMove::Right,
        14 => NextMove::Right,
        15 => NextMove::Down,
        16 => NextMove::Left,
        17 => NextMove::Left,
        18 => NextMove::Left,
        19 => NextMove::Down,
        20 => NextMove::Up,
        21 => NextMove::Up,
        22 => NextMove::Left,
        _ => NextMove::Down,
    }
}

/// The scripted move of the robot at an accepting state whose first field
/// is `label`: towards the delivery tile, then interact. Other labels have
/// none.
pub open spec fn delivery_step(label: Seq<char>) -> Option<NextMove> {
    if label == "01"@ || label == "11"@ {
        Some(NextMove::Right)
    } else if label == "21"@ {
        Some(NextMove::Down)
    } else if label == "31"@ || label == "41"@ {
        Some(NextMove::Left)
    } else if label == "01i"@ || label == "11i"@ || label == "21i"@ || label == "31i"@ || label
        == "41i"@ || label == "20"@ || label == "20i"@ {
        Some(NextMove::Interact)
    } else {
        None
    }
}

/// The scripted delivery move for the state label `state`, if it has one.
pub fn find_delivery_move(state: &str) -> (next_move: Option<NextMove>)
    ensures
        next_move == delivery_step(state@),
{
    if same_text(state, "01") || same_text(state, "11") {
        Some(NextMove::Right)
    } else if same_text(state, "21") {
        Some(NextMove::Down)
    } else if same_text(state, "31") || same_text(state, "41") {
        Some(NextMove::Left)
    } else if same_text(state, "01i") || same_text(state, "11i") || same_text(state, "21i")
        || same_text(state, "31i") || same_text(state, "41i") || same_text(state, "20")
        || same_text(state, "20i") {
        Some(NextMove::Interact)
    } else {
        None
    }
}

/// The scripted delivery move for the state label `state`.
pub fn delivery_move(state: &str) -> (next_move: NextMove)
    requires
        delivery_step(state@) is Some,
    ensures
        Some(next_move) == delivery_step(state@),
{
    find_delivery_move(state).unwrap()
}

/// Every entry of `advisers` for `state` holds exactly one guard.
pub open spec fn single_guards(advisers: AdviserView, state: StateView) -> bool {
    forall|i: int|
        0 <= i < advisers.len() && (#[trigger] advisers[i]).0 == state ==> advisers[i].1.len() == 1
}

/// The guard that `entry` contributes at `state`: its one guard, if it is an
/// entry for that state.
pub open spec fn entry_guard(entry: (StateView, Seq<Seq<char>>), state: StateView) -> Option<
    Seq<char>,
> {
    if entry.0 == state && entry.1.len() == 1 {
        Some(entry.1[0])
    } else {
        None
    }
}

/// The guards of `advisers` that hold at `state`, in the order of the entries.
pub open spec fn active_guards(advisers: AdviserView, state: StateView) -> Seq<Seq<char>> {
    advisers.filter_map(|entry: (StateView, Seq<Seq<char>>)| entry_guard(entry, state))
}

/// Collects the guards of `advisers` that hold at `state`; `None` where an
/// entry for `state` holds not exactly one guard.
pub fn guards_at(advisers: &Vec<(GraphState, Guards)>, state: &GraphState) -> (active: Option<
    Vec<String>,
>)
    ensures
        active is Some <==> single_guards(advisers.deep_view(), state@),
        active matches Some(guards) ==> guards.deep_view() == active_guards(
            advisers.deep_view(),
            state@,
        ),
{
    let mut guards: Vec<String> = Vec::new();
    let ghost all = advisers.deep_view();
    let ghost pick = |entry: (StateView, Seq<Seq<char>>)| entry_guard(entry, state@);
    let mut i: usize = 0;
    while i < advisers.len()
        invariant
            i <= advisers.len(),
            all == advisers.deep_view(),
            pick == |entry: (StateView, Seq<Seq<char>>)| entry_guard(entry, state@),
            forall|j: int| 0 <= j < i && (#[trigger] all[j]).0 == state@ ==> all[j].1.len() == 1,
            guards.deep_view() == all.take(i as int).filter_map(pick),
        decreases advisers.len() - i,
    {
        proof {
            all.lemma_filter_map_take_succ(pick, i as int);
        }
        if state_eq(state, &advisers[i].0) {
            if advisers[i].1.len() != 1 {
                return None;
            }
            let guard = advisers[i].1[0].clone();
            guards.push(guard);
        }
        i += 1;
    }
    assert(all.take(advisers.len() as int) =~= all);
    Some(guards)
}

/// The advisers active at the current state: the safety guards the human
/// must not meet, the fairness guards the human should meet, and in strict
/// guidance the one move the human is told to make.
#[derive(Debug, PartialEq, Eq)]
pub struct ActiveAdvisers {
    pub safety: Vec<String>,
    pub fairness: Vec<String>,
    pub next_move: NextMove,
}

/// The active advisers as mathematical data.
pub struct AdvisersView {
    pub safety: Seq<Seq<char>>,
    pub fairness: Seq<Seq<char>>,
    pub next_move: NextMove,
}

impl View for ActiveAdvisers {
    type V = AdvisersView;

    open spec fn view(&self) -> AdvisersView {
        AdvisersView {
            safety: self.safety.deep_view(),
            fairness: self.fairness.deep_view(),
            next_move: self.next_move,
        }
    }
}

impl Default for ActiveAdvisers {
    fn default() -> (advisers: ActiveAdvisers)
        ensures
            advisers@ == AdvisersView::inactive(),
    {
        let advisers = ActiveAdvisers {
            safety: Vec::new(),
            fairness: Vec::new(),
            next_move: NextMove::Idle,
        };
        assert(advisers@.safety =~= Seq::<Seq<char>>::empty());
        assert(advisers@.fairness =~= Seq::<Seq<char>>::empty());
        advisers
    }
}

impl AdvisersView {
    /// No adviser is active, and the told move is to idle.
    pub open spec fn inactive() -> AdvisersView {
        AdvisersView { safety: Seq::empty(), fairness: Seq::empty(), next_move: NextMove::Idle }
    }

    /// The advisers after a refresh at `state`: the guards that the strategy
    /// lists for `state`, and in strict guidance the scripted move after
    /// `steps_taken` steps; in the other modes the told move stays.
    pub open spec fn refreshed(
        self,
        strategy: StrategyView,
        state: StateView,
        adviser_mode: AdviserMode,
        steps_taken: u32,
    ) -> AdvisersView {
        AdvisersView {
            safety: active_guards(strategy.safety_adv, state),
            fairness: active_guards(strategy.fairness_adv, state),
            next_move: if adviser_mode == AdviserMode::NextMove {
                scripted_move(steps_taken)
            } else {
                self.next_move
            },
        }
    }
}

impl StrategyView {
    /// Every adviser entry for `state` holds exactly one guard.
    pub open spec fn single_guards(self, state: StateView) -> bool {
        single_guards(self.safety_adv, state) && single_guards(self.fairness_adv, state)
    }
}

impl ActiveAdvisers {
    /// Drops all active guards.
    pub fn clear_all(&mut self)
        ensures
            final(self)@ == (AdvisersView { next_move: old(self).next_move, ..AdvisersView::inactive() }),
    {
        self.safety.clear();
        self.fairness.clear();
        assert(self@.safety =~= Seq::<Seq<char>>::empty());
        assert(self@.fairness =~= Seq::<Seq<char>>::empty());
    }

    /// Whether the observation `obs` meets an active safety guard. All active
    /// safety guards have the width of `obs`.
    pub fn safety_violated(&self, obs: &String) -> (violated: bool)
        requires
            guards_fit(self@.safety, obs@),
        ensures
            violated == guards_admit(self@.safety, obs@),
    {
        match_guards(&self.safety, obs).unwrap()
    }

    /// Rebuilds the active advisers for `state`: drops the old guards, takes
    /// those that `strategy` lists for `state`, and in strict guidance sets
    /// the told move to the scripted one. Fails, changing nothing, where an
    /// adviser entry for `state` holds not exactly one guard.
    pub fn refresh(
        &mut self,
        strategy: &Strategy,
        state: &GraphState,
        adviser_mode: AdviserMode,
        steps_taken: u32,
    ) -> (done: Result<(), ConfigFault>)
        ensures
            done is Ok <==> strategy@.single_guards(state@),
            done is Ok ==> final(self)@ == old(self)@.refreshed(
                strategy@,
                state@,
                adviser_mode,
                steps_taken,
            ),
            done is Err ==> done == Err::<(), ConfigFault>(ConfigFault::GuardCount) && *final(self)
                == *old(self),
    {
        let safety = match guards_at(&strategy.safety_adv, state) {
            Some(guards) => guards,
            None => {
                return Err(ConfigFault::GuardCount);
            },
        };
        let fairness = match guards_at(&strategy.fairness_adv, state) {
            Some(guards) => guards,
            None => {
                return Err(ConfigFault::GuardCount);
            },
        };
        self.safety = safety;
        self.fairness = fairness;
        if adviser_mode == AdviserMode::NextMove {
            self.next_move = hardcoded_next_move(steps_taken);
        }
        Ok(())
    }
}

/// Refreshing the advisers twice at the same state, with nothing changed in
/// between, gives what refreshing once gives.
pub proof fn lemma_refresh_idempotent(
    advisers: AdvisersView,
    strategy: StrategyView,
    state: StateView,
    adviser_mode: AdviserMode,
    steps_taken: u32,
)
    ensures
        advisers.refreshed(strategy, state, adviser_mode, steps_taken).refreshed(
            strategy,
            state,
            adviser_mode,
            steps_taken,
        ) == advisers.refreshed(strategy, state, adviser_mode, steps_taken),
{
}

} // verus!

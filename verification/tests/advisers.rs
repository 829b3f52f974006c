use study_core::advisers::{
    delivery_move, find_delivery_move, guards_at, hardcoded_next_move, ActiveAdvisers,
};
use study_core::fault::ConfigFault;
use study_core::graph::GraphState;
use study_core::moves::NextMove;
use study_core::results::AdviserMode;
use study_core::strategy::{Strategy, StrategyTable};

fn state(a: &str, b: &str, c: &str) -> GraphState {
    (a.to_string(), b.to_string(), c.to_string())
}

fn texts(items: &[&str]) -> Vec<String> {
    items.iter().map(|s| s.to_string()).collect()
}

fn sample_strategy() -> Strategy {
    Strategy {
        strat: StrategyTable::from_entries(&vec![]),
        safety_adv: vec![
            (state("21", "a", "h"), texts(&["X1"])),
            (state("21", "b", "h"), texts(&["1X"])),
            (state("21", "a", "h"), texts(&["11"])),
            (state("21", "c", "h"), texts(&["00", "11"])),
        ],
        fairness_adv: vec![
            (state("21", "b", "h"), texts(&["0X"])),
            (state("21", "d", "h"), vec![]),
        ],
        guard_ap: texts(&["buns_h", "delivery_h"]),
    }
}

#[test]
fn scripted_moves_follow_the_cycle() {
    let d = NextMove::Down;
    let l = NextMove::Left;
    let r = NextMove::Right;
    let u = NextMove::Up;
    let cycle = [d, l, d, l, l, d, r, r, r, r, d, d, d, r, r, d, l, l, l, d, u, u, l, d];
    for (step, expected) in cycle.iter().enumerate() {
        assert_eq!(hardcoded_next_move(step as u32), *expected);
        assert_eq!(hardcoded_next_move(step as u32 + 24), *expected);
        assert_eq!(hardcoded_next_move(step as u32 + 240), *expected);
    }
    assert_eq!(hardcoded_next_move(u32::MAX), cycle[(u32::MAX % 24) as usize]);
}

#[test]
fn delivery_moves_lead_to_the_delivery_tile() {
    assert_eq!(delivery_move("01"), NextMove::Right);
    assert_eq!(delivery_move("11"), NextMove::Right);
    assert_eq!(delivery_move("21"), NextMove::Down);
    assert_eq!(delivery_move("31"), NextMove::Left);
    assert_eq!(delivery_move("41"), NextMove::Left);
    for label in ["01i", "11i", "21i", "31i", "41i", "20", "20i"] {
        assert_eq!(delivery_move(label), NextMove::Interact);
    }
}

#[test]
fn other_labels_have_no_delivery_move() {
    assert_eq!(find_delivery_move("00"), None);
    assert_eq!(find_delivery_move("22"), None);
    assert_eq!(find_delivery_move(""), None);
    assert_eq!(find_delivery_move("20j"), None);
    assert_eq!(find_delivery_move("21"), Some(NextMove::Down));
}

#[test]
fn guards_at_collects_the_guards_of_the_state_in_order() {
    let strategy = sample_strategy();
    assert_eq!(
        guards_at(&strategy.safety_adv, &state("21", "a", "h")),
        Some(texts(&["X1", "11"]))
    );
    assert_eq!(guards_at(&strategy.safety_adv, &state("21", "b", "h")), Some(texts(&["1X"])));
    assert_eq!(guards_at(&strategy.safety_adv, &state("21", "z", "h")), Some(vec![]));
    assert_eq!(guards_at(&Vec::new(), &state("21", "a", "h")), Some(vec![]));
}

#[test]
fn guards_at_refuses_entries_that_hold_not_one_guard() {
    let strategy = sample_strategy();
    assert_eq!(guards_at(&strategy.safety_adv, &state("21", "c", "h")), None);
    assert_eq!(guards_at(&strategy.fairness_adv, &state("21", "d", "h")), None);
}

#[test]
fn default_advisers_are_inactive() {
    let advisers = ActiveAdvisers::default();
    assert_eq!(
        advisers,
        ActiveAdvisers { safety: vec![], fairness: vec![], next_move: NextMove::Idle }
    );
}

#[test]
fn clear_all_drops_the_guards_and_keeps_the_told_move() {
    let mut advisers = ActiveAdvisers {
        safety: texts(&["X1"]),
        fairness: texts(&["1X", "0X"]),
        next_move: NextMove::Left,
    };
    advisers.clear_all();
    assert_eq!(
        advisers,
        ActiveAdvisers { safety: vec![], fairness: vec![], next_move: NextMove::Left }
    );
}

#[test]
fn safety_violated_when_a_safety_guard_matches() {
    let advisers = ActiveAdvisers {
        safety: texts(&["X1", "10"]),
        fairness: texts(&["00"]),
        next_move: NextMove::Idle,
    };
    assert!(advisers.safety_violated(&"01".to_string()));
    assert!(advisers.safety_violated(&"11".to_string()));
    assert!(advisers.safety_violated(&"10".to_string()));
    assert!(!advisers.safety_violated(&"00".to_string()));
    assert!(!ActiveAdvisers::default().safety_violated(&"00".to_string()));
}

#[test]
fn refresh_takes_the_guards_of_the_state() {
    let strategy = sample_strategy();
    let mut advisers =
        ActiveAdvisers { safety: texts(&["old"]), fairness: vec![], next_move: NextMove::Up };
    let done =
        advisers.refresh(&strategy, &state("21", "b", "h"), AdviserMode::LeastLimiting, 5);
    assert_eq!(done, Ok(()));
    assert_eq!(
        advisers,
        ActiveAdvisers {
            safety: texts(&["1X"]),
            fairness: texts(&["0X"]),
            next_move: NextMove::Up
        }
    );
    let done = advisers.refresh(&strategy, &state("21", "a", "h"), AdviserMode::Off, 5);
    assert_eq!(done, Ok(()));
    assert_eq!(
        advisers,
        ActiveAdvisers {
            safety: texts(&["X1", "11"]),
            fairness: vec![],
            next_move: NextMove::Up
        }
    );
}

#[test]
fn refresh_in_strict_guidance_sets_the_scripted_move() {
    let strategy = sample_strategy();
    let mut advisers = ActiveAdvisers::default();
    let done = advisers.refresh(&strategy, &state("21", "b", "h"), AdviserMode::NextMove, 1);
    assert_eq!(done, Ok(()));
    assert_eq!(advisers.next_move, NextMove::Left);
    let done = advisers.refresh(&strategy, &state("21", "b", "h"), AdviserMode::NextMove, 20);
    assert_eq!(done, Ok(()));
    assert_eq!(advisers.next_move, NextMove::Up);
}

#[test]
fn refresh_twice_gives_what_refresh_once_gives() {
    let strategy = sample_strategy();
    for mode in [AdviserMode::LeastLimiting, AdviserMode::NextMove, AdviserMode::Off] {
        let mut once = ActiveAdvisers {
            safety: texts(&["stale"]),
            fairness: texts(&["stale"]),
            next_move: NextMove::Right,
        };
        assert_eq!(once.refresh(&strategy, &state("21", "a", "h"), mode, 7), Ok(()));
        let mut twice = ActiveAdvisers {
            safety: texts(&["stale"]),
            fairness: texts(&["stale"]),
            next_move: NextMove::Right,
        };
        assert_eq!(twice.refresh(&strategy, &state("21", "a", "h"), mode, 7), Ok(()));
        assert_eq!(twice.refresh(&strategy, &state("21", "a", "h"), mode, 7), Ok(()));
        assert_eq!(once, twice);
        assert_eq!(once.safety, texts(&["X1", "11"]));
    }
}

#[test]
fn refresh_fails_and_changes_nothing_on_a_guard_count_fault() {
    let strategy = sample_strategy();
    let mut advisers = ActiveAdvisers {
        safety: texts(&["X1"]),
        fairness: texts(&["1X"]),
        next_move: NextMove::Left,
    };
    let done = advisers.refresh(&strategy, &state("21", "c", "h"), AdviserMode::NextMove, 0);
    assert_eq!(done, Err(ConfigFault::GuardCount));
    let done_fair = advisers.refresh(&strategy, &state("21", "d", "h"), AdviserMode::NextMove, 0);
    assert_eq!(done_fair, Err(ConfigFault::GuardCount));
    assert_eq!(
        advisers,
        ActiveAdvisers {
            safety: texts(&["X1"]),
            fairness: texts(&["1X"]),
            next_move: NextMove::Left
        }
    );
}

#[test]
fn faults_have_their_messages() {
    assert_eq!(ConfigFault::NoNextState.message(), "No next state found!");
    assert_eq!(ConfigFault::NoDeliveryMove.message(), "No hardcoded move found!");
    assert_eq!(ConfigFault::ActLabel.message(), "Invalid act label!");
    assert_eq!(ConfigFault::NoRobotMove.message(), "No valid move found!");
    assert_eq!(ConfigFault::GuardCount.message(), "An adviser state needs exactly one guard!");
    assert_eq!(ConfigFault::GuardWidth.message(), "obs and guard should be same length!");
    assert_eq!(ConfigFault::NoHumanMoves.message(), "Could not find valid moves!");
    assert_eq!(ConfigFault::NoInteractingPos.message(), "No interacting_pos found!");
    assert_eq!(ConfigFault::OffGrid.message(), "Move leaves the grid!");
}

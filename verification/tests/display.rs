use study_core::clock::{GameTimer, Timer, GAME_DURATION};
use study_core::display::{adviser_icons, burger_text, timer_text};
use study_core::progress::BurgerComponent;
use study_core::results::GameResults;

fn texts(items: &[&str]) -> Vec<String> {
    items.iter().map(|s| s.to_string()).collect()
}

fn human_aps() -> Vec<String> {
    texts(&["patty_h", "buns_h", "lettuce_h", "tomato_h", "ketchup_h", "delivery_h"])
}

fn timer_at(elapsed: u64) -> GameTimer {
    GameTimer(Timer { elapsed, duration: GAME_DURATION, finished: elapsed >= GAME_DURATION })
}

#[test]
fn clock_shows_minutes_and_two_digit_seconds() {
    assert_eq!(timer_text(&timer_at(0)), "1:30");
    assert_eq!(timer_text(&timer_at(1)), "1:29");
    assert_eq!(timer_text(&timer_at(1_000_000_000)), "1:29");
    assert_eq!(timer_text(&timer_at(30_000_000_000)), "1:00");
    assert_eq!(timer_text(&timer_at(30_000_000_001)), "0:59");
    assert_eq!(timer_text(&timer_at(80_500_000_000)), "0:09");
    assert_eq!(timer_text(&timer_at(89_999_999_999)), "0:00");
    assert_eq!(timer_text(&timer_at(90_000_000_000)), "0:00");
    assert_eq!(timer_text(&timer_at(u64::MAX)), "0:00");
}

#[test]
fn burger_text_counts_both_agents() {
    let mut results = GameResults {
        participant_id: 1,
        adviser_mode: 0,
        steps_taken: 0,
        safety_violated: 0,
        human_burgers: 2,
        robot_burgers: 3,
    };
    assert_eq!(burger_text(&results), "Burgers Made:\n5");
    results.human_burgers = 0;
    results.robot_burgers = 0;
    assert_eq!(burger_text(&results), "Burgers Made:\n0");
    results.human_burgers = u32::MAX;
    results.robot_burgers = u32::MAX;
    assert_eq!(burger_text(&results), "Burgers Made:\n8589934590");
}

#[test]
fn adviser_icons_show_the_fixed_places_of_a_guard() {
    let aps = human_aps();
    assert_eq!(
        adviser_icons(&"X1XXXX".to_string(), &aps),
        Some(vec![BurgerComponent::Buns])
    );
    assert_eq!(
        adviser_icons(&"11111X".to_string(), &aps),
        Some(vec![
            BurgerComponent::Patty,
            BurgerComponent::Buns,
            BurgerComponent::Lettuce,
            BurgerComponent::Tomato,
            BurgerComponent::Sauce
        ])
    );
    assert_eq!(adviser_icons(&"XXXXXX".to_string(), &aps), Some(vec![]));
    assert_eq!(adviser_icons(&"".to_string(), &aps), Some(vec![]));
    assert_eq!(adviser_icons(&"XXXXXXXX".to_string(), &aps), Some(vec![]));
}

#[test]
fn adviser_icons_refuse_what_cannot_be_shown() {
    let aps = human_aps();
    assert_eq!(adviser_icons(&"X0XXXX".to_string(), &aps), None);
    assert_eq!(adviser_icons(&"XXXXX1".to_string(), &aps), None);
    assert_eq!(adviser_icons(&"XXXXXX1".to_string(), &aps), None);
    assert_eq!(adviser_icons(&"1".to_string(), &texts(&["mystery"])), None);
}

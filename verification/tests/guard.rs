use study_core::guard::{match_guards, obs_match_guard, same_width};

fn text(s: &str) -> String {
    s.to_string()
}

#[test]
fn wildcard_guard_matches_where_fixed_places_agree() {
    assert!(obs_match_guard(&text("0100"), &text("X1X0")));
    assert!(obs_match_guard(&text("0110"), &text("X1X0")));
    assert!(obs_match_guard(&text("1110"), &text("X1X0")));
    assert!(!obs_match_guard(&text("0000"), &text("X1X0")));
    assert!(!obs_match_guard(&text("0101"), &text("X1X0")));
    assert!(!obs_match_guard(&text("0111"), &text("X1X0")));
}

#[test]
fn fixed_places_decide_the_match() {
    assert!(obs_match_guard(&text("0100"), &text("X100")));
    assert!(!obs_match_guard(&text("0110"), &text("X100")));
}

#[test]
fn guard_without_wildcards_matches_itself_only() {
    assert!(obs_match_guard(&text("0101"), &text("0101")));
    assert!(!obs_match_guard(&text("0100"), &text("0101")));
    assert!(!obs_match_guard(&text("1101"), &text("0101")));
}

#[test]
fn all_wildcards_match_everything_of_their_width() {
    assert!(obs_match_guard(&text("0000"), &text("XXXX")));
    assert!(obs_match_guard(&text("1111"), &text("XXXX")));
    assert!(obs_match_guard(&text(""), &text("")));
}

#[test]
fn wildcard_in_the_observation_is_no_wildcard() {
    assert!(!obs_match_guard(&text("X"), &text("1")));
    assert!(obs_match_guard(&text("X"), &text("X")));
}

#[test]
fn widths_count_characters() {
    assert!(same_width(&text("0101"), &text("X1X0")));
    assert!(!same_width(&text("010"), &text("X1X0")));
    assert!(same_width(&text(""), &text("")));
    assert!(same_width(&text("\u{e9}1"), &text("01")));
}

#[test]
fn guard_sets_admit_when_any_guard_matches() {
    let guards = vec![text("1XXX"), text("X1X0")];
    assert_eq!(match_guards(&guards, &text("0100")), Some(true));
    assert_eq!(match_guards(&guards, &text("1111")), Some(true));
    assert_eq!(match_guards(&guards, &text("0010")), Some(false));
    assert_eq!(match_guards(&Vec::new(), &text("0010")), Some(false));
}

#[test]
fn guard_sets_with_a_misfit_are_refused() {
    let guards = vec![text("1XXX"), text("X1X")];
    assert_eq!(match_guards(&guards, &text("1000")), None);
    assert_eq!(match_guards(&guards, &text("010")), None);
}

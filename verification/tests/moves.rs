use std::str::FromStr;
use study_core::moves::{move_from_label, NextMove, ParseMoveError};

#[test]
fn labels_name_their_moves() {
    assert_eq!(move_from_label("idle"), Some(NextMove::Idle));
    assert_eq!(move_from_label("up"), Some(NextMove::Up));
    assert_eq!(move_from_label("down"), Some(NextMove::Down));
    assert_eq!(move_from_label("left"), Some(NextMove::Left));
    assert_eq!(move_from_label("right"), Some(NextMove::Right));
    assert_eq!(move_from_label("interact"), Some(NextMove::Interact));
}

#[test]
fn other_labels_name_no_move() {
    assert_eq!(move_from_label(""), None);
    assert_eq!(move_from_label("Up"), None);
    assert_eq!(move_from_label("up "), None);
    assert_eq!(move_from_label("jump"), None);
}

#[test]
fn typed_input_parses_all_moves_but_idle() {
    assert_eq!(NextMove::from_str("up").ok(), Some(NextMove::Up));
    assert_eq!(NextMove::from_str("down").ok(), Some(NextMove::Down));
    assert_eq!(NextMove::from_str("left").ok(), Some(NextMove::Left));
    assert_eq!(NextMove::from_str("right").ok(), Some(NextMove::Right));
    assert_eq!(NextMove::from_str("interact").ok(), Some(NextMove::Interact));
    assert!(NextMove::from_str("idle").is_err());
    assert!(NextMove::from_str("sideways").is_err());
    assert_eq!(NextMove::parse("left").ok(), Some(NextMove::Left));
    assert!(NextMove::parse("idle").is_err());
}

#[test]
fn parse_error_has_its_message() {
    assert_eq!(ParseMoveError.to_string(), "Something went wrong parsing a Move!");
}

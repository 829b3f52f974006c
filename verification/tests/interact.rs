use study_core::grid::{
    Position, BUNS_POS_H, BUNS_POS_R, DELIVERY_POS_H, DELIVERY_POS_R, LETTUCE_POS_H, PATTY_POS_H,
    SAUCE_POS_H, SAUCE_POS_R, TOMATO_POS_H,
};
use study_core::interact::{
    at_workstation, has_human_moves, interact_char, interacting_pos, moves_contain, obs_from_pos,
    valid_human_moves, Interact,
};
use study_core::moves::NextMove;

fn at(tile: (usize, usize)) -> Position {
    Position { x: tile.0, y: tile.1 }
}

fn human_aps() -> Vec<String> {
    vec![
        "patty_h".to_string(),
        "buns_h".to_string(),
        "lettuce_h".to_string(),
        "tomato_h".to_string(),
        "ketchup_h".to_string(),
        "delivery_h".to_string(),
    ]
}

#[test]
fn anchors_lie_one_tile_towards_the_workstation() {
    assert_eq!(interacting_pos(&at(DELIVERY_POS_H)), Position { x: 1, y: 4 });
    assert_eq!(interacting_pos(&at(DELIVERY_POS_R)), Position { x: 1, y: 0 });
    assert_eq!(interacting_pos(&at(BUNS_POS_H)), Position { x: 1, y: 2 });
    assert_eq!(interacting_pos(&at(SAUCE_POS_H)), Position { x: 3, y: 2 });
    assert_eq!(interacting_pos(&at(BUNS_POS_R)), Position { x: 1, y: 2 });
    assert_eq!(interacting_pos(&at(SAUCE_POS_R)), Position { x: 3, y: 2 });
}

#[test]
fn only_workstation_tiles_have_anchors() {
    assert!(at_workstation(&at(DELIVERY_POS_H)));
    assert!(at_workstation(&at(SAUCE_POS_R)));
    assert!(!at_workstation(&Position { x: 2, y: 2 }));
    assert!(!at_workstation(&Position { x: 0, y: 0 }));
    assert!(!at_workstation(&Position { x: 4, y: 4 }));
}

#[test]
fn interaction_starts_with_interact_only() {
    let pos = at(TOMATO_POS_H);
    let anchor = Position { x: 2, y: 2 };
    assert_eq!(Interact::No.step(NextMove::Interact, &pos), Interact::In(anchor));
    assert_eq!(Interact::Out(anchor).step(NextMove::Interact, &pos), Interact::In(anchor));
    for other in [NextMove::Idle, NextMove::Up, NextMove::Down, NextMove::Left, NextMove::Right] {
        assert_eq!(Interact::No.step(other, &pos), Interact::No);
        assert_eq!(Interact::Out(anchor).step(other, &pos), Interact::No);
    }
}

#[test]
fn interaction_ends_with_interact_and_holds_otherwise() {
    let pos = at(TOMATO_POS_H);
    let anchor = Position { x: 2, y: 2 };
    assert_eq!(Interact::In(anchor).step(NextMove::Interact, &pos), Interact::Out(anchor));
    assert_eq!(Interact::Stay(anchor).step(NextMove::Interact, &pos), Interact::Out(anchor));
    for other in [NextMove::Idle, NextMove::Up, NextMove::Down, NextMove::Left, NextMove::Right] {
        assert_eq!(Interact::In(anchor).step(other, &pos), Interact::Stay(anchor));
        assert_eq!(Interact::Stay(anchor).step(other, &pos), Interact::Stay(anchor));
    }
}

#[test]
fn engaged_states_are_in_and_stay() {
    let anchor = Position { x: 2, y: 2 };
    assert!(Interact::In(anchor).is_engaged());
    assert!(Interact::Stay(anchor).is_engaged());
    assert!(!Interact::No.is_engaged());
    assert!(!Interact::Out(anchor).is_engaged());
}

#[test]
fn human_moves_depend_on_the_tile() {
    let idle = NextMove::Idle;
    let act = NextMove::Interact;
    let up = NextMove::Up;
    let down = NextMove::Down;
    let left = NextMove::Left;
    let right = NextMove::Right;
    let free = Interact::No;
    assert_eq!(valid_human_moves(&at(DELIVERY_POS_H), &free), vec![idle, act, down]);
    assert_eq!(valid_human_moves(&at(PATTY_POS_H), &free), vec![idle, act, right]);
    assert_eq!(valid_human_moves(&at(BUNS_POS_H), &free), vec![idle, act, left, right]);
    assert_eq!(valid_human_moves(&at(TOMATO_POS_H), &free), vec![idle, act, up, left, right]);
    assert_eq!(valid_human_moves(&at(SAUCE_POS_H), &free), vec![idle, act, left, right]);
    assert_eq!(valid_human_moves(&at(LETTUCE_POS_H), &free), vec![idle, act, left]);
    let out = Interact::Out(Position { x: 1, y: 2 });
    assert_eq!(valid_human_moves(&at(BUNS_POS_H), &out), vec![idle, act, left, right]);
}

#[test]
fn human_at_a_workstation_can_only_interact() {
    let anchor = Position { x: 1, y: 2 };
    assert_eq!(
        valid_human_moves(&at(BUNS_POS_H), &Interact::In(anchor)),
        vec![NextMove::Interact]
    );
    assert_eq!(
        valid_human_moves(&Position { x: 0, y: 0 }, &Interact::Stay(anchor)),
        vec![NextMove::Interact]
    );
}

#[test]
fn human_has_no_moves_off_its_tiles() {
    assert!(has_human_moves(&at(DELIVERY_POS_H), &Interact::No));
    assert!(!has_human_moves(&Position { x: 2, y: 2 }, &Interact::No));
    assert!(!has_human_moves(&at(BUNS_POS_R), &Interact::Out(Position { x: 1, y: 2 })));
    assert!(has_human_moves(&Position { x: 2, y: 2 }, &Interact::In(Position { x: 1, y: 2 })));
}

#[test]
fn moves_contain_finds_members_only() {
    let moves = vec![NextMove::Idle, NextMove::Interact, NextMove::Down];
    assert!(moves_contain(&moves, NextMove::Down));
    assert!(moves_contain(&moves, NextMove::Idle));
    assert!(!moves_contain(&moves, NextMove::Left));
    assert!(!moves_contain(&Vec::new(), NextMove::Idle));
}

#[test]
fn interact_char_is_one_only_at_the_tile_while_engaged() {
    let anchor = Position { x: 1, y: 2 };
    assert_eq!(interact_char(at(BUNS_POS_H), &Interact::In(anchor), BUNS_POS_H), '1');
    assert_eq!(interact_char(at(BUNS_POS_H), &Interact::Stay(anchor), BUNS_POS_H), '1');
    assert_eq!(interact_char(at(BUNS_POS_H), &Interact::In(anchor), PATTY_POS_H), '0');
    assert_eq!(interact_char(at(BUNS_POS_H), &Interact::No, BUNS_POS_H), '0');
    assert_eq!(interact_char(at(BUNS_POS_H), &Interact::Out(anchor), BUNS_POS_H), '0');
}

#[test]
fn observation_has_one_bit_per_proposition() {
    let aps = human_aps();
    let anchor = Position { x: 1, y: 2 };
    assert_eq!(obs_from_pos(at(BUNS_POS_H), &Interact::In(anchor), &aps), "010000");
    assert_eq!(obs_from_pos(at(PATTY_POS_H), &Interact::Stay(anchor), &aps), "100000");
    assert_eq!(obs_from_pos(at(LETTUCE_POS_H), &Interact::In(anchor), &aps), "001000");
    assert_eq!(obs_from_pos(at(TOMATO_POS_H), &Interact::In(anchor), &aps), "000100");
    assert_eq!(obs_from_pos(at(SAUCE_POS_H), &Interact::In(anchor), &aps), "000010");
    assert_eq!(obs_from_pos(at(DELIVERY_POS_H), &Interact::In(anchor), &aps), "000001");
    assert_eq!(obs_from_pos(at(BUNS_POS_H), &Interact::No, &aps), "000000");
    assert_eq!(obs_from_pos(at(BUNS_POS_H), &Interact::Out(anchor), &aps), "000000");
    assert_eq!(obs_from_pos(Position { x: 2, y: 2 }, &Interact::In(anchor), &aps), "000000");
}

#[test]
fn observation_follows_the_order_of_propositions_and_skips_unknown_names() {
    let aps = vec!["delivery_h".to_string(), "mystery".to_string(), "buns_h".to_string()];
    let anchor = Position { x: 1, y: 2 };
    assert_eq!(obs_from_pos(at(BUNS_POS_H), &Interact::In(anchor), &aps), "001");
    assert_eq!(obs_from_pos(at(DELIVERY_POS_H), &Interact::In(anchor), &aps), "100");
    assert_eq!(obs_from_pos(at(DELIVERY_POS_H), &Interact::In(anchor), &Vec::new()), "");
}

#[test]
fn every_open_move_keeps_the_human_on_its_tiles() {
    let tiles =
        [DELIVERY_POS_H, PATTY_POS_H, BUNS_POS_H, TOMATO_POS_H, SAUCE_POS_H, LETTUCE_POS_H];
    for tile in tiles {
        let pos = at(tile);
        let anchor = interacting_pos(&pos);
        for interact in
            [Interact::No, Interact::In(anchor), Interact::Stay(anchor), Interact::Out(anchor)]
        {
            for next_move in valid_human_moves(&pos, &interact) {
                assert!(study_core::grid::can_move(&pos, next_move));
                let next = study_core::grid::next_pos_from_move(&pos, next_move).as_pos();
                assert!(has_human_moves(&next, &Interact::No));
                assert!(tiles.contains(&(next.x, next.y)));
            }
        }
    }
}

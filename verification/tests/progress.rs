use study_core::grid::{
    Position, BUNS_POS_H, BUNS_POS_R, DELIVERY_POS_H, DELIVERY_POS_R, LETTUCE_POS_H,
    LETTUCE_POS_R, PATTY_POS_H, PATTY_POS_R, SAUCE_POS_H, SAUCE_POS_R, TOMATO_POS_H, TOMATO_POS_R,
};
use study_core::progress::{
    update_burger_status_h, update_burger_status_r, BurgerComponent, BurgerProgress,
};

fn at(tile: (usize, usize)) -> Position {
    Position { x: tile.0, y: tile.1 }
}

fn full(assembled: u32) -> BurgerProgress {
    BurgerProgress { assembled, buns: true, patty: true, lettuce: true, tomato: true, sauce: true }
}

#[test]
fn default_progress_is_empty() {
    let progress = BurgerProgress::default();
    assert_eq!(
        progress,
        BurgerProgress {
            assembled: 0,
            buns: false,
            patty: false,
            lettuce: false,
            tomato: false,
            sauce: false
        }
    );
}

#[test]
fn make_burger_with_all_ingredients_counts_and_clears() {
    let mut progress = full(4);
    assert!(progress.make_burger());
    assert_eq!(progress, BurgerProgress { assembled: 5, ..BurgerProgress::default() });
}

#[test]
fn make_burger_with_any_ingredient_missing_changes_nothing() {
    for missing in 0..5 {
        let mut progress = full(7);
        match missing {
            0 => progress.buns = false,
            1 => progress.patty = false,
            2 => progress.lettuce = false,
            3 => progress.tomato = false,
            _ => progress.sauce = false,
        }
        let before = progress;
        assert!(!progress.make_burger());
        assert_eq!(progress, before);
    }
    let mut empty = BurgerProgress::default();
    assert!(!empty.make_burger());
    assert_eq!(empty, BurgerProgress::default());
}

#[test]
fn reset_drops_ingredients_and_keeps_the_count() {
    let mut progress = full(3);
    progress.reset();
    assert_eq!(progress, BurgerProgress { assembled: 3, ..BurgerProgress::default() });
}

#[test]
fn human_collects_each_ingredient_at_its_tile() {
    let mut progress = BurgerProgress::default();
    assert!(!update_burger_status_h(&mut progress, &at(PATTY_POS_H), false));
    assert!(progress.patty && !progress.buns);
    assert!(!update_burger_status_h(&mut progress, &at(BUNS_POS_H), false));
    assert!(progress.buns);
    assert!(!update_burger_status_h(&mut progress, &at(LETTUCE_POS_H), false));
    assert!(progress.lettuce);
    assert!(!update_burger_status_h(&mut progress, &at(TOMATO_POS_H), false));
    assert!(progress.tomato && !progress.sauce);
    assert!(!update_burger_status_h(&mut progress, &at(SAUCE_POS_H), false));
    assert_eq!(progress, full(0));
    assert!(update_burger_status_h(&mut progress, &at(DELIVERY_POS_H), false));
    assert_eq!(progress, BurgerProgress { assembled: 1, ..BurgerProgress::default() });
}

#[test]
fn human_helping_with_sauce_grabs_none() {
    let mut progress = BurgerProgress::default();
    assert!(!update_burger_status_h(&mut progress, &at(SAUCE_POS_H), true));
    assert!(!progress.sauce);
    assert!(!update_burger_status_h(&mut progress, &at(SAUCE_POS_H), false));
    assert!(progress.sauce);
}

#[test]
fn human_gets_nothing_at_robot_tiles() {
    let mut progress = BurgerProgress::default();
    assert!(!update_burger_status_h(&mut progress, &at(PATTY_POS_R), false));
    assert!(!update_burger_status_h(&mut progress, &at(DELIVERY_POS_R), false));
    assert_eq!(progress, BurgerProgress::default());
}

#[test]
fn partial_delivery_is_a_no_op() {
    let mut progress = BurgerProgress { sauce: false, ..full(2) };
    let before = progress;
    assert!(!update_burger_status_h(&mut progress, &at(DELIVERY_POS_H), false));
    assert_eq!(progress, before);
    assert!(!update_burger_status_r(&mut progress, &at(DELIVERY_POS_R), true));
    assert_eq!(progress, before);
}

#[test]
fn robot_collects_sauce_only_with_help() {
    let mut progress = BurgerProgress::default();
    assert!(!update_burger_status_r(&mut progress, &at(SAUCE_POS_R), false));
    assert!(!progress.sauce);
    assert!(!update_burger_status_r(&mut progress, &at(SAUCE_POS_R), true));
    assert!(progress.sauce);
    assert!(!update_burger_status_r(&mut progress, &at(PATTY_POS_R), false));
    assert!(!update_burger_status_r(&mut progress, &at(BUNS_POS_R), false));
    assert!(!update_burger_status_r(&mut progress, &at(LETTUCE_POS_R), false));
    assert!(!update_burger_status_r(&mut progress, &at(TOMATO_POS_R), false));
    assert_eq!(progress, full(0));
    assert!(update_burger_status_r(&mut progress, &at(DELIVERY_POS_R), false));
    assert_eq!(progress, BurgerProgress { assembled: 1, ..BurgerProgress::default() });
}

#[test]
fn progress_has_tells_each_ingredient() {
    let progress = BurgerProgress { buns: true, tomato: true, ..BurgerProgress::default() };
    assert!(progress.has(BurgerComponent::Buns));
    assert!(progress.has(BurgerComponent::Tomato));
    assert!(!progress.has(BurgerComponent::Patty));
    assert!(!progress.has(BurgerComponent::Lettuce));
    assert!(!progress.has(BurgerComponent::Sauce));
}

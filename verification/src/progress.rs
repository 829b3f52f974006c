//! Burger assembly: which ingredients an agent holds and how many burgers it made.

use crate::grid::{
    Position, BUNS_POS_H, BUNS_POS_R, DELIVERY_POS_H, DELIVERY_POS_R, LETTUCE_POS_H,
    LETTUCE_POS_R, PATTY_POS_H, PATTY_POS_R, SAUCE_POS_H, SAUCE_POS_R, TOMATO_POS_H, TOMATO_POS_R,
};
use vstd::prelude::*;

verus! {

/// The parts of a burger.
#[derive(Debug, Copy, Clone, PartialEq, Eq, Structural)]
pub enum BurgerComponent {
    Buns,
    Patty,
    Lettuce,
    Tomato,
    Sauce,
}

/// One agent's progress: the ingredients collected for the burger in the
/// making, and the number of burgers delivered.
#[derive(Debug, Copy, Clone, PartialEq, Eq, Structural)]
pub struct BurgerProgress {
    pub assembled: u32,
    pub buns: bool,
    pub patty: bool,
    pub lettuce: bool,
    pub tomato: bool,
    pub sauce: bool,
}

impl Default for BurgerProgress {
    fn default() -> (progress: BurgerProgress)
        ensures
            progress == BurgerProgress::fresh(),
    {
        BurgerProgress {
            assembled: 0,
            buns: false,
            patty: false,
            lettuce: false,
            tomato: false,
            sauce: false,
        }
    }
}

impl BurgerProgress {
    /// Progress at the start of a session: nothing collected, nothing delivered.
    pub open spec fn fresh() -> BurgerProgress {
        BurgerProgress {
            assembled: 0,
            buns: false,
            patty: false,
            lettuce: false,
            tomato: false,
            sauce: false,
        }
    }

    /// All five ingredients are collected.
    pub open spec fn complete(self) -> bool {
        self.buns && self.patty && self.lettuce && self.tomato && self.sauce
    }

    /// The same count of burgers with no ingredient collected.
    pub open spec fn emptied(self) -> BurgerProgress {
        BurgerProgress {
            assembled: self.assembled,
            buns: false,
            patty: false,
            lettuce: false,
            tomato: false,
            sauce: false,
        }
    }

    /// Progress after a delivery: with all five ingredients one burger more and
    /// none collected, else unchanged.
    pub open spec fn delivered(self) -> BurgerProgress {
        if self.complete() {
            BurgerProgress { assembled: (self.assembled + 1) as u32, ..self.emptied() }
        } else {
            self
        }
    }

    /// Progress after interacting at `pos` as the human. Delivery happens at the
    /// human's delivery tile; each ingredient tile adds its ingredient, the
    /// sauce only while the robot is not waiting for sauce.
    pub open spec fn after_human_station(self, pos: Position, robot_at_sauce: bool)
        -> BurgerProgress {
        if pos.at(DELIVERY_POS_H) {
            self.delivered()
        } else {
            BurgerProgress {
                assembled: self.assembled,
                patty: self.patty || pos.at(PATTY_POS_H),
                buns: self.buns || pos.at(BUNS_POS_H),
                lettuce: self.lettuce || pos.at(LETTUCE_POS_H),
                tomato: self.tomato || pos.at(TOMATO_POS_H),
                sauce: self.sauce || (pos.at(SAUCE_POS_H) && !robot_at_sauce),
            }
        }
    }

    /// Progress after interacting at `pos` as the robot. Delivery happens at the
    /// robot's delivery tile; each ingredient tile adds its ingredient, the
    /// sauce only while the human helps at the human's sauce tile.
    pub open spec fn after_robot_station(self, pos: Position, human_at_sauce: bool)
        -> BurgerProgress {
        if pos.at(DELIVERY_POS_R) {
            self.delivered()
        } else {
            BurgerProgress {
                assembled: self.assembled,
                patty: self.patty || pos.at(PATTY_POS_R),
                buns: self.buns || pos.at(BUNS_POS_R),
                lettuce: self.lettuce || pos.at(LETTUCE_POS_R),
                tomato: self.tomato || pos.at(TOMATO_POS_R),
                sauce: self.sauce || (pos.at(SAUCE_POS_R) && human_at_sauce),
            }
        }
    }

    fn ready(&self) -> (ready: bool)
        ensures
            ready == self.complete(),
    {
        self.buns && self.patty && self.lettuce && self.tomato && self.sauce
    }

    /// Delivers a burger if all five ingredients are collected, and says whether
    /// it did. With an ingredient missing nothing changes.
    pub fn make_burger(&mut self) -> (made: bool)
        requires
            old(self).complete() ==> old(self).assembled < u32::MAX,
        ensures
            made == old(self).complete(),
            *final(self) == old(self).delivered(),
            !made ==> *final(self) == *old(self),
            made ==> final(self).assembled == old(self).assembled + 1 && !final(self).buns
                && !final(self).patty && !final(self).lettuce && !final(self).tomato
                && !final(self).sauce,
    {
        if self.ready() {
            self.assembled += 1;
            self.buns = false;
            self.patty = false;
            self.lettuce = false;
            self.tomato = false;
            self.sauce = false;
            return true;
        }
        return false;
    }

    /// Drops the collected ingredients; the count of burgers stays.
    pub fn reset(&mut self)
        ensures
            *final(self) == old(self).emptied(),
    {
        self.buns = false;
        self.patty = false;
        self.lettuce = false;
        self.tomato = false;
        self.sauce = false;
    }
}

/// Applies the human's interaction at `cur_pos`, and says whether a burger was
/// delivered. `sauce_help` tells that the robot is waiting at its sauce tile.
pub fn update_burger_status_h(
    burger_progress: &mut BurgerProgress,
    cur_pos: &Position,
    sauce_help: bool,
) -> (made: bool)
    requires
        cur_pos.at(DELIVERY_POS_H) && old(burger_progress).complete() ==> old(
            burger_progress,
        ).assembled < u32::MAX,
    ensures
        *final(burger_progress) == old(burger_progress).after_human_station(*cur_pos, sauce_help),
        made == (cur_pos.at(DELIVERY_POS_H) && old(burger_progress).complete()),
{
    if cur_pos.is_equal(DELIVERY_POS_H) {
        return burger_progress.make_burger();
    }
    if cur_pos.is_equal(PATTY_POS_H) {
        burger_progress.patty = true;
    }
    if cur_pos.is_equal(BUNS_POS_H) {
        burger_progress.buns = true;
    }
    if cur_pos.is_equal(LETTUCE_POS_H) {
        burger_progress.lettuce = true;
    }
    if cur_pos.is_equal(TOMATO_POS_H) {
        burger_progress.tomato = true;
    }
    if cur_pos.is_equal(SAUCE_POS_H) && !sauce_help {
        burger_progress.sauce = true;
    }
    return false;
}

/// Applies the robot's interaction at `cur_pos`, and says whether a burger was
/// delivered. `sauce_help` tells that the human is helping at the human's
/// sauce tile.
pub fn update_burger_status_r(
    burger_progress: &mut BurgerProgress,
    cur_pos: &Position,
    sauce_help: bool,
) -> (made: bool)
    requires
        cur_pos.at(DELIVERY_POS_R) && old(burger_progress).complete() ==> old(
            burger_progress,
        ).assembled < u32::MAX,
    ensures
        *final(burger_progress) == old(burger_progress).after_robot_station(*cur_pos, sauce_help),
        made == (cur_pos.at(DELIVERY_POS_R) && old(burger_progress).complete()),
{
    if cur_pos.is_equal(DELIVERY_POS_R) {
        return burger_progress.make_burger();
    }
    if cur_pos.is_equal(PATTY_POS_R) {
        burger_progress.patty = true;
    }
    if cur_pos.is_equal(BUNS_POS_R) {
        burger_progress.buns = true;
    }
    if cur_pos.is_equal(LETTUCE_POS_R) {
        burger_progress.lettuce = true;
    }
    if cur_pos.is_equal(TOMATO_POS_R) {
        burger_progress.tomato = true;
    }
    if cur_pos.is_equal(SAUCE_POS_R) && sauce_help {
        burger_progress.sauce = true;
    }
    return false;
}

} // verus!

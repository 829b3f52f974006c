//! What the screen reads off a session: the clock, the burger count and the
//! icons that spell out an adviser.

use crate::clock::{GameTimer, GAME_DURATION};
use crate::progress::{BurgerComponent, BurgerProgress};
use crate::results::GameResults;
use crate::text::{decimal, push_decimal, same_text};
use vstd::prelude::*;

verus! {

/// Nanoseconds in a second.
pub const NANOS_PER_SEC: u64 = 1_000_000_000;

/// `n` in decimal with at least two digits.
pub open spec fn two_digits(n: nat) -> Seq<char> {
    if n < 10 {
        "0"@ + decimal(n)
    } else {
        decimal(n)
    }
}

/// The clock shown while `elapsed` of the session's time is over: the whole
/// minutes left, a colon, and the seconds left beyond them in two digits.
pub open spec fn clock_text(elapsed: u64) -> Seq<char> {
    let left: nat = if elapsed >= GAME_DURATION {
        0
    } else {
        ((GAME_DURATION - elapsed) / (NANOS_PER_SEC as int)) as nat
    };
    decimal(left / 60) + ":"@ + two_digits(left % 60)
}

/// Writes the clock for the session timer `timer`.
pub fn timer_text(timer: &GameTimer) -> (text: String)
    ensures
        text@ == clock_text(timer.0.elapsed),
{
    let elapsed = timer.0.elapsed();
    let remaining: u64 = if elapsed >= GAME_DURATION {
        0
    } else {
        (GAME_DURATION - elapsed) / NANOS_PER_SEC
    };
    let minutes_left = remaining / 60;
    let seconds_left = remaining % 60;
    let mut text = String::new();
    push_decimal(&mut text, minutes_left);
    text.append(":");
    if seconds_left < 10 {
        text.append("0");
    }
    push_decimal(&mut text, seconds_left);
    text
}

/// The count of burgers shown: a heading, a line break, and the burgers of
/// both agents together.
pub open spec fn burgers_made(results: GameResults) -> Seq<char> {
    "Burgers Made:\n"@ + decimal((results.human_burgers + results.robot_burgers) as nat)
}

/// Writes the count of burgers that both agents made.
pub fn burger_text(game_results: &GameResults) -> (text: String)
    ensures
        text@ == burgers_made(*game_results),
{
    let mut text = String::new();
    text.append("Burgers Made:\n");
    push_decimal(&mut text, game_results.human_burgers as u64 + game_results.robot_burgers as u64);
    text
}

impl BurgerProgress {
    /// Whether the ingredient `component` is collected.
    pub open spec fn holds(self, component: BurgerComponent) -> bool {
        match component {
            BurgerComponent::Buns => self.buns,
            BurgerComponent::Patty => self.patty,
            BurgerComponent::Lettuce => self.lettuce,
            BurgerComponent::Tomato => self.tomato,
            BurgerComponent::Sauce => self.sauce,
        }
    }

    /// Whether the ingredient `component` is collected, and so shown as
    /// active.
    pub fn has(&self, component: BurgerComponent) -> (held: bool)
        ensures
            held == self.holds(component),
    {
        match component {
            BurgerComponent::Buns => self.buns,
            BurgerComponent::Patty => self.patty,
            BurgerComponent::Lettuce => self.lettuce,
            BurgerComponent::Tomato => self.tomato,
            BurgerComponent::Sauce => self.sauce,
        }
    }
}

/// The ingredient whose icon stands for the proposition named `ap`, if it has
/// one.
pub open spec fn proposition_icon(ap: Seq<char>) -> Option<BurgerComponent> {
    if ap == "buns_h"@ {
        Some(BurgerComponent::Buns)
    } else if ap == "patty_h"@ {
        Some(BurgerComponent::Patty)
    } else if ap == "tomato_h"@ {
        Some(BurgerComponent::Tomato)
    } else if ap == "lettuce_h"@ {
        Some(BurgerComponent::Lettuce)
    } else if ap == "ketchup_h"@ {
        Some(BurgerComponent::Sauce)
    } else {
        None
    }
}

/// Whether the guard can be shown: each place that is no wildcard is not
/// `0`, has a proposition in `aps` and that proposition an icon.
pub open spec fn guard_showable(guard: Seq<char>, aps: Seq<Seq<char>>) -> bool {
    forall|i: int|
        0 <= i < guard.len() && guard[i] != 'X' ==> guard[i] != '0' && i < aps.len()
            && proposition_icon(#[trigger] aps[i]) is Some
}

/// The icons that spell out a showable guard: for each place that is no
/// wildcard, in order, the icon of its proposition.
pub open spec fn guard_icons(guard: Seq<char>, aps: Seq<Seq<char>>) -> Seq<BurgerComponent>
    decreases guard.len(),
{
    if guard.len() == 0 {
        Seq::empty()
    } else {
        let before = guard_icons(guard.drop_last(), aps);
        if guard.last() == 'X' {
            before
        } else {
            before.push(proposition_icon(aps[guard.len() - 1]).unwrap())
        }
    }
}

fn icon_for(ap: &str) -> (icon: Option<BurgerComponent>)
    ensures
        icon == proposition_icon(ap@),
{
    if same_text(ap, "buns_h") {
        Some(BurgerComponent::Buns)
    } else if same_text(ap, "patty_h") {
        Some(BurgerComponent::Patty)
    } else if same_text(ap, "tomato_h") {
        Some(BurgerComponent::Tomato)
    } else if same_text(ap, "lettuce_h") {
        Some(BurgerComponent::Lettuce)
    } else if same_text(ap, "ketchup_h") {
        Some(BurgerComponent::Sauce)
    } else {
        None
    }
}

/// The icons that spell out `guard` over the propositions `human_ap`; `None`
/// where the guard cannot be shown.
pub fn adviser_icons(guard: &String, human_ap: &Vec<String>) -> (icons: Option<
    Vec<BurgerComponent>,
>)
    ensures
        icons is Some <==> guard_showable(guard@, human_ap.deep_view()),
        icons matches Some(shown) ==> shown@ == guard_icons(guard@, human_ap.deep_view()),
{
    let width = guard.as_str().unicode_len();
    let ghost aps = human_ap.deep_view();
    let mut icons: Vec<BurgerComponent> = Vec::new();
    let mut i: usize = 0;
    while i < width
        invariant
            i <= width,
            width == guard@.len(),
            aps == human_ap.deep_view(),
            guard_showable(guard@.take(i as int), aps),
            icons@ == guard_icons(guard@.take(i as int), aps),
        decreases width - i,
    {
        let c = guard.as_str().get_char(i);
        let ghost upto = guard@.take(i + 1);
        assert(upto.drop_last() =~= guard@.take(i as int));
        if c != 'X' {
            if c == '0' || i >= human_ap.len() {
                assert(!guard_showable(guard@, aps));
                return None;
            }
            match icon_for(human_ap[i].as_str()) {
                Some(icon) => {
                    icons.push(icon);
                },
                None => {
                    assert(!guard_showable(guard@, aps)) by {
                        assert(proposition_icon(aps[i as int]) is None);
                    }
                    return None;
                },
            }
        }
        assert(guard_showable(upto, aps));
        i += 1;
    }
    assert(guard@.take(width as int) =~= guard@);
    Some(icons)
}

} // verus!

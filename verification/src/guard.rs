//! Guards: fixed-width strings over `0`, `1` and the wildcard `X`, matched
//! against observation strings of the same width.

use vstd::prelude::*;

verus! {

/// A set of guards, as the synthesis artifact lists it.
pub type Guards = Vec<String>;

/// Whether `guard` matches `obs`: at every place where the guard is not the
/// wildcard `X`, guard and observation hold the same character.
pub open spec fn guard_matches(obs: Seq<char>, guard: Seq<char>) -> bool {
    forall|i: int| 0 <= i < guard.len() && guard[i] != 'X' ==> guard[i] == obs[i]
}

/// Every guard of `guards` has the width of `obs`.
pub open spec fn guards_fit(guards: Seq<Seq<char>>, obs: Seq<char>) -> bool {
    forall|k: int| 0 <= k < guards.len() ==> (#[trigger] guards[k]).len() == obs.len()
}

/// Some guard of `guards` matches `obs`.
pub open spec fn guards_admit(guards: Seq<Seq<char>>, obs: Seq<char>) -> bool {
    exists|k: int| 0 <= k < guards.len() && guard_matches(obs, #[trigger] guards[k])
}

/// A guard without a wildcard matches the observation that equals it, and
/// no other of its width.
pub proof fn lemma_guard_without_wildcard(obs: Seq<char>, guard: Seq<char>)
    requires
        obs.len() == guard.len(),
        forall|i: int| 0 <= i < guard.len() ==> guard[i] != 'X',
    ensures
        guard_matches(obs, guard) <==> obs == guard,
{
    if guard_matches(obs, guard) {
        assert(obs =~= guard);
    }
}

/// Whether `obs` and `guard` have the same width.
pub fn same_width(obs: &String, guard: &String) -> (same: bool)
    ensures
        same == (obs@.len() == guard@.len()),
{
    obs.as_str().unicode_len() == guard.as_str().unicode_len()
}

/// Matches `guard` against `obs`, which has the same width.
pub fn obs_match_guard(obs: &String, guard: &String) -> (matches: bool)
    requires
        obs@.len() == guard@.len(),
    ensures
        matches == guard_matches(obs@, guard@),
{
    let width = guard.as_str().unicode_len();
    let mut i: usize = 0;
    while i < width
        invariant
            i <= width,
            width == guard@.len(),
            obs@.len() == guard@.len(),
            forall|j: int| 0 <= j < i && guard@[j] != 'X' ==> guard@[j] == obs@[j],
        decreases width - i,
    {
        let c = guard.as_str().get_char(i);
        if c != 'X' && c != obs.as_str().get_char(i) {
            return false;
        }
        i += 1;
    }
    true
}

/// Checks the widths of `guards` against `obs` and looks for a match: `None`
/// where a guard has another width than `obs`, else whether a guard matches.
pub fn match_guards(guards: &Guards, obs: &String) -> (admits: Option<bool>)
    ensures
        admits is Some <==> guards_fit(guards.deep_view(), obs@),
        admits matches Some(found) ==> found == guards_admit(guards.deep_view(), obs@),
{
    let mut found = false;
    let mut k: usize = 0;
    while k < guards.len()
        invariant
            k <= guards.len(),
            forall|j: int| 0 <= j < k ==> (#[trigger] guards.deep_view()[j]).len() == obs@.len(),
            found == exists|j: int|
                0 <= j < k && guard_matches(obs@, #[trigger] guards.deep_view()[j]),
        decreases guards.len() - k,
    {
        assert(guards.deep_view()[k as int] == guards@[k as int]@);
        if !same_width(obs, &guards[k]) {
            return None;
        }
        if obs_match_guard(obs, &guards[k]) {
            found = true;
        }
        k += 1;
    }
    Some(found)
}

} // verus!

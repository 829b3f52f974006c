//! The precomputed strategy: a table from states to the robot's moves, and
//! the safety and fairness advisers that hold at each state.

use crate::fault::ConfigFault;
use crate::graph::{GraphState, StateView};
use crate::guard::Guards;
use crate::moves::{label_move, move_from_label, NextMove};
use vstd::prelude::*;

verus! {

/// The strategy table: a hash map of `bevy::utils` from state keys to move
/// labels. Verus does not look inside; `table_entries` names what it holds.
#[verifier::external_body]
pub struct StrategyTable {
    entries: bevy::utils::HashMap<String, String>,
}

/// What a strategy table holds, as a map from keys to labels.
pub type TableView = Map<Seq<char>, Seq<char>>;

/// The entries of a strategy table: the label stored under each key.
pub uninterp spec fn table_entries(table: StrategyTable) -> TableView;

/// The table that holds `entries`, entered in their order: a later entry
/// replaces an earlier one with the same key.
pub open spec fn entries_map(entries: Seq<(Seq<char>, Seq<char>)>) -> TableView
    decreases entries.len(),
{
    if entries.len() == 0 {
        Map::empty()
    } else {
        entries_map(entries.drop_last()).insert(entries.last().0, entries.last().1)
    }
}

impl StrategyTable {
    /// `HashMap::default` of hashbrown, through `bevy::utils`: a map that
    /// holds no entry.
    #[verifier::external_body]
    fn empty() -> (table: StrategyTable)
        ensures
            table_entries(table) == TableView::empty(),
    {
        StrategyTable { entries: bevy::utils::HashMap::default() }
    }

    /// `HashMap::insert` of hashbrown: afterwards `key` maps to `label`,
    /// whether or not it had an entry, and every other key is as before.
    #[verifier::external_body]
    fn put(&mut self, key: String, label: String)
        ensures
            table_entries(*final(self)) == table_entries(*old(self)).insert(key@, label@),
    {
        self.entries.insert(key, label);
    }

    /// `HashMap::get` of hashbrown: the label stored under `key`, or `None`
    /// where the map has no entry for it.
    #[verifier::external_body]
    fn lookup(&self, key: &String) -> (label: Option<&String>)
        ensures
            label is Some <==> table_entries(*self).contains_key(key@),
            label matches Some(l) ==> l@ == table_entries(*self)[key@],
    {
        self.entries.get(key)
    }

    /// Builds the table that holds `entries`.
    pub fn from_entries(entries: &Vec<(String, String)>) -> (table: StrategyTable)
        ensures
            table_entries(table) == entries_map(entries.deep_view()),
    {
        let mut table = StrategyTable::empty();
        let mut i: usize = 0;
        while i < entries.len()
            invariant
                i <= entries.len(),
                table_entries(table) == entries_map(entries.deep_view().take(i as int)),
            decreases entries.len() - i,
        {
            let key = entries[i].0.clone();
            let label = entries[i].1.clone();
            proof {
                let upto = entries.deep_view().take(i + 1);
                assert(upto.drop_last() =~= entries.deep_view().take(i as int));
            }
            table.put(key, label);
            i += 1;
        }
        assert(entries.deep_view().take(entries.len() as int) =~= entries.deep_view());
        table
    }
}

/// An adviser list as text: states with the guards that hold there.
pub type AdviserView = Seq<(StateView, Seq<Seq<char>>)>;

/// The strategy as the artifact holds it.
pub struct Strategy {
    /// The robot's move for each state, keyed by the state's text.
    pub strat: StrategyTable,
    /// What the human must not do, by state.
    pub safety_adv: Vec<(GraphState, Guards)>,
    /// What the human should do, by state.
    pub fairness_adv: Vec<(GraphState, Guards)>,
    /// The propositions that the guards speak of, in the order of their places.
    pub guard_ap: Vec<String>,
}

/// The strategy as mathematical data.
pub struct StrategyView {
    pub table: TableView,
    pub safety_adv: AdviserView,
    pub fairness_adv: AdviserView,
    pub guard_ap: Seq<Seq<char>>,
}

impl View for Strategy {
    type V = StrategyView;

    open spec fn view(&self) -> StrategyView {
        StrategyView {
            table: table_entries(self.strat),
            safety_adv: self.safety_adv.deep_view(),
            fairness_adv: self.fairness_adv.deep_view(),
            guard_ap: self.guard_ap.deep_view(),
        }
    }
}

/// The key of `state` in the strategy table: its first two fields, each in
/// single quotes, separated by a comma and a space, in parentheses.
pub open spec fn strategy_key(state: StateView) -> Seq<char> {
    "('"@ + state.0 + "', '"@ + state.1 + "')"@
}

/// Writes the key of `state` in the strategy table.
pub fn state_key(state: &GraphState) -> (key: String)
    ensures
        key@ == strategy_key(state@),
{
    let mut key = String::new();
    key.append("('");
    key.append(state.0.as_str());
    key.append("', '");
    key.append(state.1.as_str());
    key.append("')");
    key
}

impl StrategyView {
    /// The entry of `state` in the table, if it has one, carries a label that
    /// names a move.
    pub open spec fn entry_known(self, state: StateView) -> bool {
        self.table.contains_key(strategy_key(state)) ==> label_move(
            self.table[strategy_key(state)],
        ) is Some
    }

    /// The move that the table prescribes at `state`: the move that the label
    /// under the state's key names, if there is such an entry.
    pub open spec fn prescribed(self, state: StateView) -> Option<NextMove> {
        if self.table.contains_key(strategy_key(state)) {
            label_move(self.table[strategy_key(state)])
        } else {
            None
        }
    }

    /// What looking up `state` gives: the prescribed move, none without an
    /// entry, and a fault where the entry's label names no move.
    pub open spec fn move_at(self, state: StateView) -> Result<Option<NextMove>, ConfigFault> {
        if self.entry_known(state) {
            Ok(self.prescribed(state))
        } else {
            Err(ConfigFault::ActLabel)
        }
    }
}

impl Strategy {
    /// Whether the entry of `state` in the table, if it has one, carries a
    /// label that names a move.
    pub fn entry_known(&self, state: &GraphState) -> (known: bool)
        ensures
            known == self@.entry_known(state@),
    {
        let state_string = state_key(state);
        match self.strat.lookup(&state_string) {
            Some(move_string) => move_from_label(move_string.as_str()).is_some(),
            None => true,
        }
    }

    /// The move that the strategy prescribes for the robot at `state`, or
    /// `None` where the table has no entry for it. An entry whose label names
    /// no move is a defect of the table and is left out.
    pub fn next_move(&self, state: &GraphState) -> (prescribed: Option<NextMove>)
        requires
            self@.entry_known(state@),
        ensures
            prescribed == self@.prescribed(state@),
            prescribed is Some <==> self@.table.contains_key(strategy_key(state@)),
    {
        let state_string = state_key(state);
        match self.strat.lookup(&state_string) {
            Some(move_string) => move_from_label(move_string.as_str()),
            None => None,
        }
    }

    /// Looks up the move that the strategy prescribes at `state`, and fails
    /// where the state's entry carries a label that names no move.
    pub fn find_move(&self, state: &GraphState) -> (found: Result<Option<NextMove>, ConfigFault>)
        ensures
            found == self@.move_at(state@),
    {
        if !self.entry_known(state) {
            return Err(ConfigFault::ActLabel);
        }
        Ok(self.next_move(state))
    }
}

} // verus!

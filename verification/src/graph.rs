//! The synthesis game: a graph of states with action edges for the robot,
//! guarded edges for the human's observations and plain edges for the
//! environment, and the queries that walk it.

use crate::guard::{guards_admit, guards_fit, match_guards, Guards};
use crate::moves::{label_move, move_from_label, NextMove};
use vstd::prelude::*;

verus! {

/// A state of the game graph.
pub type GraphState = (String, String, String);

/// A state of the game graph, as text.
pub type StateView = (Seq<char>, Seq<char>, Seq<char>);

/// Whether two states are the same state.
pub fn state_eq(a: &GraphState, b: &GraphState) -> (same: bool)
    ensures
        same == (a@ == b@),
{
    a.0 == b.0 && a.1 == b.1 && a.2 == b.2
}

/// A copy of `state`.
pub fn clone_state(state: &GraphState) -> (copy: GraphState)
    ensures
        copy@ == state@,
{
    (state.0.clone(), state.1.clone(), state.2.clone())
}

/// What the artifact says of the graph as a whole.
#[derive(Debug, PartialEq, Eq)]
pub struct Graph {
    /// The accepting states: the task is complete there.
    pub acc: Vec<GraphState>,
    /// The state a session starts in.
    pub init: GraphState,
    /// The human's propositions, in the order of the observation bits.
    pub human_ap: Vec<String>,
    /// The robot's propositions.
    pub mdp_ap: Vec<String>,
}

/// A node of the graph.
#[derive(Debug, PartialEq, Eq)]
pub struct NodeData {
    /// The player who moves at this node.
    pub player: u8,
    pub ap: Option<String>,
    pub id: GraphState,
}

/// An edge of the graph.
#[derive(Debug, PartialEq, Eq)]
pub struct LinkData {
    /// The action label, on an edge that the robot's move follows.
    pub act: Option<String>,
    /// The guard set, on an edge that the human's observation follows.
    pub guards: Option<Guards>,
    /// The probability of an environment edge, as the bit pattern of a
    /// single-precision number. No query reads it.
    pub prob: Option<u32>,
    pub source: GraphState,
    pub target: GraphState,
}

/// The synthesis game as the artifact holds it.
#[derive(Debug, PartialEq, Eq)]
pub struct SynthGame {
    pub directed: bool,
    pub multigraph: bool,
    pub graph: Graph,
    pub nodes: Vec<NodeData>,
    pub links: Vec<LinkData>,
}

/// The current state of the game.
#[derive(Debug, PartialEq, Eq)]
pub struct SynthGameState(pub GraphState);

/// A node, as text.
pub struct NodeView {
    pub player: u8,
    pub ap: Option<Seq<char>>,
    pub id: StateView,
}

/// An edge, as text.
pub struct EdgeView {
    pub act: Option<Seq<char>>,
    pub guards: Option<Seq<Seq<char>>>,
    pub prob: Option<u32>,
    pub source: StateView,
    pub target: StateView,
}

/// The game as mathematical data: what the queries are stated over.
pub struct GameView {
    pub directed: bool,
    pub multigraph: bool,
    pub acc: Seq<StateView>,
    pub init: StateView,
    pub human_ap: Seq<Seq<char>>,
    pub mdp_ap: Seq<Seq<char>>,
    pub nodes: Seq<NodeView>,
    pub links: Seq<EdgeView>,
}

impl View for NodeData {
    type V = NodeView;

    open spec fn view(&self) -> NodeView {
        NodeView { player: self.player, ap: self.ap.deep_view(), id: self.id@ }
    }
}

impl DeepView for NodeData {
    type V = NodeView;

    open spec fn deep_view(&self) -> NodeView {
        self@
    }
}

impl View for LinkData {
    type V = EdgeView;

    open spec fn view(&self) -> EdgeView {
        EdgeView {
            act: self.act.deep_view(),
            guards: self.guards.deep_view(),
            prob: self.prob,
            source: self.source@,
            target: self.target@,
        }
    }
}

impl DeepView for LinkData {
    type V = EdgeView;

    open spec fn deep_view(&self) -> EdgeView {
        self@
    }
}

impl View for SynthGame {
    type V = GameView;

    open spec fn view(&self) -> GameView {
        GameView {
            directed: self.directed,
            multigraph: self.multigraph,
            acc: self.graph.acc.deep_view(),
            init: self.graph.init@,
            human_ap: self.graph.human_ap.deep_view(),
            mdp_ap: self.graph.mdp_ap.deep_view(),
            nodes: self.nodes.deep_view(),
            links: self.links.deep_view(),
        }
    }
}

impl EdgeView {
    /// The move this edge is labelled with, if it carries a known label.
    pub open spec fn action(self) -> Option<NextMove> {
        match self.act {
            Some(label) => label_move(label),
            None => None,
        }
    }

    /// The edge carries a label that names no move.
    pub open spec fn mislabelled(self) -> bool {
        self.act matches Some(label) && label_move(label) is None
    }

    /// Every guard of the edge, if it has guards, has the width of `obs`.
    pub open spec fn fits(self, obs: Seq<char>) -> bool {
        self.guards matches Some(guards) ==> guards_fit(guards, obs)
    }

    /// The edge has a guard that matches `obs`.
    pub open spec fn admits(self, obs: Seq<char>) -> bool {
        self.guards matches Some(guards) && guards_admit(guards, obs)
    }

    /// The move that this edge offers at `state`: its action, if it leaves
    /// `state` and carries a known label.
    pub open spec fn offers(self, state: StateView) -> Option<NextMove> {
        if self.source == state {
            self.action()
        } else {
            None
        }
    }
}

impl GameView {
    /// `state` is a node of the graph.
    pub open spec fn has_node(self, state: StateView) -> bool {
        exists|n: int| 0 <= n < self.nodes.len() && (#[trigger] self.nodes[n]).id == state
    }

    /// Every edge starts and ends at a node of the graph.
    pub open spec fn wf(self) -> bool {
        forall|i: int|
            0 <= i < self.links.len() ==> self.has_node((#[trigger] self.links[i]).source)
                && self.has_node(self.links[i].target)
    }

    /// `state` is an accepting state.
    pub open spec fn accepting(self, state: StateView) -> bool {
        self.acc.contains(state)
    }

    /// Edge `i` exists and leaves `state`.
    pub open spec fn leaves(self, i: int, state: StateView) -> bool {
        0 <= i < self.links.len() && self.links[i].source == state
    }

    /// Edge `i` is the one that `next_move` follows from `state`: the first
    /// edge from `state` labelled with `next_move`, no edge from `state` before
    /// it being mislabelled.
    pub open spec fn is_action_edge(self, state: StateView, next_move: NextMove, i: int) -> bool {
        &&& self.leaves(i, state)
        &&& self.links[i].action() == Some(next_move)
        &&& forall|j: int|
            #[trigger] self.leaves(j, state) && j < i ==> self.links[j].action() != Some(next_move)
                && !self.links[j].mislabelled()
    }

    /// The edge that `next_move` follows from `state`, if there is one.
    pub open spec fn action_edge(self, state: StateView, next_move: NextMove) -> Option<int> {
        if exists|i: int| self.is_action_edge(state, next_move, i) {
            Some(choose|i: int| self.is_action_edge(state, next_move, i))
        } else {
            None
        }
    }

    /// The state that `next_move` leads to from `state`, if it leads anywhere.
    pub open spec fn action_target(self, state: StateView, next_move: NextMove) -> Option<
        StateView,
    > {
        match self.action_edge(state, next_move) {
            Some(i) => Some(self.links[i].target),
            None => None,
        }
    }

    /// Edge `i` is the one that the observation `obs` follows from `state`: the
    /// first edge from `state` with a guard matching `obs`, all guards of the
    /// edges from `state` up to it having the width of `obs`.
    pub open spec fn is_obs_edge(self, state: StateView, obs: Seq<char>, i: int) -> bool {
        &&& self.leaves(i, state)
        &&& self.links[i].fits(obs)
        &&& self.links[i].admits(obs)
        &&& forall|j: int|
            #[trigger] self.leaves(j, state) && j < i ==> self.links[j].fits(obs)
                && !self.links[j].admits(obs)
    }

    /// The edge that the observation `obs` follows from `state`, if there is one.
    pub open spec fn obs_edge(self, state: StateView, obs: Seq<char>) -> Option<int> {
        if exists|i: int| self.is_obs_edge(state, obs, i) {
            Some(choose|i: int| self.is_obs_edge(state, obs, i))
        } else {
            None
        }
    }

    /// The state that the observation `obs` leads to from `state`, if it leads
    /// anywhere.
    pub open spec fn obs_target(self, state: StateView, obs: Seq<char>) -> Option<StateView> {
        match self.obs_edge(state, obs) {
            Some(i) => Some(self.links[i].target),
            None => None,
        }
    }

    /// Edge `i` is the only edge that leaves `state`.
    pub open spec fn is_only_edge(self, state: StateView, i: int) -> bool {
        &&& self.leaves(i, state)
        &&& forall|j: int| #[trigger] self.leaves(j, state) ==> j == i
    }

    /// The only edge that leaves `state`, if exactly one does.
    pub open spec fn only_edge(self, state: StateView) -> Option<int> {
        if exists|i: int| self.is_only_edge(state, i) {
            Some(choose|i: int| self.is_only_edge(state, i))
        } else {
            None
        }
    }

    /// The state that the environment step leads to from `state`: the target
    /// of its only outgoing edge.
    pub open spec fn env_target(self, state: StateView) -> Option<StateView> {
        match self.only_edge(state) {
            Some(i) => Some(self.links[i].target),
            None => None,
        }
    }

    /// No edge that leaves `state` is mislabelled.
    pub open spec fn labels_known(self, state: StateView) -> bool {
        forall|i: int| #[trigger] self.leaves(i, state) ==> !self.links[i].mislabelled()
    }

    /// The moves that the edges from `state` are labelled with, in the order
    /// of the edges.
    pub open spec fn moves_from(self, state: StateView) -> Seq<NextMove> {
        self.links.filter_map(|edge: EdgeView| edge.offers(state))
    }
}

/// At most one edge is the one that a move follows from a state.
pub proof fn lemma_action_edge_unique(game: GameView, state: StateView, next_move: NextMove, i: int)
    requires
        game.is_action_edge(state, next_move, i),
    ensures
        game.action_edge(state, next_move) == Some(i),
{
}

/// At most one edge is the one that an observation follows from a state.
pub proof fn lemma_obs_edge_unique(game: GameView, state: StateView, obs: Seq<char>, i: int)
    requires
        game.is_obs_edge(state, obs, i),
    ensures
        game.obs_edge(state, obs) == Some(i),
{
}

/// At most one edge is the only edge from a state.
pub proof fn lemma_only_edge_unique(game: GameView, state: StateView, i: int)
    requires
        game.is_only_edge(state, i),
    ensures
        game.only_edge(state) == Some(i),
{
}

/// Below an edge from `state` labelled with `next_move` there is a first one.
proof fn lemma_first_action_edge(game: GameView, state: StateView, next_move: NextMove, i: int)
    requires
        game.labels_known(state),
        game.leaves(i, state),
        game.links[i].action() == Some(next_move),
    ensures
        game.action_edge(state, next_move) is Some,
    decreases i,
{
    if exists|j: int| #[trigger] game.leaves(j, state) && j < i && game.links[j].action() == Some(
        next_move,
    ) {
        let j = choose|j: int| #[trigger]
            game.leaves(j, state) && j < i && game.links[j].action() == Some(next_move);
        lemma_first_action_edge(game, state, next_move, j);
    } else {
        lemma_action_edge_unique(game, state, next_move, i);
    }
}

/// In a well-formed game, a move that is open at a state, none of whose
/// edges is mislabelled, leads to a node of the graph.
pub proof fn lemma_legal_move_leads_to_node(game: GameView, state: StateView, next_move: NextMove)
    requires
        game.wf(),
        game.labels_known(state),
        game.moves_from(state).contains(next_move),
    ensures
        game.action_target(state, next_move) is Some,
        game.has_node(game.action_target(state, next_move).unwrap()),
{
    let offers = |edge: EdgeView| edge.offers(state);
    game.links.lemma_filter_map_contains(offers, next_move);
    let edge = choose|edge: EdgeView| #[trigger]
        game.links.contains(edge) && offers(edge) == Some(next_move);
    let i = choose|i: int| 0 <= i < game.links.len() && game.links[i] == edge;
    lemma_first_action_edge(game, state, next_move, i);
    lemma_action_target_is_node(game, state, next_move);
}

/// In a well-formed game, a move that leads anywhere from a state leads to a
/// node of the graph.
pub proof fn lemma_action_target_is_node(game: GameView, state: StateView, next_move: NextMove)
    requires
        game.wf(),
        game.action_target(state, next_move) is Some,
    ensures
        game.has_node(game.action_target(state, next_move).unwrap()),
{
}

/// What `apply_robot_move` returns is determined by what its arguments read
/// as: on games, states and moves that read the same it gives states that read
/// the same, and it is defined for the one where it is for the other.
pub proof fn lemma_robot_move_is_determined(
    game: SynthGame,
    other_game: SynthGame,
    state: GraphState,
    other_state: GraphState,
    next_move: NextMove,
)
    requires
        game@ == other_game@,
        state@ == other_state@,
    ensures
        game@.action_target(state@, next_move) == other_game@.action_target(
            other_state@,
            next_move,
        ),
{
}

impl LinkData {
    /// The move this edge is labelled with.
    pub fn act(&self) -> (action: NextMove)
        requires
            self@.action() is Some,
        ensures
            Some(action) == self@.action(),
    {
        let (action, _) = self.read_label();
        action.unwrap()
    }

    /// The move this edge is labelled with, if it carries a known label, and
    /// whether its label is known.
    fn read_label(&self) -> (read: (Option<NextMove>, bool))
        ensures
            read.0 == self@.action(),
            read.1 == !self@.mislabelled(),
    {
        match &self.act {
            Some(label) => {
                let action = move_from_label(label.as_str());
                let known = action.is_some();
                (action, known)
            },
            None => (None, true),
        }
    }
}

impl SynthGame {
    /// Whether `state` is a node of the graph.
    pub fn has_node(&self, state: &GraphState) -> (found: bool)
        ensures
            found == self@.has_node(state@),
    {
        let mut n: usize = 0;
        while n < self.nodes.len()
            invariant
                n <= self.nodes.len(),
                forall|k: int| 0 <= k < n ==> (#[trigger] self@.nodes[k]).id != state@,
            decreases self.nodes.len() - n,
        {
            assert(self@.nodes[n as int] == self.nodes@[n as int]@);
            if state_eq(&self.nodes[n].id, state) {
                return true;
            }
            n += 1;
        }
        false
    }

    /// Whether every edge starts and ends at a node of the graph.
    pub fn is_well_formed(&self) -> (ok: bool)
        ensures
            ok == self@.wf(),
    {
        let mut i: usize = 0;
        while i < self.links.len()
            invariant
                i <= self.links.len(),
                forall|j: int|
                    0 <= j < i ==> self@.has_node((#[trigger] self@.links[j]).source)
                        && self@.has_node(self@.links[j].target),
            decreases self.links.len() - i,
        {
            assert(self@.links[i as int] == self.links@[i as int]@);
            if !self.has_node(&self.links[i].source) || !self.has_node(&self.links[i].target) {
                return false;
            }
            i += 1;
        }
        true
    }

    /// Whether `state` is an accepting state.
    pub fn is_accepting(&self, state: &GraphState) -> (accepting: bool)
        ensures
            accepting == self@.accepting(state@),
    {
        let mut i: usize = 0;
        while i < self.graph.acc.len()
            invariant
                i <= self.graph.acc.len(),
                forall|j: int| 0 <= j < i ==> self@.acc[j] != state@,
            decreases self.graph.acc.len() - i,
        {
            assert(self@.acc[i as int] == self.graph.acc@[i as int]@);
            if state_eq(&self.graph.acc[i], state) {
                return true;
            }
            i += 1;
        }
        false
    }

    /// The edge that `next_move` follows from `cur_state`, if there is one.
    pub fn find_robot_edge(&self, cur_state: &GraphState, next_move: NextMove) -> (found: Option<
        usize,
    >)
        ensures
            found is Some <==> self@.action_edge(cur_state@, next_move) is Some,
            found matches Some(i) ==> self@.action_edge(cur_state@, next_move) == Some(i as int)
                && i < self.links.len(),
    {
        let mut i: usize = 0;
        while i < self.links.len()
            invariant
                i <= self.links.len(),
                forall|j: int|
                    #[trigger] self@.leaves(j, cur_state@) && j < i ==> self@.links[j].action()
                        != Some(next_move) && !self@.links[j].mislabelled(),
            decreases self.links.len() - i,
        {
            if state_eq(&self.links[i].source, cur_state) {
                let (action, known) = self.links[i].read_label();
                if !known {
                    proof {
                        assert(self@.leaves(i as int, cur_state@));
                    }
                    return None;
                }
                if action == Some(next_move) {
                    proof {
                        lemma_action_edge_unique(self@, cur_state@, next_move, i as int);
                    }
                    return Some(i);
                }
            }
            i += 1;
        }
        None
    }

    /// The state that the robot's `next_move` leads to from `cur_state`: the
    /// same state whenever it is asked of the same game, state and move.
    pub fn apply_robot_move(&self, cur_state: &GraphState, next_move: NextMove) -> (next:
        GraphState)
        requires
            self@.action_target(cur_state@, next_move) is Some,
        ensures
            Some(next@) == self@.action_target(cur_state@, next_move),
    {
        let found = self.find_robot_edge(cur_state, next_move);
        let i = found.unwrap();
        clone_state(&self.links[i].target)
    }

    /// The edge that the human's observation `obs` follows from `cur_state`,
    /// if there is one.
    pub fn find_obs_edge(&self, cur_state: &GraphState, obs: &String) -> (found: Option<usize>)
        ensures
            found is Some <==> self@.obs_edge(cur_state@, obs@) is Some,
            found matches Some(i) ==> self@.obs_edge(cur_state@, obs@) == Some(i as int) && i
                < self.links.len(),
    {
        let mut i: usize = 0;
        while i < self.links.len()
            invariant
                i <= self.links.len(),
                forall|j: int|
                    #[trigger] self@.leaves(j, cur_state@) && j < i ==> self@.links[j].fits(obs@)
                        && !self@.links[j].admits(obs@),
            decreases self.links.len() - i,
        {
            if state_eq(&self.links[i].source, cur_state) {
                match &self.links[i].guards {
                    Some(guards) => {
                        match match_guards(guards, obs) {
                            None => {
                                proof {
                                    assert(self@.leaves(i as int, cur_state@));
                                }
                                return None;
                            },
                            Some(admits) => {
                                if admits {
                                    proof {
                                        lemma_obs_edge_unique(self@, cur_state@, obs@, i as int);
                                    }
                                    return Some(i);
                                }
                            },
                        }
                    },
                    None => {},
                }
            }
            i += 1;
        }
        None
    }

    /// The state that the human's observation `obs` leads to from `cur_state`.
    pub fn apply_human_obs(&self, cur_state: &GraphState, obs: &String) -> (next: GraphState)
        requires
            self@.obs_target(cur_state@, obs@) is Some,
        ensures
            Some(next@) == self@.obs_target(cur_state@, obs@),
    {
        let found = self.find_obs_edge(cur_state, obs);
        let i = found.unwrap();
        clone_state(&self.links[i].target)
    }

    /// The first edge at or after `from` that leaves `state`.
    fn next_edge_from(&self, state: &GraphState, from: usize) -> (found: Option<usize>)
        ensures
            found matches Some(i) ==> from <= i < self.links.len() && self@.leaves(
                i as int,
                state@,
            ) && forall|j: int| #[trigger] self@.leaves(j, state@) && from <= j ==> i <= j,
            found is None ==> forall|j: int| #[trigger] self@.leaves(j, state@) ==> j < from,
    {
        let mut i: usize = from;
        while i < self.links.len()
            invariant
                from <= i,
                forall|j: int| #[trigger] self@.leaves(j, state@) && from <= j ==> i <= j,
            decreases self.links.len() - i,
        {
            if state_eq(&self.links[i].source, state) {
                return Some(i);
            }
            i += 1;
        }
        None
    }

    /// The only edge that leaves `prob_state`, if exactly one does.
    pub fn find_prob_edge(&self, prob_state: &GraphState) -> (found: Option<usize>)
        ensures
            found is Some <==> self@.only_edge(prob_state@) is Some,
            found matches Some(i) ==> self@.only_edge(prob_state@) == Some(i as int) && i
                < self.links.len(),
    {
        match self.next_edge_from(prob_state, 0) {
            Some(i) => {
                match self.next_edge_from(prob_state, i + 1) {
                    Some(other) => {
                        None
                    },
                    None => {
                        proof {
                            lemma_only_edge_unique(self@, prob_state@, i as int);
                        }
                        Some(i)
                    },
                }
            },
            None => {
                None
            },
        }
    }

    /// The state that the environment step leads to from `prob_state`, which
    /// has exactly one outgoing edge.
    pub fn skip_prob_state(&self, prob_state: &GraphState) -> (next: GraphState)
        requires
            self@.env_target(prob_state@) is Some,
        ensures
            Some(next@) == self@.env_target(prob_state@),
    {
        let found = self.next_edge_from(prob_state, 0);
        let i = found.unwrap();
        clone_state(&self.links[i].target)
    }

    /// Whether no edge that leaves `cur_state` is mislabelled.
    pub fn robot_labels_known(&self, cur_state: &GraphState) -> (known: bool)
        ensures
            known == self@.labels_known(cur_state@),
    {
        let mut i: usize = 0;
        while i < self.links.len()
            invariant
                i <= self.links.len(),
                forall|j: int|
                    #[trigger] self@.leaves(j, cur_state@) && j < i
                        ==> !self@.links[j].mislabelled(),
            decreases self.links.len() - i,
        {
            if state_eq(&self.links[i].source, cur_state) {
                let (_, known) = self.links[i].read_label();
                if !known {
                    assert(self@.leaves(i as int, cur_state@));
                    return false;
                }
            }
            i += 1;
        }
        true
    }

    /// The moves open to the robot at `cur_state`: the labels of the edges
    /// that leave it, in their order.
    pub fn valid_robot_moves(&self, cur_state: &GraphState) -> (valid_moves: Vec<NextMove>)
        requires
            self@.labels_known(cur_state@),
        ensures
            valid_moves@ == self@.moves_from(cur_state@),
    {
        let mut valid_moves: Vec<NextMove> = Vec::new();
        let ghost offers = |edge: EdgeView| edge.offers(cur_state@);
        let mut i: usize = 0;
        while i < self.links.len()
            invariant
                i <= self.links.len(),
                offers == |edge: EdgeView| edge.offers(cur_state@),
                valid_moves@ == self@.links.take(i as int).filter_map(offers),
            decreases self.links.len() - i,
        {
            proof {
                self@.links.lemma_filter_map_take_succ(offers, i as int);
            }
            if state_eq(&self.links[i].source, cur_state) {
                let (action, _) = self.links[i].read_label();
                match action {
                    Some(next_move) => {
                        valid_moves.push(next_move);
                    },
                    None => {},
                }
            }
            i += 1;
        }
        assert(self@.links.take(self.links.len() as int) =~= self@.links);
        valid_moves
    }
}

} // verus!

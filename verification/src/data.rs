use vstd::prelude::*;
use std::collections::HashMap;
use crate::config::Config;
use crate::state::State;
use crate::steam::steam_id_shape;

verus! {

/// How many players a queue holds, and a match needs.
pub const QUEUE_CAPACITY: usize = 10;

/// How many maps the pool holds at most.
pub const MAP_POOL_LIMIT: usize = 26;

/// A starting side.
#[derive(Clone, Copy, Debug, PartialEq, Eq, Structural)]
pub enum Side {
    Ct,
    T,
}

/// The views of a list of strings.
pub open spec fn names_view(v: Seq<String>) -> Seq<Seq<char>> {
    v.map_values(|s: String| s@)
}

/// The views of the strings that a map holds.
pub open spec fn texts_view(m: Map<u64, String>) -> Map<u64, Seq<char>> {
    m.map_values(|s: String| s@)
}

/// One player's map vote.
#[derive(Clone, Debug, PartialEq, Eq)]
pub struct Ballot {
    pub voter: u64,
    pub maps: Vec<String>,
}

/// A ballot as the contracts see it.
pub struct BallotView {
    pub voter: u64,
    pub maps: Seq<Seq<char>>,
}

impl View for Ballot {
    type V = BallotView;

    open spec fn view(&self) -> BallotView {
        BallotView { voter: self.voter, maps: names_view(self.maps@) }
    }
}

/// The views of a list of ballots.
pub open spec fn ballots_view(v: Seq<Ballot>) -> Seq<BallotView> {
    v.map_values(|b: Ballot| b@)
}

/// The team assignment in progress.
pub struct Draft {
    pub(crate) captain_a: Option<u64>,
    pub(crate) captain_b: Option<u64>,
    pub(crate) team_a: Vec<u64>,
    pub(crate) team_b: Vec<u64>,
    pub(crate) team_b_start_side: Option<Side>,
    pub(crate) current_picker: Option<u64>,
    pub(crate) map_votes: Vec<Ballot>,
    pub(crate) selected_map: String,
}

/// The draft as the contracts see it.
#[verifier::ext_equal]
pub struct DraftView {
    pub captain_a: Option<u64>,
    pub captain_b: Option<u64>,
    pub team_a: Seq<u64>,
    pub team_b: Seq<u64>,
    pub team_b_start_side: Option<Side>,
    pub current_picker: Option<u64>,
    pub map_votes: Seq<BallotView>,
    pub selected_map: Seq<char>,
}

impl View for Draft {
    type V = DraftView;

    open(crate) spec fn view(&self) -> DraftView {
        DraftView {
            captain_a: self.captain_a,
            captain_b: self.captain_b,
            team_a: self.team_a@,
            team_b: self.team_b@,
            team_b_start_side: self.team_b_start_side,
            current_picker: self.current_picker,
            map_votes: ballots_view(self.map_votes@),
            selected_map: self.selected_map@,
        }
    }
}

impl DraftView {
    /// The draft before anything is decided.
    pub open spec fn empty() -> DraftView {
        DraftView {
            captain_a: None,
            captain_b: None,
            team_a: Seq::empty(),
            team_b: Seq::empty(),
            team_b_start_side: None,
            current_picker: None,
            map_votes: Seq::empty(),
            selected_map: Seq::empty(),
        }
    }

    /// How many players are on a team.
    pub open spec fn assigned(self) -> nat {
        self.team_a.len() + self.team_b.len()
    }

    /// Whether `player` is on a team.
    pub open spec fn has(self, player: u64) -> bool {
        self.team_a.contains(player) || self.team_b.contains(player)
    }

    /// The teams are two disjoint lists of players without repeats.
    pub open spec fn teams_wf(self) -> bool {
        &&& self.team_a.no_duplicates()
        &&& self.team_b.no_duplicates()
        &&& forall|i: int, j: int|
            0 <= i < self.team_a.len() && 0 <= j < self.team_b.len() ==> #[trigger] self.team_a[i]
                != #[trigger] self.team_b[j]
    }

    /// A captain is the first member of their team, captain A comes before
    /// captain B, and the turn is a captain's.
    pub open spec fn captains_wf(self) -> bool {
        &&& self.captain_a is None ==> self.team_a.len() == 0 && self.captain_b is None
        &&& self.captain_a matches Some(a) ==> self.team_a.len() > 0 && self.team_a[0] == a
        &&& self.captain_b is None ==> self.team_b.len() == 0
        &&& self.captain_b matches Some(b) ==> self.team_b.len() > 0 && self.team_b[0] == b
        &&& self.current_picker is Some <==> self.captain_a is Some
        &&& self.current_picker is Some ==> self.current_picker == self.captain_a
            || self.current_picker == self.captain_b
    }

    /// The teams differ in size by one at most, and the captain of the larger
    /// team is not the one to pick.
    pub open spec fn balanced(self) -> bool {
        &&& self.team_a.len() <= self.team_b.len() + 1
        &&& self.team_b.len() <= self.team_a.len() + 1
        &&& self.captain_b is Some && self.team_a.len() > self.team_b.len()
            ==> self.current_picker == self.captain_b
        &&& self.captain_b is Some && self.team_b.len() > self.team_a.len()
            ==> self.current_picker == self.captain_a
    }

    /// Every ballot names a map, and no player has two.
    pub open spec fn votes_wf(self) -> bool {
        &&& forall|i: int|
            0 <= i < self.map_votes.len() ==> (#[trigger] self.map_votes[i]).maps.len() > 0
        &&& forall|i: int, j: int|
            0 <= i < j < self.map_votes.len() ==> (#[trigger] self.map_votes[i]).voter != (
            #[trigger] self.map_votes[j]).voter
    }

    /// The draft's own invariant.
    pub open spec fn wf(self) -> bool {
        &&& self.teams_wf()
        &&& self.captains_wf()
        &&& self.balanced()
        &&& self.votes_wf()
    }
}

/// The whole shared state of one community: the queue, the ready check, the
/// draft, the phase, and the side tables.
pub struct Data {
    pub(crate) user_queue: Vec<u64>,
    pub(crate) ready_queue: Vec<u64>,
    pub(crate) queue_messages: HashMap<u64, String>,
    pub(crate) config: Config,
    pub(crate) steam_id_cache: HashMap<u64, String>,
    pub(crate) team_names: HashMap<u64, String>,
    pub(crate) state: State,
    pub(crate) maps: Vec<String>,
    pub(crate) draft: Draft,
}

/// The shared state as the contracts see it.
#[verifier::ext_equal]
pub struct DataView {
    pub user_queue: Seq<u64>,
    pub ready_queue: Seq<u64>,
    pub queue_messages: Map<u64, Seq<char>>,
    pub config: Config,
    pub steam_id_cache: Map<u64, Seq<char>>,
    pub team_names: Map<u64, Seq<char>>,
    pub state: State,
    pub maps: Seq<Seq<char>>,
    pub draft: DraftView,
}

impl View for Data {
    type V = DataView;

    open(crate) spec fn view(&self) -> DataView {
        DataView {
            user_queue: self.user_queue@,
            ready_queue: self.ready_queue@,
            queue_messages: texts_view(self.queue_messages@),
            config: self.config,
            steam_id_cache: texts_view(self.steam_id_cache@),
            team_names: texts_view(self.team_names@),
            state: self.state,
            maps: names_view(self.maps@),
            draft: self.draft@,
        }
    }
}

impl DataView {
    /// The queue holds no player twice and no more than it can.
    pub open spec fn queue_wf(self) -> bool {
        &&& self.user_queue.no_duplicates()
        &&& self.user_queue.len() <= QUEUE_CAPACITY
    }

    /// No player is ready twice.
    pub open spec fn ready_wf(self) -> bool {
        self.ready_queue.no_duplicates()
    }

    /// The pool holds no map twice and no more than it can.
    pub open spec fn maps_wf(self) -> bool {
        &&& self.maps.no_duplicates()
        &&& self.maps.len() <= MAP_POOL_LIMIT
    }

    /// Every join message is a queued player's.
    pub open spec fn messages_wf(self) -> bool {
        forall|k: u64| #[trigger] self.queue_messages.contains_key(k) ==> self.user_queue.contains(k)
    }

    /// Every registered game identity has the shape of one, and every player
    /// that is queued, ready, on a team or has voted has one registered. The
    /// queue can be emptied in the middle of a setup, so that the players of
    /// the setup need not be queued; registered they stay.
    pub open spec fn identities_wf(self) -> bool {
        &&& forall|k: u64| #[trigger]
            self.steam_id_cache.contains_key(k) ==> steam_id_shape(self.steam_id_cache[k])
        &&& forall|i: int|
            0 <= i < self.user_queue.len() ==> self.steam_id_cache.contains_key(
                #[trigger] self.user_queue[i],
            )
        &&& forall|i: int|
            0 <= i < self.ready_queue.len() ==> self.steam_id_cache.contains_key(
                #[trigger] self.ready_queue[i],
            )
        &&& forall|i: int|
            0 <= i < self.draft.team_a.len() ==> self.steam_id_cache.contains_key(
                #[trigger] self.draft.team_a[i],
            )
        &&& forall|i: int|
            0 <= i < self.draft.team_b.len() ==> self.steam_id_cache.contains_key(
                #[trigger] self.draft.team_b[i],
            )
        &&& forall|i: int|
            0 <= i < self.draft.map_votes.len() ==> self.steam_id_cache.contains_key(
                (#[trigger] self.draft.map_votes[i]).voter,
            )
    }

    /// What each phase implies of the rest of the state.
    pub open spec fn phase_wf(self) -> bool {
        &&& self.state == State::Queue ==> self.ready_queue.len() == 0 && self.draft
            == DraftView::empty()
        &&& self.state == State::Ready ==> self.draft == DraftView::empty()
        &&& self.state == State::MapPick ==> self.draft.captain_a is None
        &&& self.state == State::DraftTypePick ==> self.draft.captain_a is None
        &&& self.state == State::CaptainPick ==> self.draft.captain_b is None
            && self.draft.team_a.len() <= 1
        &&& self.state == State::Draft ==> self.draft.captain_b is Some
        &&& self.state == State::SidePick ==> self.draft.captain_b is Some
        &&& self.state != State::SidePick ==> self.draft.team_b_start_side is None
    }

    /// The invariant of the shared state.
    pub open spec fn wf(self) -> bool {
        &&& self.queue_wf()
        &&& self.ready_wf()
        &&& self.maps_wf()
        &&& self.messages_wf()
        &&& self.identities_wf()
        &&& self.draft.wf()
        &&& self.phase_wf()
    }
}

/// The state after a setup is given up: nobody ready, nothing drafted, phase
/// `Queue`. The queue stays as it is.
pub open spec fn after_reset(v: DataView) -> DataView {
    DataView { ready_queue: Seq::empty(), draft: DraftView::empty(), state: State::Queue, ..v }
}

/// The state after the queue is emptied: nobody queued and no join messages.
/// Phase, ready check and draft stay as they are.
pub open spec fn after_clear_queue(v: DataView) -> DataView {
    DataView { user_queue: Seq::empty(), queue_messages: Map::empty(), ..v }
}

/// The state after a launch, whatever its outcome: nobody queued, nobody
/// ready, no join messages, no draft, phase `Queue`.
pub open spec fn after_clear(v: DataView) -> DataView {
    DataView {
        user_queue: Seq::empty(),
        ready_queue: Seq::empty(),
        queue_messages: Map::empty(),
        state: State::Queue,
        draft: DraftView::empty(),
        ..v
    }
}

impl Draft {
    /// The draft before anything is decided.
    pub fn new() -> (d: Draft)
        ensures
            d@ == DraftView::empty(),
    {
        Draft {
            captain_a: None,
            captain_b: None,
            team_a: Vec::new(),
            team_b: Vec::new(),
            team_b_start_side: None,
            current_picker: None,
            map_votes: Vec::new(),
            selected_map: String::new(),
        }
    }
}

impl Draft {
    /// Captain A, once there is one.
    pub fn captain_a(&self) -> (r: Option<u64>)
        ensures
            r == self@.captain_a,
    {
        self.captain_a
    }

    /// Captain B, once there is one.
    pub fn captain_b(&self) -> (r: Option<u64>)
        ensures
            r == self@.captain_b,
    {
        self.captain_b
    }

    /// Team A, its captain first.
    pub fn team_a(&self) -> (r: &Vec<u64>)
        ensures
            r@ == self@.team_a,
    {
        &self.team_a
    }

    /// Team B, its captain first.
    pub fn team_b(&self) -> (r: &Vec<u64>)
        ensures
            r@ == self@.team_b,
    {
        &self.team_b
    }

    /// The side on which team B starts, once it is picked.
    pub fn team_b_start_side(&self) -> (r: Option<Side>)
        ensures
            r == self@.team_b_start_side,
    {
        self.team_b_start_side
    }

    /// The captain whose turn it is to pick.
    pub fn current_picker(&self) -> (r: Option<u64>)
        ensures
            r == self@.current_picker,
    {
        self.current_picker
    }

    /// The ballots of the map vote.
    pub fn map_votes(&self) -> (r: &Vec<Ballot>)
        ensures
            ballots_view(r@) == self@.map_votes,
    {
        &self.map_votes
    }

    /// The map to be played, once the vote has given one.
    pub fn selected_map(&self) -> (r: &String)
        ensures
            r@ == self@.selected_map,
    {
        &self.selected_map
    }
}

impl Data {
    /// The queue, in the order of joining.
    pub fn user_queue(&self) -> (r: &Vec<u64>)
        ensures
            r@ == self@.user_queue,
    {
        &self.user_queue
    }

    /// The players that have said they are ready.
    pub fn ready_queue(&self) -> (r: &Vec<u64>)
        ensures
            r@ == self@.ready_queue,
    {
        &self.ready_queue
    }

    /// The phase.
    pub fn state(&self) -> (r: State)
        ensures
            r == self@.state,
    {
        self.state
    }

    /// The map pool.
    pub fn maps(&self) -> (r: &Vec<String>)
        ensures
            names_view(r@) == self@.maps,
    {
        &self.maps
    }

    /// The draft.
    pub fn draft(&self) -> (r: &Draft)
        ensures
            r@ == self@.draft,
    {
        &self.draft
    }

    /// The configuration.
    pub fn config(&self) -> (r: &Config)
        ensures
            *r == self@.config,
    {
        &self.config
    }

    /// The game identities, by player.
    pub fn steam_id_cache(&self) -> (r: &HashMap<u64, String>)
        ensures
            texts_view(r@) == self@.steam_id_cache,
    {
        &self.steam_id_cache
    }

    /// The team names, by player.
    pub fn team_names(&self) -> (r: &HashMap<u64, String>)
        ensures
            texts_view(r@) == self@.team_names,
    {
        &self.team_names
    }

    /// The join messages, by player.
    pub fn queue_messages(&self) -> (r: &HashMap<u64, String>)
        ensures
            texts_view(r@) == self@.queue_messages,
    {
        &self.queue_messages
    }

    /// The game identity that `user` registered, if any.
    pub fn steam_id_of(&self, user: u64) -> (r: Option<&String>)
        ensures
            match r {
                Some(id) => self@.steam_id_cache.contains_key(user) && self@.steam_id_cache[user]
                    == id@,
                None => !self@.steam_id_cache.contains_key(user),
            },
    {
        crate::tables::lookup(&self.steam_id_cache, user)
    }

    /// The team name that `user` registered, if any.
    pub fn team_name_of(&self, user: u64) -> (r: Option<&String>)
        ensures
            match r {
                Some(name) => self@.team_names.contains_key(user) && self@.team_names[user]
                    == name@,
                None => !self@.team_names.contains_key(user),
            },
    {
        crate::tables::lookup(&self.team_names, user)
    }

    /// The note that `user` joined with, if any.
    pub fn queue_message_of(&self, user: u64) -> (r: Option<&String>)
        ensures
            match r {
                Some(note) => self@.queue_messages.contains_key(user) && self@.queue_messages[user]
                    == note@,
                None => !self@.queue_messages.contains_key(user),
            },
    {
        crate::tables::lookup(&self.queue_messages, user)
    }

    /// The invariant of the shared state.
    pub open spec fn wf(&self) -> bool {
        self@.wf()
    }

    /// Gives up the setup in flight, if there is one: nobody is ready,
    /// nothing is drafted and the phase is `Queue`. The queue stays as it is.
    pub fn reset_draft(&mut self)
        requires
            old(self).wf(),
        ensures
            final(self).wf(),
            final(self)@ == after_reset(old(self)@),
    {
        self.draft = Draft::new();
        self.ready_queue.clear();
        self.state = State::Queue;
    }

    /// The state at start: an empty queue in phase `Queue`, empty side tables
    /// and an empty map pool.
    pub fn new(config: Config) -> (d: Data)
        ensures
            d.wf(),
            d@.user_queue.len() == 0,
            d@.ready_queue.len() == 0,
            d@.queue_messages == Map::<u64, Seq<char>>::empty(),
            d@.steam_id_cache == Map::<u64, Seq<char>>::empty(),
            d@.team_names == Map::<u64, Seq<char>>::empty(),
            d@.config == config,
            d@.state == State::Queue,
            d@.maps.len() == 0,
            d@.draft == DraftView::empty(),
    {
        Data {
            user_queue: Vec::new(),
            ready_queue: Vec::new(),
            queue_messages: HashMap::new(),
            config,
            steam_id_cache: HashMap::new(),
            team_names: HashMap::new(),
            state: State::Queue,
            maps: Vec::new(),
            draft: Draft::new(),
        }
    }
}

} // verus!

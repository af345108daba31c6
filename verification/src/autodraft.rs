use vstd::prelude::*;
use vstd::string::{StrSliceExecFns, StringExecFns};
use crate::data::{names_view, Data, DataView, DraftView};
use crate::draft::phase_for;
use crate::error::{AutoDraftError, ValidationError};
use crate::state::State;
use crate::steam::steam_id_shape;
use crate::tables::{holds, lookup};
use crate::text::copy_string;

verus! {

/// A game identity as the statistics service ranks it: universe digit 0 is
/// written 1.
pub open spec fn ranking_form(id: Seq<char>) -> Seq<char> {
    if id.len() > 6 && id[6] == '0' {
        id.update(6, '1')
    } else {
        id
    }
}

/// The identities of the queued players as the statistics service ranks them,
/// in the queue's order.
pub open spec fn queue_identities(v: DataView) -> Seq<Seq<char>> {
    Seq::new(v.user_queue.len(), |k: int| ranking_form(v.steam_id_cache[v.user_queue[k]]))
}

/// The identities, each followed by a comma.
pub open spec fn comma_list(ids: Seq<Seq<char>>) -> Seq<char>
    decreases ids.len(),
{
    if ids.len() == 0 {
        Seq::empty()
    } else {
        comma_list(ids.drop_last()) + ids.last() + seq![',']
    }
}

/// `k` is the last place of `ids` that holds `id`. Where two players share
/// an identity, the one queued later answers to it.
pub open spec fn names_last(ids: Seq<Seq<char>>, id: Seq<char>, k: int) -> bool {
    &&& 0 <= k < ids.len()
    &&& ids[k] == id
    &&& forall|j: int| k < j < ids.len() ==> #[trigger] ids[j] != id
}

/// Some place of `ids` holds `id`.
pub open spec fn named(ids: Seq<Seq<char>>, id: Seq<char>) -> bool {
    exists|k: int| names_last(ids, id, k)
}

/// The queued player that a ranked identity stands for.
pub open spec fn player_named(v: DataView, id: Seq<char>) -> u64 {
    v.user_queue[choose|k: int| names_last(queue_identities(v), id, k)]
}

/// The players of a ranking, best first.
pub open spec fn ranking_players(v: DataView, ranked: Seq<Seq<char>>) -> Seq<u64> {
    Seq::new(ranked.len(), |i: int| player_named(v, ranked[i]))
}

/// Every ranked identity is a queued player's, and no player is ranked twice.
pub open spec fn valid_ranking(v: DataView, ranked: Seq<Seq<char>>) -> bool {
    &&& forall|i: int| 0 <= i < ranked.len() ==> named(queue_identities(v), #[trigger] ranked[i])
    &&& ranking_players(v, ranked).no_duplicates()
}

/// Rank 0 leads team A; of the others team A gets the odd ranks from 3 on.
pub open spec fn on_team_a(rank: int) -> bool {
    rank == 0 || (rank >= 3 && rank % 2 == 1)
}

/// Rank 1 leads team B; of the others team B gets the even ranks from 2 on.
pub open spec fn on_team_b(rank: int) -> bool {
    rank == 1 || (rank >= 2 && rank % 2 == 0)
}

/// The ranked players that go to team A, best first.
pub open spec fn auto_team_a(players: Seq<u64>) -> Seq<u64>
    decreases players.len(),
{
    if players.len() == 0 {
        Seq::empty()
    } else if on_team_a(players.len() - 1) {
        auto_team_a(players.drop_last()).push(players.last())
    } else {
        auto_team_a(players.drop_last())
    }
}

/// The ranked players that go to team B, best first.
pub open spec fn auto_team_b(players: Seq<u64>) -> Seq<u64>
    decreases players.len(),
{
    if players.len() == 0 {
        Seq::empty()
    } else if on_team_b(players.len() - 1) {
        auto_team_b(players.drop_last()).push(players.last())
    } else {
        auto_team_b(players.drop_last())
    }
}

/// The draft that a ranking of two or more players gives. The turn is with
/// the captain whose team the next rank would go to, so that a manual draft
/// can take over where the ranking ends.
pub open spec fn auto_draft(draft: DraftView, players: Seq<u64>) -> DraftView {
    DraftView {
        captain_a: Some(players[0]),
        captain_b: Some(players[1]),
        team_a: auto_team_a(players),
        team_b: auto_team_b(players),
        current_picker: if players.len() % 2 == 0 {
            Some(players[1])
        } else {
            Some(players[0])
        },
        ..draft
    }
}

/// Why a ranking assigns nobody, if anything stands against it.
pub open spec fn autodraft_refusal(v: DataView, user: u64, ranked: Seq<Seq<char>>) -> Option<
    AutoDraftError,
> {
    if !v.user_queue.contains(user) {
        Some(AutoDraftError::Rejected(ValidationError::NotQueued))
    } else if v.state != State::DraftTypePick {
        Some(AutoDraftError::Rejected(ValidationError::WrongPhase))
    } else if ranked.len() == 0 {
        Some(AutoDraftError::NoStats)
    } else if ranked.len() < 2 {
        Some(AutoDraftError::InsufficientStats)
    } else if !valid_ranking(v, ranked) {
        Some(AutoDraftError::UnknownPlayer)
    } else {
        None
    }
}

/// The state after the automatic draft on a ranking.
pub open spec fn after_autodraft(v: DataView, ranked: Seq<Seq<char>>) -> DataView {
    let draft = auto_draft(v.draft, ranking_players(v, ranked));
    DataView { state: phase_for(draft, v.user_queue), draft, ..v }
}

proof fn lemma_names_last_unique(ids: Seq<Seq<char>>, id: Seq<char>, k: int, m: int)
    requires
        names_last(ids, id, k),
        names_last(ids, id, m),
    ensures
        k == m,
{
}

/// One more ranked player goes to the team that the rank belongs to.
pub proof fn lemma_auto_teams_step(players: Seq<u64>, i: int)
    requires
        0 <= i < players.len(),
    ensures
        auto_team_a(players.take(i + 1)) == if on_team_a(i) {
            auto_team_a(players.take(i)).push(players[i])
        } else {
            auto_team_a(players.take(i))
        },
        auto_team_b(players.take(i + 1)) == if on_team_b(i) {
            auto_team_b(players.take(i)).push(players[i])
        } else {
            auto_team_b(players.take(i))
        },
{
    let next = players.take(i + 1);
    assert(next.drop_last() =~= players.take(i));
}

/// All of `team` are among the first `i` of `players`.
spec fn drawn_from(team: Seq<u64>, players: Seq<u64>, i: int) -> bool {
    forall|j: int| 0 <= j < team.len() ==> players.take(i).contains(#[trigger] team[j])
}

proof fn lemma_drawn_from_grows(team: Seq<u64>, players: Seq<u64>, i: int)
    requires
        0 <= i < players.len(),
        drawn_from(team, players, i),
    ensures
        drawn_from(team, players, i + 1),
        drawn_from(team.push(players[i]), players, i + 1),
        players.no_duplicates() ==> !team.contains(players[i]),
{
    assert forall|j: int| 0 <= j < team.len() implies players.take(i + 1).contains(
        #[trigger] team[j],
    ) by {
        let m = choose|m: int| 0 <= m < players.take(i).len() && players.take(i)[m] == team[j];
        assert(players.take(i + 1)[m] == team[j]);
    }
    let more = team.push(players[i]);
    assert forall|j: int| 0 <= j < more.len() implies players.take(i + 1).contains(
        #[trigger] more[j],
    ) by {
        if j >= team.len() {
            assert(players.take(i + 1)[i] == players[i]);
        }
    }
}

/// The game identity `id` as the statistics service ranks it.
fn ranking_form_of(id: &String) -> (r: String)
    requires
        steam_id_shape(id@),
    ensures
        r@ == ranking_form(id@),
{
    let s = id.as_str();
    if s.get_char(6) == '0' {
        let n = s.unicode_len();
        proof {
            reveal_strlit("STEAM_1");
        }
        let r = String::from_str("STEAM_1").concat(s.substring_char(7, n));
        r
    } else {
        copy_string(id)
    }
}

/// The last place of `ids` that holds `id`, if any does.
fn last_named(ids: &Vec<String>, id: &String) -> (r: Option<usize>)
    ensures
        match r {
            Some(k) => names_last(names_view(ids@), id@, k as int),
            None => !named(names_view(ids@), id@),
        },
{
    let mut k: usize = ids.len();
    while k > 0
        invariant
            k <= ids@.len(),
            forall|j: int| k <= j < ids@.len() ==> #[trigger] names_view(ids@)[j] != id@,
        decreases k,
    {
        k -= 1;
        if ids[k] == *id {
            return Some(k);
        }
    }
    None
}

impl Data {
    /// The identities of the queued players as the statistics service ranks
    /// them, in the queue's order.
    pub fn queue_identities(&self) -> (ids: Vec<String>)
        requires
            self.wf(),
        ensures
            names_view(ids@) == queue_identities(self@),
    {
        let mut ids: Vec<String> = Vec::new();
        let mut k: usize = 0;
        while k < self.user_queue.len()
            invariant
                self.wf(),
                k <= self.user_queue@.len(),
                ids@.len() == k,
                forall|j: int| 0 <= j < k ==> (#[trigger] ids@[j])@ == queue_identities(self@)[j],
            decreases self.user_queue@.len() - k,
        {
            let player = self.user_queue[k];
            match lookup(&self.steam_id_cache, player) {
                Some(id) => {
                    ids.push(ranking_form_of(id));
                },
                None => {},
            }
            k += 1;
        }
        ids
    }

    /// The identities to ask the statistics service about: those of the queued
    /// players, each followed by a comma.
    pub fn stats_query_ids(&self) -> (query: String)
        requires
            self.wf(),
        ensures
            query@ == comma_list(queue_identities(self@)),
    {
        let ids = self.queue_identities();
        let mut query = String::new();
        let mut k: usize = 0;
        let ghost all = names_view(ids@);
        while k < ids.len()
            invariant
                k <= ids@.len(),
                all == names_view(ids@),
                query@ == comma_list(all.take(k as int)),
            decreases ids@.len() - k,
        {
            proof {
                reveal_strlit(",");
                let next = all.take(k + 1);
                assert(next.drop_last() =~= all.take(k as int));
            }
            query.append(ids[k].as_str());
            query.append(",");
            k += 1;
        }
        assert(all.take(k as int) =~= all);
        query
    }

    /// The automatic draft: `ranked` holds the identities of the queued
    /// players that the statistics service knows, best first. The two best
    /// are the captains, the others are dealt out in turn, team B first. The
    /// result is the phase that follows: `SidePick` where every queued player
    /// is ranked, `Draft` where some are left to pick by hand.
    pub fn handle_autodraft(&mut self, user: u64, ranked: &Vec<String>) -> (r: Result<
        State,
        AutoDraftError,
    >)
        requires
            old(self).wf(),
        ensures
            final(self).wf(),
            match r {
                Ok(state) => autodraft_refusal(old(self)@, user, names_view(ranked@)) is None
                    && final(self)@ == after_autodraft(old(self)@, names_view(ranked@)) && state
                    == final(self)@.state,
                Err(e) => autodraft_refusal(old(self)@, user, names_view(ranked@)) == Some(e)
                    && final(self)@ == old(self)@,
            },
    {
        if !holds(&self.user_queue, user) {
            return Err(AutoDraftError::Rejected(ValidationError::NotQueued));
        }
        if self.state != State::DraftTypePick {
            return Err(AutoDraftError::Rejected(ValidationError::WrongPhase));
        }
        if ranked.len() == 0 {
            return Err(AutoDraftError::NoStats);
        }
        if ranked.len() < 2 {
            return Err(AutoDraftError::InsufficientStats);
        }
        let ghost v = self@;
        let ghost names = names_view(ranked@);
        let ghost wanted = ranking_players(v, names);
        let ids = self.queue_identities();
        let mut players: Vec<u64> = Vec::new();
        let mut i: usize = 0;
        while i < ranked.len()
            invariant
                i <= ranked@.len(),
                ranked@.len() >= 2,
                v == self@,
                v == old(self)@,
                v.user_queue.contains(user),
                v.state == State::DraftTypePick,
                self.wf(),
                names == names_view(ranked@),
                wanted == ranking_players(v, names),
                names_view(ids@) == queue_identities(v),
                players@ == wanted.take(i as int),
                players@.no_duplicates(),
                forall|j: int| 0 <= j < i ==> named(queue_identities(v), #[trigger] names[j]),
                forall|j: int| 0 <= j < i ==> v.user_queue.contains(#[trigger] wanted[j]),
            decreases ranked@.len() - i,
        {
            let found = last_named(&ids, &ranked[i]);
            assert(names[i as int] == ranked@[i as int]@);
            match found {
                None => {
                    return Err(AutoDraftError::UnknownPlayer);
                },
                Some(k) => {
                    let player = self.user_queue[k];
                    proof {
                        let m = choose|m: int| names_last(queue_identities(v), names[i as int], m);
                        lemma_names_last_unique(queue_identities(v), names[i as int], k as int, m);
                        assert(wanted[i as int] == player);
                    }
                    if holds(&players, player) {
                        proof {
                            let j = choose|j: int| 0 <= j < players@.len() && players@[j] == player;
                            assert(wanted[j] == wanted[i as int]);
                        }
                        return Err(AutoDraftError::UnknownPlayer);
                    }
                    players.push(player);
                },
            }
            i += 1;
        }
        assert(wanted.take(i as int) =~= wanted);
        let n = players.len();
        let captain_a = players[0];
        let captain_b = players[1];
        let mut team_a: Vec<u64> = Vec::new();
        let mut team_b: Vec<u64> = Vec::new();
        team_a.push(captain_a);
        team_b.push(captain_b);
        proof {
            lemma_auto_teams_step(players@, 0);
            lemma_auto_teams_step(players@, 1);
        }
        let mut i: usize = 2;
        while i < n
            invariant
                2 <= i <= n,
                n == players@.len(),
                players@.no_duplicates(),
                team_a@ == auto_team_a(players@.take(i as int)),
                team_b@ == auto_team_b(players@.take(i as int)),
                team_a@.no_duplicates(),
                team_b@.no_duplicates(),
                drawn_from(team_a@, players@, i as int),
                drawn_from(team_b@, players@, i as int),
                forall|a: int, b: int|
                    0 <= a < team_a@.len() && 0 <= b < team_b@.len() ==> #[trigger] team_a@[a]
                        != #[trigger] team_b@[b],
                team_a@.len() > 0 && team_a@[0] == players@[0],
                team_b@.len() > 0 && team_b@[0] == players@[1],
                team_a@.len() + team_b@.len() == i,
                i % 2 == 0 ==> team_a@.len() == team_b@.len(),
                i % 2 == 1 ==> team_b@.len() == team_a@.len() + 1,
            decreases n - i,
        {
            proof {
                lemma_auto_teams_step(players@, i as int);
                lemma_drawn_from_grows(team_a@, players@, i as int);
                lemma_drawn_from_grows(team_b@, players@, i as int);
            }
            if i % 2 == 0 {
                team_b.push(players[i]);
            } else {
                team_a.push(players[i]);
            }
            i += 1;
        }
        self.draft.captain_a = Some(captain_a);
        self.draft.captain_b = Some(captain_b);
        self.draft.team_a = team_a;
        self.draft.team_b = team_b;
        self.draft.current_picker = if n % 2 == 0 {
            Some(captain_b)
        } else {
            Some(captain_a)
        };
        if self.all_assigned() {
            self.state = State::SidePick;
        } else {
            self.state = State::Draft;
        }
        Ok(self.state)
    }
}

} // verus!

use vstd::prelude::*;
use rand::Rng;
use crate::data::{after_reset, ballots_view, names_view, Ballot, BallotView, Data, DataView, DraftView};
use crate::error::{MapVoteError, NoVotes, ValidationError};
use crate::state::State;
use crate::tables::holds;
use crate::seqs::lemma_concat_contains;
use crate::text::copy_string;

verus! {

/// Every map named in a vote, ballot after ballot, each as often as it is
/// named.
pub open spec fn all_mentions(votes: Seq<BallotView>) -> Seq<Seq<char>>
    decreases votes.len(),
{
    if votes.len() == 0 {
        Seq::empty()
    } else {
        all_mentions(votes.drop_last()) + votes.last().maps
    }
}

/// The tally of `map`: how many ballots name it. A ballot counts once for a
/// map, however many maps it names and however often it names this one.
pub open spec fn tally(votes: Seq<BallotView>, map: Seq<char>) -> nat
    decreases votes.len(),
{
    if votes.len() == 0 {
        0
    } else {
        tally(votes.drop_last(), map) + if votes.last().maps.contains(map) {
            1nat
        } else {
            0nat
        }
    }
}

/// `map` is named, and no map has a higher tally.
pub open spec fn leads(votes: Seq<BallotView>, map: Seq<char>) -> bool {
    &&& tally(votes, map) > 0
    &&& forall|other: Seq<char>| #[trigger] tally(votes, other) <= tally(votes, map)
}

/// Place `i` of `names` holds a map that no earlier place holds.
pub open spec fn first_at(names: Seq<Seq<char>>, i: int) -> bool {
    forall|j: int| 0 <= j < i ==> #[trigger] names[j] != names[i]
}

/// The leading maps among the first `k` of `names`, each once, in the order
/// in which they are first named.
pub open spec fn leaders_among(votes: Seq<BallotView>, names: Seq<Seq<char>>, k: int) -> Seq<
    Seq<char>,
>
    decreases k,
{
    if k <= 0 {
        Seq::empty()
    } else if first_at(names, k - 1) && leads(votes, names[k - 1]) {
        leaders_among(votes, names, k - 1).push(names[k - 1])
    } else {
        leaders_among(votes, names, k - 1)
    }
}

/// The maps with the highest tally, each once, in the order in which the vote
/// first names them.
pub open spec fn leaders(votes: Seq<BallotView>) -> Seq<Seq<char>> {
    leaders_among(votes, all_mentions(votes), all_mentions(votes).len() as int)
}

/// Whether `user` has a ballot among `votes`.
pub open spec fn has_ballot(votes: Seq<BallotView>, user: u64) -> bool {
    exists|i: int| 0 <= i < votes.len() && (#[trigger] votes[i]).voter == user
}

/// Every queued player has voted.
pub open spec fn all_voted(votes: Seq<BallotView>, queue: Seq<u64>) -> bool {
    forall|i: int| 0 <= i < queue.len() ==> has_ballot(votes, #[trigger] queue[i])
}

/// The place of `user`'s ballot.
pub open spec fn ballot_index(votes: Seq<BallotView>, user: u64) -> int {
    choose|i: int| 0 <= i < votes.len() && (#[trigger] votes[i]).voter == user
}

/// The ballots after `user` votes for `maps`: a later vote takes the place of
/// an earlier one.
pub open spec fn with_ballot(votes: Seq<BallotView>, user: u64, maps: Seq<Seq<char>>) -> Seq<
    BallotView,
> {
    let ballot = BallotView { voter: user, maps };
    if has_ballot(votes, user) {
        votes.update(ballot_index(votes, user), ballot)
    } else {
        votes.push(ballot)
    }
}

/// Why `user` cannot vote for `maps`, if anything stands against it.
pub open spec fn vote_refusal(v: DataView, user: u64, maps: Seq<Seq<char>>) -> Option<
    ValidationError,
> {
    if !v.user_queue.contains(user) {
        Some(ValidationError::NotQueued)
    } else if v.state != State::MapPick {
        Some(ValidationError::WrongPhase)
    } else if maps.len() == 0 {
        Some(ValidationError::EmptySelection)
    } else {
        None
    }
}

/// The state after `user` voted for `maps`.
pub open spec fn after_vote(v: DataView, user: u64, maps: Seq<Seq<char>>) -> DataView {
    DataView {
        draft: DraftView { map_votes: with_ballot(v.draft.map_votes, user, maps), ..v.draft },
        ..v
    }
}

/// The state after the vote gave `map`.
pub open spec fn after_map_vote(v: DataView, map: Seq<char>) -> DataView {
    DataView {
        state: State::DraftTypePick,
        draft: DraftView { selected_map: map, ..v.draft },
        ..v
    }
}

proof fn lemma_all_mentions_step(votes: Seq<BallotView>, i: int)
    requires
        0 <= i < votes.len(),
    ensures
        all_mentions(votes.take(i + 1)) == all_mentions(votes.take(i)) + votes[i].maps,
{
    let next = votes.take(i + 1);
    assert(next.drop_last() =~= votes.take(i));
}

proof fn lemma_tally_step(votes: Seq<BallotView>, map: Seq<char>, i: int)
    requires
        0 <= i < votes.len(),
    ensures
        tally(votes.take(i + 1), map) == tally(votes.take(i), map) + if votes[i].maps.contains(
            map,
        ) {
            1nat
        } else {
            0nat
        },
        tally(votes.take(i + 1), map) <= i + 1,
    decreases i,
{
    let next = votes.take(i + 1);
    assert(next.drop_last() =~= votes.take(i));
    assert(next.last() == votes[i]);
    if i > 0 {
        lemma_tally_step(votes, map, i - 1);
    } else {
        assert(votes.take(0).len() == 0);
    }
}

/// A map has a ballot exactly when the vote names it.
pub proof fn lemma_tally_positive(votes: Seq<BallotView>, map: Seq<char>)
    ensures
        tally(votes, map) > 0 <==> all_mentions(votes).contains(map),
    decreases votes.len(),
{
    if votes.len() > 0 {
        let rest = votes.drop_last();
        lemma_tally_positive(rest, map);
        lemma_concat_contains(all_mentions(rest), votes.last().maps, map);
    }
}

/// `rand::Rng::gen_range` on the generator of the current thread, for the
/// range from zero up to `bound`, which must not be empty: the result lies in
/// that range. Which of its numbers comes is left open. The generator takes
/// its seed from the system when a thread first uses it, and panics where the
/// system gives none.
#[verifier::external_body]
fn random_index(bound: usize) -> (index: usize)
    requires
        bound > 0,
    ensures
        index < bound,
{
    rand::thread_rng().gen_range(0..bound)
}

/// Whether `names` holds `name`.
fn holds_name(names: &Vec<String>, name: &String) -> (b: bool)
    ensures
        b == names_view(names@).contains(name@),
{
    let mut i: usize = 0;
    while i < names.len()
        invariant
            i <= names@.len(),
            forall|j: int| 0 <= j < i ==> #[trigger] names_view(names@)[j] != name@,
        decreases names@.len() - i,
    {
        assert(names_view(names@)[i as int] == names@[i as int]@);
        if names[i] == *name {
            return true;
        }
        i += 1;
    }
    false
}

/// How many ballots name `map`.
fn count_of(votes: &Vec<Ballot>, map: &String) -> (count: usize)
    ensures
        count == tally(ballots_view(votes@), map@),
{
    let mut count: usize = 0;
    let mut i: usize = 0;
    let ghost all = ballots_view(votes@);
    while i < votes.len()
        invariant
            i <= votes@.len(),
            all == ballots_view(votes@),
            count == tally(all.take(i as int), map@),
            count <= i,
        decreases votes@.len() - i,
    {
        proof {
            lemma_tally_step(all, map@, i as int);
            assert(all[i as int] == votes@[i as int]@);
        }
        if holds_name(&votes[i].maps, map) {
            count += 1;
        }
        i += 1;
    }
    assert(all.take(i as int) =~= all);
    count
}

/// Every map named in the vote, ballot after ballot.
fn mentions_of(votes: &Vec<Ballot>) -> (names: Vec<String>)
    ensures
        names_view(names@) == all_mentions(ballots_view(votes@)),
{
    let mut names: Vec<String> = Vec::new();
    let ghost all = ballots_view(votes@);
    let mut i: usize = 0;
    while i < votes.len()
        invariant
            i <= votes@.len(),
            all == ballots_view(votes@),
            names_view(names@) == all_mentions(all.take(i as int)),
        decreases votes@.len() - i,
    {
        let ghost before = names_view(names@);
        let ballot = &votes[i];
        let mut j: usize = 0;
        while j < ballot.maps.len()
            invariant
                j <= ballot.maps@.len(),
                names_view(names@) == before + names_view(ballot.maps@).take(j as int),
            decreases ballot.maps@.len() - j,
        {
            let ghost so_far = names_view(names@);
            let map = copy_string(&ballot.maps[j]);
            names.push(map);
            proof {
                let chosen = names_view(ballot.maps@);
                assert(names_view(names@) =~= so_far.push(chosen[j as int]));
            }
            j += 1;
        }
        proof {
            lemma_all_mentions_step(all, i as int);
        }
        i += 1;
    }
    assert(all.take(i as int) =~= all);
    names
}

/// The tally of `map`: how often the vote names it.
pub fn map_tally(votes: &Vec<Ballot>, map: &String) -> (count: usize)
    ensures
        count == tally(ballots_view(votes@), map@),
{
    count_of(votes, map)
}

/// The maps with the highest tally, each once, in the order in which the vote
/// first names them.
pub fn tied_maps(votes: &Vec<Ballot>) -> (tied: Vec<String>)
    ensures
        names_view(tied@) == leaders(ballots_view(votes@)),
{
    let names = mentions_of(votes);
    let ghost cast = ballots_view(votes@);
    let ghost all = names_view(names@);
    let n = names.len();
    let mut counts: Vec<usize> = Vec::new();
    let mut best: usize = 0;
    let ghost mut top: int = 0;
    let mut i: usize = 0;
    while i < n
        invariant
            i <= n,
            n == names@.len(),
            cast == ballots_view(votes@),
            all == names_view(names@),
            all == all_mentions(cast),
            counts@.len() == i,
            forall|j: int| 0 <= j < i ==> #[trigger] counts@[j] == tally(cast, all[j]),
            forall|j: int| 0 <= j < i ==> #[trigger] counts@[j] <= best,
            i > 0 ==> 0 <= top < i && counts@[top] == best,
            i == 0 ==> best == 0,
        decreases n - i,
    {
        let count = count_of(votes, &names[i]);
        assert(all[i as int] == names@[i as int]@);
        counts.push(count);
        proof {
            lemma_tally_positive(cast, all[i as int]);
            assert(all.contains(all[i as int]));
        }
        if count > best {
            best = count;
            proof {
                top = i as int;
            }
        }
        i += 1;
    }
    proof {
        assert forall|other: Seq<char>| #[trigger] tally(cast, other) <= best by {
            lemma_tally_positive(cast, other);
            if all.contains(other) {
                let j = choose|j: int| 0 <= j < all.len() && all[j] == other;
                assert(counts@[j] <= best);
            }
        }
    }
    let mut tied: Vec<String> = Vec::new();
    let mut k: usize = 0;
    while k < n
        invariant
            k <= n,
            n == names@.len(),
            cast == ballots_view(votes@),
            all == names_view(names@),
            all == all_mentions(cast),
            counts@.len() == n,
            forall|j: int| 0 <= j < n ==> #[trigger] counts@[j] == tally(cast, all[j]),
            forall|other: Seq<char>| #[trigger] tally(cast, other) <= best,
            n > 0 ==> 0 <= top < n && counts@[top] == best,
            names_view(tied@) == leaders_among(cast, all, k as int),
        decreases n - k,
    {
        let mut first = true;
        let mut j: usize = 0;
        while j < k
            invariant
                j <= k,
                k < n,
                n == names@.len(),
                all == names_view(names@),
                first == (forall|m: int| 0 <= m < j ==> #[trigger] all[m] != all[k as int]),
            decreases k - j,
        {
            assert(all[j as int] == names@[j as int]@);
            assert(all[k as int] == names@[k as int]@);
            if names[j] == names[k] {
                first = false;
            }
            j += 1;
        }
        proof {
            lemma_tally_positive(cast, all[k as int]);
            assert(all.contains(all[k as int]));
            assert(tally(cast, all[top]) == best);
            assert(counts@[k as int] == tally(cast, all[k as int]));
            assert((counts@[k as int] == best) == leads(cast, all[k as int]));
            assert(first == first_at(all, k as int));
        }
        if first && counts[k] == best {
            let ghost before = names_view(tied@);
            tied.push(copy_string(&names[k]));
            assert(all[k as int] == names@[k as int]@);
            assert(names_view(tied@) =~= before.push(all[k as int]));
        }
        k += 1;
    }
    tied
}

/// The map at place `index` of `candidates`, if there is such a place.
pub fn pick_map(candidates: &Vec<String>, index: usize) -> (r: Option<String>)
    ensures
        match r {
            Some(map) => index < candidates@.len() && map@ == candidates@[index as int]@,
            None => index >= candidates@.len(),
        },
{
    if index < candidates.len() {
        Some(copy_string(&candidates[index]))
    } else {
        None
    }
}

/// The map that a vote gives: the one with the highest tally, or one of
/// those that share it, drawn at random. A vote that names no map gives none.
pub fn calc_selected_map(votes: &Vec<Ballot>) -> (r: Result<String, NoVotes>)
    ensures
        match r {
            Ok(map) => leaders(ballots_view(votes@)).contains(map@),
            Err(NoVotes) => leaders(ballots_view(votes@)).len() == 0,
        },
{
    let tied = tied_maps(votes);
    if tied.len() == 0 {
        return Err(NoVotes);
    }
    let index = if tied.len() == 1 {
        0
    } else {
        random_index(tied.len())
    };
    assert(names_view(tied@)[index as int] == tied@[index as int]@);
    Ok(copy_string(&tied[index]))
}

/// The place of `user`'s ballot, if there is one.
fn ballot_place(votes: &Vec<Ballot>, user: u64) -> (r: Option<usize>)
    ensures
        match r {
            Some(i) => i < votes@.len() && ballots_view(votes@)[i as int].voter == user && forall|
                j: int,
            | 0 <= j < i ==> (#[trigger] ballots_view(votes@)[j]).voter != user,
            None => !has_ballot(ballots_view(votes@), user),
        },
{
    let mut i: usize = 0;
    while i < votes.len()
        invariant
            i <= votes@.len(),
            forall|j: int| 0 <= j < i ==> (#[trigger] ballots_view(votes@)[j]).voter != user,
        decreases votes@.len() - i,
    {
        assert(ballots_view(votes@)[i as int] == votes@[i as int]@);
        if votes[i].voter == user {
            return Some(i);
        }
        i += 1;
    }
    None
}

impl Data {
    /// `user` votes for `maps`. The result says whether every queued player
    /// has voted by now.
    pub fn handle_map_pick(&mut self, user: u64, maps: Vec<String>) -> (r: Result<
        bool,
        ValidationError,
    >)
        requires
            old(self).wf(),
        ensures
            final(self).wf(),
            match r {
                Ok(complete) => {
                    &&& vote_refusal(old(self)@, user, names_view(maps@)) is None
                    &&& final(self)@ == after_vote(old(self)@, user, names_view(maps@))
                    &&& complete == all_voted(final(self)@.draft.map_votes, final(self)@.user_queue)
                },
                Err(e) => vote_refusal(old(self)@, user, names_view(maps@)) == Some(e) && final(self)@ == old(self)@,
            },
    {
        if !holds(&self.user_queue, user) {
            return Err(ValidationError::NotQueued);
        }
        if self.state != State::MapPick {
            return Err(ValidationError::WrongPhase);
        }
        if maps.len() == 0 {
            return Err(ValidationError::EmptySelection);
        }
        let ghost votes = self@.draft.map_votes;
        let ghost chosen = names_view(maps@);
        let found = ballot_place(&self.draft.map_votes, user);
        let ballot = Ballot { voter: user, maps };
        match found {
            Some(i) => {
                proof {
                    assert(votes[i as int].voter == user);
                    assert(ballot_index(votes, user) == i);
                }
                self.draft.map_votes.set(i, ballot);
                assert(self@.draft.map_votes =~= with_ballot(votes, user, chosen));
            },
            None => {
                self.draft.map_votes.push(ballot);
                assert(self@.draft.map_votes =~= with_ballot(votes, user, chosen));
            },
        }
        let mut complete = true;
        let mut k: usize = 0;
        while k < self.user_queue.len()
            invariant
                k <= self.user_queue@.len(),
                complete == all_voted(self@.draft.map_votes, self@.user_queue.take(k as int)),
            decreases self.user_queue@.len() - k,
        {
            let voted = ballot_place(&self.draft.map_votes, self.user_queue[k]).is_some();
            proof {
                let upto = self@.user_queue.take(k as int);
                let next = self@.user_queue.take(k + 1);
                assert(next[k as int] == self@.user_queue[k as int]);
                assert forall|i: int| 0 <= i < upto.len() implies upto[i] == next[i] by {}
                if all_voted(self@.draft.map_votes, next) {
                    assert forall|i: int| 0 <= i < upto.len() implies has_ballot(
                        self@.draft.map_votes,
                        #[trigger] upto[i],
                    ) by {
                        assert(has_ballot(self@.draft.map_votes, next[i]));
                    }
                }
            }
            if !voted {
                complete = false;
            }
            k += 1;
        }
        assert(self@.user_queue.take(k as int) =~= self@.user_queue);
        Ok(complete)
    }

    /// Ends the map vote with the leading map at place `choice`, counted
    /// round the leading maps, and goes on to the choice of the draft type. A
    /// vote that names no map ends the setup.
    pub fn resolve_map_vote(&mut self, choice: usize) -> (r: Result<String, MapVoteError>)
        requires
            old(self).wf(),
        ensures
            final(self).wf(),
            match r {
                Ok(map) => {
                    let tied = leaders(old(self)@.draft.map_votes);
                    &&& old(self)@.state == State::MapPick
                    &&& tied.len() > 0
                    &&& map@ == tied[choice as int % tied.len() as int]
                    &&& final(self)@ == after_map_vote(old(self)@, map@)
                },
                Err(MapVoteError::WrongPhase) => old(self)@.state != State::MapPick && final(self)@
                    == old(self)@,
                Err(MapVoteError::NoVotes) => {
                    &&& old(self)@.state == State::MapPick
                    &&& leaders(old(self)@.draft.map_votes).len() == 0
                    &&& final(self)@ == after_reset(old(self)@)
                },
            },
    {
        if self.state != State::MapPick {
            return Err(MapVoteError::WrongPhase);
        }
        let tied = tied_maps(&self.draft.map_votes);
        if tied.len() == 0 {
            self.reset_draft();
            return Err(MapVoteError::NoVotes);
        }
        let index = choice % tied.len();
        let map = copy_string(&tied[index]);
        self.draft.selected_map = copy_string(&map);
        self.state = State::DraftTypePick;
        Ok(map)
    }

    /// Ends the map vote: the map with the highest tally is to be played, or
    /// one of those that share it, drawn at random. A vote that names no map
    /// ends the setup.
    pub fn conclude_map_vote(&mut self) -> (r: Result<String, MapVoteError>)
        requires
            old(self).wf(),
        ensures
            final(self).wf(),
            match r {
                Ok(map) => {
                    &&& old(self)@.state == State::MapPick
                    &&& leaders(old(self)@.draft.map_votes).contains(map@)
                    &&& final(self)@ == after_map_vote(old(self)@, map@)
                },
                Err(MapVoteError::WrongPhase) => old(self)@.state != State::MapPick && final(self)@
                    == old(self)@,
                Err(MapVoteError::NoVotes) => {
                    &&& old(self)@.state == State::MapPick
                    &&& leaders(old(self)@.draft.map_votes).len() == 0
                    &&& final(self)@ == after_reset(old(self)@)
                },
            },
    {
        if self.state != State::MapPick {
            return Err(MapVoteError::WrongPhase);
        }
        let ties = tied_maps(&self.draft.map_votes).len();
        let choice = if ties > 1 {
            random_index(ties)
        } else {
            0
        };
        self.resolve_map_vote(choice)
    }
}

} // verus!

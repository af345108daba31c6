use vstd::prelude::*;
use crate::autodraft::{auto_draft, auto_team_a, auto_team_b, lemma_auto_teams_step};
use crate::data::{
    after_clear, after_clear_queue, after_reset, BallotView, DataView, DraftView,
    QUEUE_CAPACITY,
};
use crate::draft::{
    after_captain_pick, after_pick, captain_pick_refusal, pick_refusal,
};
use crate::error::ValidationError;
use crate::launch::launch_ready;
use crate::queue::{after_join, after_leave, join_refusal, leave_refusal, replay, QueueOp};
use crate::seqs::{lemma_distinct_covers, lemma_remove_keeps_others};
use crate::setup::{after_answer, after_start, ready_refusal, start_refusal, ReadyAction};
use crate::state::State;
use crate::votes::{
    all_mentions, first_at, leaders, leaders_among, leads, lemma_tally_positive, tally,
};

verus! {

/// A join that is not refused keeps the invariant.
pub proof fn law_join_keeps_invariant(v: DataView, user: u64, note: Option<Seq<char>>)
    requires
        v.wf(),
        join_refusal(v, user) is None,
    ensures
        after_join(v, user, note).wf(),
{
    let w = after_join(v, user, note);
    let q = v.user_queue;
    assert(w.user_queue[q.len() as int] == user);
    assert forall|x: u64| q.contains(x) implies w.user_queue.contains(x) by {
        let j = choose|j: int| 0 <= j < q.len() && q[j] == x;
        assert(w.user_queue[j] == x);
    }
}

/// A leave that is not refused keeps the invariant.
pub proof fn law_leave_keeps_invariant(v: DataView, user: u64)
    requires
        v.wf(),
        leave_refusal(v, user) is None,
    ensures
        after_leave(v, user).wf(),
{
    let i = v.user_queue.index_of(user);
    lemma_remove_keeps_others(v.user_queue, i);
}

/// Whatever players try to join and leave, in whatever order, the queue
/// never holds more players than it can, and never a player twice.
pub proof fn law_queue_bounded_and_distinct(v: DataView, ops: Seq<QueueOp>)
    requires
        v.wf(),
    ensures
        replay(v, ops).wf(),
        replay(v, ops).user_queue.len() <= QUEUE_CAPACITY,
        replay(v, ops).user_queue.no_duplicates(),
    decreases ops.len(),
{
    if ops.len() > 0 {
        law_queue_bounded_and_distinct(v, ops.drop_last());
        let before = replay(v, ops.drop_last());
        match ops.last() {
            QueueOp::Join(user, note) => {
                if join_refusal(before, user) is None {
                    law_join_keeps_invariant(before, user, note);
                }
            },
            QueueOp::Leave(user) => {
                if leave_refusal(before, user) is None {
                    law_leave_keeps_invariant(before, user);
                }
            },
        }
    }
}

/// A setup starts only from phase `Queue` and with a full queue, and then
/// with the ready check. A refused start names its reason.
pub proof fn law_start_needs_full_queue(v: DataView, user: u64)
    requires
        v.wf(),
    ensures
        start_refusal(v, user) is None <==> v.user_queue.contains(user) && v.state == State::Queue
            && v.user_queue.len() == QUEUE_CAPACITY,
        start_refusal(v, user) is None ==> after_start(v).state == State::Ready && after_start(
            v,
        ).wf(),
        v.state != State::Queue && v.user_queue.contains(user) && v.user_queue.len()
            == QUEUE_CAPACITY ==> start_refusal(v, user) == Some(ValidationError::AlreadyStarted),
        v.user_queue.len() < QUEUE_CAPACITY && v.user_queue.contains(user) ==> start_refusal(
            v,
            user,
        ) == Some(ValidationError::QueueNotFull),
{
}

/// The ready check is complete exactly when the ready players are the queued
/// players in some order: an answer that is not refused leads to the map vote
/// then, and leaves the ready check on otherwise.
pub proof fn law_ready_complete_iff_permutation(v: DataView, user: u64, action: ReadyAction)
    requires
        v.wf(),
        ready_refusal(v, user) is None,
    ensures
        ({
            let w = after_answer(v, user, action);
            &&& w.state == State::MapPick <==> w.ready_queue.to_multiset()
                == w.user_queue.to_multiset()
            &&& w.state == State::MapPick || w.state == State::Ready
            &&& w.user_queue == v.user_queue
        }),
{
}

/// Where every ready player is queued, the ready players are the queued
/// players in some order exactly when they are as many.
pub proof fn law_ready_count(v: DataView)
    requires
        v.wf(),
        forall|i: int| 0 <= i < v.ready_queue.len() ==> v.user_queue.contains(
            #[trigger] v.ready_queue[i],
        ),
    ensures
        v.ready_queue.len() == v.user_queue.len() <==> v.ready_queue.to_multiset()
            == v.user_queue.to_multiset(),
{
    v.ready_queue.to_multiset_ensures();
    v.user_queue.to_multiset_ensures();
    if v.ready_queue.len() == v.user_queue.len() {
        lemma_distinct_covers(v.ready_queue, v.user_queue);
    }
}

/// Giving up a setup, by timeout or by cancelling, leaves nobody ready and
/// no draft, in phase `Queue`, and everybody queued who was.
pub proof fn law_reset_keeps_queue(v: DataView)
    requires
        v.wf(),
    ensures
        after_reset(v).wf(),
        after_reset(v).state == State::Queue,
        after_reset(v).ready_queue.len() == 0,
        after_reset(v).draft == DraftView::empty(),
        after_reset(v).user_queue == v.user_queue,
{
}

/// Emptying the queue leaves nobody queued and no join message, and leaves
/// phase, ready check, draft and side tables as they are, in every phase.
pub proof fn law_clear_keeps_setup(v: DataView)
    requires
        v.wf(),
    ensures
        after_clear_queue(v).wf(),
        after_clear_queue(v).user_queue.len() == 0,
        after_clear_queue(v).queue_messages == Map::<u64, Seq<char>>::empty(),
        after_clear_queue(v).state == v.state,
        after_clear_queue(v).ready_queue == v.ready_queue,
        after_clear_queue(v).draft == v.draft,
        after_clear_queue(v).steam_id_cache == v.steam_id_cache,
        after_clear_queue(v).team_names == v.team_names,
{
}

/// After a launch, failed or not, nobody is queued, nobody is ready, there
/// is no draft and the phase is `Queue`.
pub proof fn law_launch_clears(v: DataView)
    requires
        v.wf(),
    ensures
        after_clear(v).wf(),
        after_clear(v).state == State::Queue,
        after_clear(v).user_queue.len() == 0,
        after_clear(v).ready_queue.len() == 0,
        after_clear(v).draft == DraftView::empty(),
{
}

/// Among the first `k` names, the leading maps listed are those that lead
/// and are named there, each once.
proof fn lemma_leaders_among(votes: Seq<BallotView>, names: Seq<Seq<char>>, k: int)
    requires
        0 <= k <= names.len(),
    ensures
        leaders_among(votes, names, k).no_duplicates(),
        forall|map: Seq<char>| #[trigger]
            leaders_among(votes, names, k).contains(map) <==> leads(votes, map) && names.take(k).contains(
                map,
            ),
    decreases k,
{
    if k > 0 {
        lemma_leaders_among(votes, names, k - 1);
        let before = leaders_among(votes, names, k - 1);
        let now = leaders_among(votes, names, k);
        let last = names[k - 1];
        let prev = names.take(k - 1);
        let upto = names.take(k);
        assert(upto[k - 1] == last);
        assert forall|map: Seq<char>| #[trigger]
            now.contains(map) <==> leads(votes, map) && upto.contains(map) by {
            if prev.contains(map) {
                let j = choose|j: int| 0 <= j < k - 1 && prev[j] == map;
                assert(upto[j] == map);
                if map == last {
                    assert(names[j] == names[k - 1]);
                    assert(!first_at(names, k - 1));
                }
            }
            if upto.contains(map) && !prev.contains(map) {
                let j = choose|j: int| 0 <= j < k && upto[j] == map;
                if j < k - 1 {
                    assert(prev[j] == map);
                }
                assert(map == last);
                assert forall|m: int| 0 <= m < k - 1 implies #[trigger] names[m] != names[k
                    - 1] by {
                    if names[m] == last {
                        assert(prev[m] == map);
                    }
                }
                assert(first_at(names, k - 1));
            }
            if first_at(names, k - 1) && leads(votes, last) {
                assert(now == before.push(last));
                assert(now[before.len() as int] == last);
                if before.contains(map) {
                    let j = choose|j: int| 0 <= j < before.len() && before[j] == map;
                    assert(now[j] == map);
                }
                if now.contains(map) {
                    let j = choose|j: int| 0 <= j < now.len() && now[j] == map;
                    if j < before.len() {
                        assert(before[j] == map);
                    }
                }
            }
        }
        if first_at(names, k - 1) && leads(votes, last) {
            if before.contains(last) {
                let j = choose|j: int| 0 <= j < k - 1 && prev[j] == last;
                assert(names[j] == names[k - 1]);
            }
            assert(now == before.push(last));
            assert forall|a: int, b: int| 0 <= a < now.len() && 0 <= b < now.len() && a
                != b implies now[a] != now[b] by {
                if a == before.len() {
                    assert(before.contains(now[b]) || now[b] != last);
                    assert(before[b] == now[b]);
                } else if b == before.len() {
                    assert(before[a] == now[a]);
                }
            }
        }
    } else {
        assert(names.take(0).len() == 0);
    }
}

/// Some map among the first `k` names has a tally at least as high as every
/// other of them.
proof fn lemma_some_name_leads(votes: Seq<BallotView>, names: Seq<Seq<char>>, k: int) -> (top: int)
    requires
        0 < k <= names.len(),
    ensures
        0 <= top < k,
        forall|j: int| 0 <= j < k ==> tally(votes, #[trigger] names[j]) <= tally(
            votes,
            names[top],
        ),
    decreases k,
{
    if k == 1 {
        0
    } else {
        let top = lemma_some_name_leads(votes, names, k - 1);
        if tally(votes, names[k - 1]) > tally(votes, names[top]) {
            k - 1
        } else {
            top
        }
    }
}

/// The maps that a vote can give are those with the highest tally, and no
/// other: a map is among the leaders exactly when a ballot names it and no
/// map has more ballots. The leaders hold no map twice, and a vote that
/// names a map has a leader.
pub proof fn law_leaders_are_most_named(votes: Seq<BallotView>)
    ensures
        forall|map: Seq<char>| #[trigger] leaders(votes).contains(map) <==> leads(votes, map),
        leaders(votes).no_duplicates(),
        leaders(votes).len() == 0 <==> all_mentions(votes).len() == 0,
{
    let names = all_mentions(votes);
    lemma_leaders_among(votes, names, names.len() as int);
    assert(names.take(names.len() as int) =~= names);
    assert forall|map: Seq<char>| #[trigger] leaders(votes).contains(map) <==> leads(
        votes,
        map,
    ) by {
        lemma_tally_positive(votes, map);
    }
    if names.len() > 0 {
        let top = lemma_some_name_leads(votes, names, names.len() as int);
        let map = names[top];
        assert forall|other: Seq<char>| #[trigger] tally(votes, other) <= tally(votes, map) by {
            lemma_tally_positive(votes, other);
            if names.contains(other) {
                let j = choose|j: int| 0 <= j < names.len() && names[j] == other;
                assert(tally(votes, names[j]) <= tally(votes, names[top]));
            }
        }
        lemma_tally_positive(votes, map);
        assert(names.contains(map));
        assert(leads(votes, map));
        assert(leaders(votes).contains(map));
    } else {
        if leaders(votes).len() > 0 {
            let map = leaders(votes)[0];
            assert(leaders(votes).contains(map));
            lemma_tally_positive(votes, map);
        }
    }
}

/// A vote without ballots names no map and has no leader.
pub proof fn law_empty_vote_has_no_leader()
    ensures
        leaders(Seq::<BallotView>::empty()).len() == 0,
{
    law_leaders_are_most_named(Seq::<BallotView>::empty());
}

/// In a manual draft the first volunteer is captain A and picks first.
pub proof fn law_captain_a_picks_first(v: DataView, first: u64, second: u64)
    requires
        v.wf(),
        v.state == State::CaptainPick,
        v.draft.captain_a is None,
        captain_pick_refusal(v, first) is None,
        captain_pick_refusal(after_captain_pick(v, first), second) is None,
    ensures
        ({
            let w = after_captain_pick(after_captain_pick(v, first), second);
            &&& w.draft.captain_a == Some(first)
            &&& w.draft.captain_b == Some(second)
            &&& w.draft.current_picker == Some(first)
            &&& first != second
        }),
{
}

/// In the draft the turn passes from one captain to the other with every
/// pick, and the player picked joins the team of the captain who picked.
pub proof fn law_turn_alternates(v: DataView, user: u64, picked: u64)
    requires
        v.wf(),
        pick_refusal(v, user, picked) is None,
    ensures
        ({
            let w = after_pick(v, picked);
            &&& w.wf()
            &&& w.draft.current_picker != v.draft.current_picker
            &&& w.draft.current_picker == if Some(user) == v.draft.captain_a {
                v.draft.captain_b
            } else {
                v.draft.captain_a
            }
            &&& w.draft.team_a == if Some(user) == v.draft.captain_a {
                v.draft.team_a.push(picked)
            } else {
                v.draft.team_a
            }
            &&& w.draft.team_b == if Some(user) == v.draft.captain_a {
                v.draft.team_b
            } else {
                v.draft.team_b.push(picked)
            }
        }),
{
    lemma_pick_keeps_invariant(v, picked);
}

proof fn lemma_pick_keeps_invariant(v: DataView, picked: u64)
    requires
        v.wf(),
        v.state == State::Draft,
        v.user_queue.contains(picked),
        !v.draft.has(picked),
    ensures
        after_pick(v, picked).wf(),
{
    assert(v.draft.team_a[0] != v.draft.team_b[0]);
}

/// A player who is picked cannot be picked again.
pub proof fn law_no_second_pick(v: DataView, user: u64, picked: u64, again: u64)
    requires
        v.wf(),
        pick_refusal(v, user, picked) is None,
    ensures
        pick_refusal(after_pick(v, picked), again, picked) is Some,
{
    let w = after_pick(v, picked);
    if v.draft.current_picker == v.draft.captain_a {
        assert(w.draft.team_a[v.draft.team_a.len() as int] == picked);
    } else {
        assert(w.draft.team_b[v.draft.team_b.len() as int] == picked);
    }
}

/// The draft goes on to the side pick exactly when as many players are on a
/// team as are queued, and with a full queue each team has half of them then.
pub proof fn law_side_pick_when_all_assigned(v: DataView, user: u64, picked: u64)
    requires
        v.wf(),
        pick_refusal(v, user, picked) is None,
    ensures
        ({
            let w = after_pick(v, picked);
            &&& w.state == State::SidePick <==> w.draft.assigned() == w.user_queue.len()
            &&& w.state == State::SidePick || w.state == State::Draft
            &&& w.state == State::SidePick && w.user_queue.len() == QUEUE_CAPACITY
                ==> w.draft.team_a.len() == QUEUE_CAPACITY / 2 && w.draft.team_b.len()
                == QUEUE_CAPACITY / 2
        }),
{
    lemma_pick_keeps_invariant(v, picked);
}

/// A ranking of ten players makes the best captain A and the second captain
/// B, and gives team A the ranks 0, 3, 5, 7 and 9 and team B the ranks 1, 2,
/// 4, 6 and 8, each in the order of the ranking.
pub proof fn law_auto_draft_of_ten(draft: DraftView, players: Seq<u64>)
    requires
        players.len() == 10,
    ensures
        auto_draft(draft, players).captain_a == Some(players[0]),
        auto_draft(draft, players).captain_b == Some(players[1]),
        auto_draft(draft, players).team_a == auto_team_a(players),
        auto_draft(draft, players).team_b == auto_team_b(players),
        auto_team_a(players) == seq![players[0], players[3], players[5], players[7], players[9]],
        auto_team_b(players) == seq![players[1], players[2], players[4], players[6], players[8]],
{
    lemma_auto_teams_step(players, 0);
    lemma_auto_teams_step(players, 1);
    lemma_auto_teams_step(players, 2);
    lemma_auto_teams_step(players, 3);
    lemma_auto_teams_step(players, 4);
    lemma_auto_teams_step(players, 5);
    lemma_auto_teams_step(players, 6);
    lemma_auto_teams_step(players, 7);
    lemma_auto_teams_step(players, 8);
    lemma_auto_teams_step(players, 9);
    assert(players.take(10) =~= players);
}

/// When the setup is ready for launch both captains are set, and where ten
/// players are drafted each team has five.
pub proof fn law_teams_complete_at_launch(v: DataView)
    requires
        v.wf(),
        launch_ready(v),
        v.draft.assigned() == QUEUE_CAPACITY,
    ensures
        v.draft.captain_a is Some,
        v.draft.captain_b is Some,
        v.draft.team_a.len() == QUEUE_CAPACITY / 2,
        v.draft.team_b.len() == QUEUE_CAPACITY / 2,
{
}

} // verus!

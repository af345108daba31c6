use vstd::prelude::*;
use crate::autodraft::{comma_list, queue_identities};
use crate::data::{after_reset, Data, DataView, QUEUE_CAPACITY};
use crate::draft::DraftType;
use crate::error::ValidationError;
use crate::seqs::{lemma_distinct_covers, lemma_remove_keeps_others};
use crate::state::State;
use crate::tables::{holds, position};
use crate::text::same_text;

verus! {

/// How long the ready check waits for an answer, in seconds.
pub const READY_TIMEOUT_SECS: u64 = 180;

/// How long the map vote lasts at most, in seconds.
pub const MAP_VOTE_SECS: u64 = 60;

/// How long the draft waits for an action, from the choice of the draft type
/// to the side pick, in seconds.
pub const SETUP_TIMEOUT_SECS: u64 = 600;

/// What a player answers in the ready check.
#[derive(Clone, Copy, Debug, PartialEq, Eq, Structural)]
pub enum ReadyAction {
    Ready,
    Unready,
}

/// The answers by the names the chat layer uses.
pub open spec fn ready_action_named(name: Seq<char>) -> Option<ReadyAction> {
    if name == "ready"@ {
        Some(ReadyAction::Ready)
    } else if name == "unready"@ {
        Some(ReadyAction::Unready)
    } else {
        None
    }
}

impl ReadyAction {
    /// The answer that `name` names, if any.
    pub fn parse(name: &str) -> (r: Option<ReadyAction>)
        ensures
            r == ready_action_named(name@),
    {
        if same_text(name, "ready") {
            Some(ReadyAction::Ready)
        } else if same_text(name, "unready") {
            Some(ReadyAction::Unready)
        } else {
            None
        }
    }
}

/// What is to happen after the draft type is chosen.
#[derive(Clone, Debug, PartialEq, Eq)]
pub enum DraftTypeAction {
    /// Two players are to volunteer as captains.
    AwaitCaptains,
    /// The statistics service is to rank these identities.
    QueryStats(String),
}

/// A queued player in the ready check.
#[derive(Clone, Copy, Debug, PartialEq, Eq, Structural)]
pub struct ReadyEntry {
    pub user: u64,
    pub ready: bool,
}

/// The ready check as it is shown: every queued player in the queue's order,
/// with whether they are ready.
pub open spec fn ready_listing(v: DataView) -> Seq<ReadyEntry> {
    Seq::new(
        v.user_queue.len(),
        |i: int| ReadyEntry { user: v.user_queue[i], ready: v.ready_queue.contains(v.user_queue[i]) },
    )
}

/// Why `user` cannot start the setup, if anything stands against it.
pub open spec fn start_refusal(v: DataView, user: u64) -> Option<ValidationError> {
    if !v.user_queue.contains(user) {
        Some(ValidationError::NotQueued)
    } else if v.user_queue.len() < QUEUE_CAPACITY {
        Some(ValidationError::QueueNotFull)
    } else if v.state != State::Queue {
        Some(ValidationError::AlreadyStarted)
    } else {
        None
    }
}

/// The state after the setup started: the ready check is on.
pub open spec fn after_start(v: DataView) -> DataView {
    DataView { state: State::Ready, ..v }
}

/// Why `user` cannot answer the ready check, if anything stands against it.
pub open spec fn ready_refusal(v: DataView, user: u64) -> Option<ValidationError> {
    if !v.user_queue.contains(user) {
        Some(ValidationError::NotQueued)
    } else if v.state != State::Ready {
        Some(ValidationError::WrongPhase)
    } else {
        None
    }
}

/// The ready players after `user` answers: ready once, however often they
/// say so, and not ready after taking it back.
pub open spec fn with_answer(ready: Seq<u64>, user: u64, action: ReadyAction) -> Seq<u64> {
    match action {
        ReadyAction::Ready => if ready.contains(user) {
            ready
        } else {
            ready.push(user)
        },
        ReadyAction::Unready => if ready.contains(user) {
            ready.remove(ready.index_of(user))
        } else {
            ready
        },
    }
}

/// The state after `user` answered the ready check: once the ready players
/// are the queued players, in whatever order, the map vote is on.
pub open spec fn after_answer(v: DataView, user: u64, action: ReadyAction) -> DataView {
    let ready = with_answer(v.ready_queue, user, action);
    DataView {
        ready_queue: ready,
        state: if ready.to_multiset() == v.user_queue.to_multiset() {
            State::MapPick
        } else {
            State::Ready
        },
        ..v
    }
}

/// Why `user` cannot choose the draft type, if anything stands against it.
pub open spec fn draft_type_refusal(v: DataView, user: u64, choice: DraftType) -> Option<
    ValidationError,
> {
    if !v.user_queue.contains(user) {
        Some(ValidationError::NotQueued)
    } else if v.state != State::DraftTypePick {
        Some(ValidationError::WrongPhase)
    } else if choice == DraftType::Auto && v.config.scrimbot_api_config is None {
        Some(ValidationError::Unavailable)
    } else {
        None
    }
}

/// The phases from the choice of the draft type to the side pick.
pub open spec fn drafting(state: State) -> bool {
    state == State::DraftTypePick || state == State::CaptainPick || state == State::Draft || state
        == State::SidePick
}

/// Whether two lists without repeats hold the same players.
fn same_players(a: &Vec<u64>, b: &Vec<u64>) -> (same: bool)
    requires
        a@.no_duplicates(),
        b@.no_duplicates(),
    ensures
        same == (a@.to_multiset() == b@.to_multiset()),
{
    proof {
        a@.to_multiset_ensures();
        b@.to_multiset_ensures();
    }
    if a.len() != b.len() {
        return false;
    }
    let mut i: usize = 0;
    while i < a.len()
        invariant
            i <= a@.len(),
            forall|j: int| 0 <= j < i ==> b@.contains(#[trigger] a@[j]),
        decreases a@.len() - i,
    {
        if !holds(b, a[i]) {
            proof {
                a@.to_multiset_ensures();
                b@.to_multiset_ensures();
                assert(a@.contains(a@[i as int]));
                assert(a@.to_multiset().count(a@[i as int]) > 0);
                assert(b@.to_multiset().count(a@[i as int]) == 0);
            }
            return false;
        }
        i += 1;
    }
    proof {
        lemma_distinct_covers(a@, b@);
    }
    true
}

impl Data {
    /// Whether `user` is in the queue.
    pub fn user_in_queue(&self, user: u64) -> (b: bool)
        ensures
            b == self@.user_queue.contains(user),
    {
        holds(&self.user_queue, user)
    }

    /// The ready check as it is shown.
    pub fn list_ready(&self) -> (entries: Vec<ReadyEntry>)
        ensures
            entries@ == ready_listing(self@),
    {
        let mut entries: Vec<ReadyEntry> = Vec::new();
        let mut i: usize = 0;
        while i < self.user_queue.len()
            invariant
                i <= self.user_queue@.len(),
                entries@.len() == i,
                forall|j: int| 0 <= j < i ==> #[trigger] entries@[j] == ready_listing(self@)[j],
            decreases self.user_queue@.len() - i,
        {
            let user = self.user_queue[i];
            entries.push(ReadyEntry { user, ready: holds(&self.ready_queue, user) });
            i += 1;
        }
        assert(entries@ =~= ready_listing(self@));
        entries
    }

    /// A queued player starts the setup of a match. It starts from phase
    /// `Queue` with a full queue, and with the ready check.
    pub fn start(&mut self, user: u64) -> (r: Result<(), ValidationError>)
        requires
            old(self).wf(),
        ensures
            final(self).wf(),
            match r {
                Ok(()) => start_refusal(old(self)@, user) is None && final(self)@ == after_start(
                    old(self)@,
                ),
                Err(e) => start_refusal(old(self)@, user) == Some(e) && final(self)@ == old(self)@,
            },
    {
        if !holds(&self.user_queue, user) {
            return Err(ValidationError::NotQueued);
        }
        if self.user_queue.len() < QUEUE_CAPACITY {
            return Err(ValidationError::QueueNotFull);
        }
        if self.state != State::Queue {
            return Err(ValidationError::AlreadyStarted);
        }
        self.state = State::Ready;
        Ok(())
    }

    /// `user` answers the ready check. The result says whether the check is
    /// complete, which it is when the ready players are the queued players in
    /// some order; the map vote is on then.
    pub fn handle_ready(&mut self, user: u64, action: ReadyAction) -> (r: Result<
        bool,
        ValidationError,
    >)
        requires
            old(self).wf(),
        ensures
            final(self).wf(),
            match r {
                Ok(complete) => {
                    &&& ready_refusal(old(self)@, user) is None
                    &&& final(self)@ == after_answer(old(self)@, user, action)
                    &&& complete == (final(self)@.state == State::MapPick)
                    &&& complete == (final(self)@.ready_queue.to_multiset() == final(
                        self)@.user_queue.to_multiset())
                },
                Err(e) => ready_refusal(old(self)@, user) == Some(e) && final(self)@ == old(self)@,
            },
    {
        if !holds(&self.user_queue, user) {
            return Err(ValidationError::NotQueued);
        }
        if self.state != State::Ready {
            return Err(ValidationError::WrongPhase);
        }
        let found = position(&self.ready_queue, user);
        match action {
            ReadyAction::Ready => {
                if found.is_none() {
                    self.ready_queue.push(user);
                }
            },
            ReadyAction::Unready => {
                if let Some(index) = found {
                    proof {
                        lemma_remove_keeps_others(self@.ready_queue, index as int);
                    }
                    self.ready_queue.remove(index);
                }
            },
        }
        let complete = same_players(&self.ready_queue, &self.user_queue);
        if complete {
            self.state = State::MapPick;
        }
        Ok(complete)
    }

    /// The ready check ran out of time: the setup is given up, the queue
    /// stays. Outside the ready check nothing happens.
    pub fn ready_timeout(&mut self) -> (aborted: bool)
        requires
            old(self).wf(),
        ensures
            final(self).wf(),
            aborted == (old(self)@.state == State::Ready),
            final(self)@ == if aborted {
                after_reset(old(self)@)
            } else {
                old(self)@
            },
    {
        if self.state == State::Ready {
            self.reset_draft();
            true
        } else {
            false
        }
    }

    /// The draft ran out of time, anywhere from the choice of the draft type
    /// to the side pick: the setup is given up, the queue stays. In the other
    /// phases nothing happens.
    pub fn setup_timeout(&mut self) -> (aborted: bool)
        requires
            old(self).wf(),
        ensures
            final(self).wf(),
            aborted == drafting(old(self)@.state),
            final(self)@ == if aborted {
                after_reset(old(self)@)
            } else {
                old(self)@
            },
    {
        match self.state {
            State::DraftTypePick | State::CaptainPick | State::Draft | State::SidePick => {
                self.reset_draft();
                true
            },
            _ => false,
        }
    }

    /// An admin cancels the setup in flight: nobody is ready, nothing is
    /// drafted, the phase is `Queue` and the queue stays. With no setup in
    /// flight there is nothing to cancel.
    pub fn cancel(&mut self) -> (r: Result<(), ValidationError>)
        requires
            old(self).wf(),
        ensures
            final(self).wf(),
            match r {
                Ok(()) => old(self)@.state != State::Queue && final(self)@ == after_reset(
                    old(self)@,
                ),
                Err(e) => e == ValidationError::WrongPhase && old(self)@.state == State::Queue
                    && final(self)@ == old(self)@,
            },
    {
        if self.state == State::Queue {
            return Err(ValidationError::WrongPhase);
        }
        self.reset_draft();
        Ok(())
    }

    /// A queued player chooses how the teams are drawn up. For a manual
    /// draft the captains are awaited next. For an automatic draft the phase
    /// stays until the ranking is in, and the result holds the identities to
    /// rank.
    pub fn handle_draft_type(&mut self, user: u64, choice: DraftType) -> (r: Result<
        DraftTypeAction,
        ValidationError,
    >)
        requires
            old(self).wf(),
        ensures
            final(self).wf(),
            match r {
                Ok(DraftTypeAction::AwaitCaptains) => {
                    &&& draft_type_refusal(old(self)@, user, choice) is None
                    &&& choice == DraftType::Manual
                    &&& final(self)@ == (DataView { state: State::CaptainPick, ..old(self)@ })
                },
                Ok(DraftTypeAction::QueryStats(query)) => {
                    &&& draft_type_refusal(old(self)@, user, choice) is None
                    &&& choice == DraftType::Auto
                    &&& query@ == comma_list(queue_identities(old(self)@))
                    &&& final(self)@ == old(self)@
                },
                Err(e) => draft_type_refusal(old(self)@, user, choice) == Some(e) && final(self)@
                    == old(self)@,
            },
    {
        if !holds(&self.user_queue, user) {
            return Err(ValidationError::NotQueued);
        }
        if self.state != State::DraftTypePick {
            return Err(ValidationError::WrongPhase);
        }
        match choice {
            DraftType::Manual => {
                self.state = State::CaptainPick;
                Ok(DraftTypeAction::AwaitCaptains)
            },
            DraftType::Auto => {
                if self.config.scrimbot_api_config.is_none() {
                    return Err(ValidationError::Unavailable);
                }
                Ok(DraftTypeAction::QueryStats(self.stats_query_ids()))
            },
        }
    }
}

} // verus!

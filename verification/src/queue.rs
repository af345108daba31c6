use vstd::prelude::*;
use vstd::string::{StrSliceExecFns, StringExecFns};
use crate::data::{after_clear_queue, Data, DataView, QUEUE_CAPACITY};
use crate::error::ValidationError;
use crate::seqs::lemma_remove_keeps_others;
use crate::state::State;
use crate::tables::{erase, lookup, position, store, wipe};

verus! {

/// How many characters of a join message are kept.
pub const MESSAGE_LIMIT: usize = 50;

/// Whether a character has the Unicode property `White_Space`.
pub uninterp spec fn white_space(c: char) -> bool;

/// `char::is_whitespace` of std: whether `c` has the Unicode property
/// `White_Space`.
#[verifier::external_body]
fn is_white_space(c: char) -> (b: bool)
    ensures
        b == white_space(c),
{
    c.is_whitespace()
}

/// `text` without the whitespace at its start.
pub open spec fn trim_start(text: Seq<char>) -> Seq<char>
    decreases text.len(),
{
    if text.len() > 0 && white_space(text.first()) {
        trim_start(text.drop_first())
    } else {
        text
    }
}

/// `text` without the whitespace at its end.
pub open spec fn trim_end(text: Seq<char>) -> Seq<char>
    decreases text.len(),
{
    if text.len() > 0 && white_space(text.last()) {
        trim_end(text.drop_last())
    } else {
        text
    }
}

/// What is kept of the join message `text`: its first characters, up to the
/// limit, without the whitespace at their two ends.
pub open spec fn note_of(text: Seq<char>) -> Seq<char> {
    trim_end(
        trim_start(
            text.take(
                if text.len() <= MESSAGE_LIMIT {
                    text.len() as int
                } else {
                    MESSAGE_LIMIT as int
                },
            ),
        ),
    )
}

proof fn lemma_trim_start(text: Seq<char>, a: int)
    requires
        0 <= a <= text.len(),
        forall|i: int| 0 <= i < a ==> white_space(#[trigger] text[i]),
        a < text.len() ==> !white_space(text[a]),
    ensures
        trim_start(text) == text.subrange(a, text.len() as int),
    decreases a,
{
    if a > 0 {
        let rest = text.drop_first();
        assert forall|i: int| 0 <= i < a - 1 implies white_space(#[trigger] rest[i]) by {
            assert(rest[i] == text[i + 1]);
        }
        lemma_trim_start(rest, a - 1);
        assert(rest.subrange(a - 1, rest.len() as int) =~= text.subrange(a, text.len() as int));
    } else {
        assert(text.subrange(0, text.len() as int) =~= text);
    }
}

proof fn lemma_trim_end(text: Seq<char>, b: int)
    requires
        0 <= b <= text.len(),
        forall|i: int| b <= i < text.len() ==> white_space(#[trigger] text[i]),
        b > 0 ==> !white_space(text[b - 1]),
    ensures
        trim_end(text) == text.subrange(0, b),
    decreases text.len() - b,
{
    if b < text.len() {
        let rest = text.drop_last();
        lemma_trim_end(rest, b);
        assert(rest.subrange(0, b) =~= text.subrange(0, b));
    } else {
        assert(text.subrange(0, b) =~= text);
    }
}

/// What is kept of a join message.
pub fn queue_note(text: &str) -> (note: String)
    ensures
        note@ == note_of(text@),
{
    let n = text.unicode_len();
    let end = if n <= MESSAGE_LIMIT {
        n
    } else {
        MESSAGE_LIMIT
    };
    let ghost head = text@.take(end as int);
    let mut a: usize = 0;
    while a < end && is_white_space(text.get_char(a))
        invariant
            a <= end <= text@.len(),
            head == text@.take(end as int),
            forall|i: int| 0 <= i < a ==> white_space(#[trigger] head[i]),
        decreases end - a,
    {
        a += 1;
    }
    let mut b: usize = end;
    while b > a && is_white_space(text.get_char(b - 1))
        invariant
            a <= b <= end <= text@.len(),
            head == text@.take(end as int),
            forall|i: int| b <= i < end ==> white_space(#[trigger] head[i]),
        decreases b,
    {
        b -= 1;
    }
    proof {
        lemma_trim_start(head, a as int);
        let tail = head.subrange(a as int, end as int);
        assert forall|i: int| b - a <= i < tail.len() implies white_space(#[trigger] tail[i]) by {
            assert(tail[i] == head[i + a]);
        }
        if b > a {
            assert(tail[b - a - 1] == head[b - 1]);
        }
        lemma_trim_end(tail, b - a);
        assert(tail.subrange(0, b - a) =~= text@.subrange(a as int, b as int));
    }
    String::from_str(text.substring_char(a, b))
}

/// Why `user` cannot join, if anything stands against it.
pub open spec fn join_refusal(v: DataView, user: u64) -> Option<ValidationError> {
    if !v.steam_id_cache.contains_key(user) {
        Some(ValidationError::MissingIdentity)
    } else if v.user_queue.len() >= QUEUE_CAPACITY {
        Some(ValidationError::QueueFull)
    } else if v.user_queue.contains(user) {
        Some(ValidationError::AlreadyQueued)
    } else {
        None
    }
}

/// The state after `user` joined: last in the queue, with the note if one
/// came along.
pub open spec fn after_join(v: DataView, user: u64, note: Option<Seq<char>>) -> DataView {
    DataView {
        user_queue: v.user_queue.push(user),
        queue_messages: match note {
            Some(note) => v.queue_messages.insert(user, note),
            None => v.queue_messages,
        },
        ..v
    }
}

/// Why `user` cannot leave or be kicked, if anything stands against it.
pub open spec fn leave_refusal(v: DataView, user: u64) -> Option<ValidationError> {
    if v.state != State::Queue {
        Some(ValidationError::WrongPhase)
    } else if !v.user_queue.contains(user) {
        Some(ValidationError::NotQueued)
    } else {
        None
    }
}

/// The state after `user` left: the others in their order, and no note of
/// `user`.
pub open spec fn after_leave(v: DataView, user: u64) -> DataView {
    DataView {
        user_queue: v.user_queue.remove(v.user_queue.index_of(user)),
        queue_messages: v.queue_messages.remove(user),
        ..v
    }
}

/// A player joins, with a note or without, or leaves.
pub enum QueueOp {
    Join(u64, Option<Seq<char>>),
    Leave(u64),
}

/// The state after one attempt to join or leave: a refused attempt changes
/// nothing.
pub open spec fn apply_op(v: DataView, op: QueueOp) -> DataView {
    match op {
        QueueOp::Join(user, note) => if join_refusal(v, user) is None {
            after_join(v, user, note)
        } else {
            v
        },
        QueueOp::Leave(user) => if leave_refusal(v, user) is None {
            after_leave(v, user)
        } else {
            v
        },
    }
}

/// The state after a sequence of attempts to join and leave.
pub open spec fn replay(v: DataView, ops: Seq<QueueOp>) -> DataView
    decreases ops.len(),
{
    if ops.len() == 0 {
        v
    } else {
        apply_op(replay(v, ops.drop_last()), ops.last())
    }
}

impl Data {
    /// `user` joins the queue, with a join message or without. The result
    /// is the size of the queue after it.
    pub fn join(&mut self, user: u64, message: Option<&str>) -> (r: Result<usize, ValidationError>)
        requires
            old(self).wf(),
        ensures
            final(self).wf(),
            match r {
                Ok(size) => {
                    &&& join_refusal(old(self)@, user) is None
                    &&& size == final(self)@.user_queue.len()
                    &&& final(self)@ == after_join(
                        old(self)@,
                        user,
                        match message {
                            Some(text) => Some(note_of(text@)),
                            None => None,
                        },
                    )
                },
                Err(e) => join_refusal(old(self)@, user) == Some(e) && final(self)@ == old(self)@,
            },
    {
        if lookup(&self.steam_id_cache, user).is_none() {
            return Err(ValidationError::MissingIdentity);
        }
        if self.user_queue.len() >= QUEUE_CAPACITY {
            return Err(ValidationError::QueueFull);
        }
        if position(&self.user_queue, user).is_some() {
            return Err(ValidationError::AlreadyQueued);
        }
        self.user_queue.push(user);
        proof {
            let q = old(self)@.user_queue;
            assert(self@.user_queue[q.len() as int] == user);
            assert forall|x: u64| q.contains(x) implies self@.user_queue.contains(x) by {
                let j = choose|j: int| 0 <= j < q.len() && q[j] == x;
                assert(self@.user_queue[j] == x);
            }
        }
        match message {
            Some(text) => {
                store(&mut self.queue_messages, user, queue_note(text));
            },
            None => {},
        }
        Ok(self.user_queue.len())
    }

    fn drop_from_queue(&mut self, user: u64) -> (r: Result<usize, ValidationError>)
        requires
            old(self).wf(),
        ensures
            final(self).wf(),
            match r {
                Ok(size) => leave_refusal(old(self)@, user) is None && final(self)@ == after_leave(
                    old(self)@,
                    user,
                ) && size == final(self)@.user_queue.len(),
                Err(e) => leave_refusal(old(self)@, user) == Some(e) && final(self)@ == old(self)@,
            },
    {
        if self.state != State::Queue {
            return Err(ValidationError::WrongPhase);
        }
        let index = match position(&self.user_queue, user) {
            Some(index) => index,
            None => {
                return Err(ValidationError::NotQueued);
            },
        };
        proof {
            lemma_remove_keeps_others(self@.user_queue, index as int);
        }
        self.user_queue.remove(index);
        erase(&mut self.queue_messages, user);
        Ok(self.user_queue.len())
    }

    /// `user` leaves the queue. The result is the size of the queue after it.
    pub fn leave(&mut self, user: u64) -> (r: Result<usize, ValidationError>)
        requires
            old(self).wf(),
        ensures
            final(self).wf(),
            match r {
                Ok(size) => leave_refusal(old(self)@, user) is None && final(self)@ == after_leave(
                    old(self)@,
                    user,
                ) && size == final(self)@.user_queue.len(),
                Err(e) => leave_refusal(old(self)@, user) == Some(e) && final(self)@ == old(self)@,
            },
    {
        self.drop_from_queue(user)
    }

    /// An admin removes `user` from the queue. The result is the size of the
    /// queue after it.
    pub fn kick(&mut self, user: u64) -> (r: Result<usize, ValidationError>)
        requires
            old(self).wf(),
        ensures
            final(self).wf(),
            match r {
                Ok(size) => leave_refusal(old(self)@, user) is None && final(self)@ == after_leave(
                    old(self)@,
                    user,
                ) && size == final(self)@.user_queue.len(),
                Err(e) => leave_refusal(old(self)@, user) == Some(e) && final(self)@ == old(self)@,
            },
    {
        self.drop_from_queue(user)
    }

    /// Empties the queue, in any phase, and drops the join messages. The
    /// phase, the ready check and the draft stay as they are.
    pub fn clear_queue(&mut self)
        requires
            old(self).wf(),
        ensures
            final(self).wf(),
            final(self)@ == after_clear_queue(old(self)@),
    {
        self.user_queue.clear();
        wipe(&mut self.queue_messages);
    }
}

/// A queued player with the note they joined with.
#[derive(Clone, Debug, PartialEq, Eq)]
pub struct QueueEntry {
    pub user: u64,
    pub message: Option<String>,
}

/// An entry of the queue as the contracts see it.
pub struct QueueEntryView {
    pub user: u64,
    pub message: Option<Seq<char>>,
}

impl View for QueueEntry {
    type V = QueueEntryView;

    open spec fn view(&self) -> QueueEntryView {
        QueueEntryView {
            user: self.user,
            message: match self.message {
                Some(text) => Some(text@),
                None => None,
            },
        }
    }
}

/// The queue as it is shown: every queued player in the queue's order, with
/// the note where there is one.
pub open spec fn listing(v: DataView) -> Seq<QueueEntryView> {
    Seq::new(
        v.user_queue.len(),
        |i: int|
            QueueEntryView {
                user: v.user_queue[i],
                message: if v.queue_messages.contains_key(v.user_queue[i]) {
                    Some(v.queue_messages[v.user_queue[i]])
                } else {
                    None
                },
            },
    )
}

/// The attempts to join of `users`, in their order and without notes.
pub open spec fn joins_of(users: Seq<u64>) -> Seq<QueueOp> {
    Seq::new(users.len(), |i: int| QueueOp::Join(users[i], None))
}

impl Data {
    /// The queue as it is shown.
    pub fn list(&self) -> (entries: Vec<QueueEntry>)
        ensures
            entries@.map_values(|e: QueueEntry| e@) == listing(self@),
    {
        let mut entries: Vec<QueueEntry> = Vec::new();
        let mut i: usize = 0;
        while i < self.user_queue.len()
            invariant
                i <= self.user_queue@.len(),
                entries@.len() == i,
                forall|j: int| 0 <= j < i ==> (#[trigger] entries@[j])@ == listing(self@)[j],
            decreases self.user_queue@.len() - i,
        {
            let user = self.user_queue[i];
            let message = match lookup(&self.queue_messages, user) {
                Some(text) => Some(text.clone()),
                None => None,
            };
            entries.push(QueueEntry { user, message });
            i += 1;
        }
        entries
    }

    /// An admin sets the queue anew: it is emptied, as by `clear_queue`, and
    /// then `users` join in their order, as far as they are not refused.
    pub fn recover_queue(&mut self, users: &Vec<u64>)
        requires
            old(self).wf(),
        ensures
            final(self).wf(),
            final(self)@ == replay(after_clear_queue(old(self)@), joins_of(users@)),
    {
        self.clear_queue();
        let ghost start = self@;
        let ghost ops = joins_of(users@);
        let mut i: usize = 0;
        while i < users.len()
            invariant
                i <= users@.len(),
                self.wf(),
                ops == joins_of(users@),
                self@ == replay(start, ops.take(i as int)),
            decreases users@.len() - i,
        {
            proof {
                let next = ops.take(i + 1);
                assert(next.drop_last() =~= ops.take(i as int));
            }
            let _ = self.join(users[i], None);
            i += 1;
        }
        assert(ops.take(i as int) =~= ops);
    }
}

} // verus!

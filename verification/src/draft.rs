use vstd::prelude::*;
use crate::data::{Data, DataView, DraftView, Side};
use crate::error::ValidationError;
use crate::state::State;
use crate::tables::holds;
use crate::text::same_text;

verus! {

/// How the teams are to be drawn up.
#[derive(Clone, Copy, Debug, PartialEq, Eq, Structural)]
pub enum DraftType {
    Auto,
    Manual,
}

/// The draft types by the names the chat layer uses.
pub open spec fn draft_type_named(name: Seq<char>) -> Option<DraftType> {
    if name == "autodraft"@ {
        Some(DraftType::Auto)
    } else if name == "manualdraft"@ {
        Some(DraftType::Manual)
    } else {
        None
    }
}

/// The sides by the names the chat layer uses.
pub open spec fn side_named(name: Seq<char>) -> Option<Side> {
    if name == "ct"@ {
        Some(Side::Ct)
    } else if name == "t"@ {
        Some(Side::T)
    } else {
        None
    }
}

impl DraftType {
    /// The draft type that `name` names, if any.
    pub fn parse(name: &str) -> (r: Option<DraftType>)
        ensures
            r == draft_type_named(name@),
    {
        if same_text(name, "autodraft") {
            Some(DraftType::Auto)
        } else if same_text(name, "manualdraft") {
            Some(DraftType::Manual)
        } else {
            None
        }
    }
}

impl Side {
    /// The side that `name` names, if any.
    pub fn parse(name: &str) -> (r: Option<Side>)
        ensures
            r == side_named(name@),
    {
        if same_text(name, "ct") {
            Some(Side::Ct)
        } else if same_text(name, "t") {
            Some(Side::T)
        } else {
            None
        }
    }

    /// The name of the side: `ct` or `t`.
    pub fn as_str(&self) -> (s: &'static str)
        ensures
            side_named(s@) == Some(*self),
    {
        proof {
            reveal_strlit("ct");
            reveal_strlit("t");
        }
        match self {
            Side::Ct => {
                assert("ct"@.len() != "t"@.len());
                "ct"
            },
            Side::T => {
                "t"
            },
        }
    }
}

/// The phase that follows an assignment: `SidePick` once as many players are
/// on a team as are queued, `Draft` until then.
pub open spec fn phase_for(draft: DraftView, queue: Seq<u64>) -> State {
    if draft.assigned() == queue.len() {
        State::SidePick
    } else {
        State::Draft
    }
}

/// The draft after `user` volunteers as captain: the first volunteer is
/// captain A and is to pick first, the second is captain B.
pub open spec fn with_captain(draft: DraftView, user: u64) -> DraftView {
    if draft.captain_a is None {
        DraftView {
            captain_a: Some(user),
            team_a: draft.team_a.push(user),
            current_picker: Some(user),
            ..draft
        }
    } else {
        DraftView { captain_b: Some(user), team_b: draft.team_b.push(user), ..draft }
    }
}

/// Why `user` cannot volunteer as captain, if anything stands against it.
pub open spec fn captain_pick_refusal(v: DataView, user: u64) -> Option<ValidationError> {
    if !v.user_queue.contains(user) {
        Some(ValidationError::NotQueued)
    } else if v.state != State::CaptainPick {
        Some(ValidationError::WrongPhase)
    } else if v.draft.captain_a == Some(user) || v.draft.captain_b == Some(user) {
        Some(ValidationError::AlreadyCaptain)
    } else {
        None
    }
}

/// The state after `user` volunteered as captain.
pub open spec fn after_captain_pick(v: DataView, user: u64) -> DataView {
    let draft = with_captain(v.draft, user);
    DataView {
        state: if draft.captain_b is Some {
            phase_for(draft, v.user_queue)
        } else {
            State::CaptainPick
        },
        draft,
        ..v
    }
}

/// The draft after the captain whose turn it is picks `picked`: the player
/// joins the captain's team and the turn passes to the other captain.
pub open spec fn with_pick(draft: DraftView, picked: u64) -> DraftView {
    if draft.current_picker == draft.captain_a {
        DraftView {
            team_a: draft.team_a.push(picked),
            current_picker: draft.captain_b,
            ..draft
        }
    } else {
        DraftView {
            team_b: draft.team_b.push(picked),
            current_picker: draft.captain_a,
            ..draft
        }
    }
}

/// Why `user` cannot pick `picked`, if anything stands against it.
pub open spec fn pick_refusal(v: DataView, user: u64, picked: u64) -> Option<ValidationError> {
    if !v.user_queue.contains(user) {
        Some(ValidationError::NotQueued)
    } else if v.state != State::Draft {
        Some(ValidationError::WrongPhase)
    } else if v.draft.current_picker != Some(user) {
        Some(ValidationError::WrongTurn)
    } else if !v.user_queue.contains(picked) {
        Some(ValidationError::PickNotQueued)
    } else if v.draft.has(picked) {
        Some(ValidationError::AlreadyPicked)
    } else {
        None
    }
}

/// The state after the captain whose turn it is picked `picked`.
pub open spec fn after_pick(v: DataView, picked: u64) -> DataView {
    let draft = with_pick(v.draft, picked);
    DataView { state: phase_for(draft, v.user_queue), draft, ..v }
}

/// Why `user` cannot pick the starting side, if anything stands against it.
pub open spec fn sidepick_refusal(v: DataView, user: u64) -> Option<ValidationError> {
    if !v.user_queue.contains(user) {
        Some(ValidationError::NotQueued)
    } else if v.state != State::SidePick {
        Some(ValidationError::WrongPhase)
    } else if v.draft.captain_b != Some(user) {
        Some(ValidationError::NotCaptainB)
    } else {
        None
    }
}

/// The state after captain B picked `side`.
pub open spec fn after_sidepick(v: DataView, side: Side) -> DataView {
    DataView { draft: DraftView { team_b_start_side: Some(side), ..v.draft }, ..v }
}

/// The queued players that are on no team, in the queue's order.
pub open spec fn remaining_users(v: DataView) -> Seq<u64> {
    v.user_queue.filter(|p: u64| !v.draft.has(p))
}

impl Data {
    /// Whether as many players are on a team as are queued.
    pub(crate) fn all_assigned(&self) -> (b: bool)
        ensures
            b == (self@.draft.assigned() == self@.user_queue.len()),
    {
        let queued = self.user_queue.len();
        let on_b = self.draft.team_b.len();
        on_b <= queued && self.draft.team_a.len() == queued - on_b
    }

    /// `user` volunteers as captain. The result is the phase that follows:
    /// `CaptainPick` while captain B is wanting, then `Draft`, or `SidePick`
    /// where the two captains are the whole queue.
    pub fn handle_captain_pick(&mut self, user: u64) -> (r: Result<State, ValidationError>)
        requires
            old(self).wf(),
        ensures
            final(self).wf(),
            match r {
                Ok(state) => captain_pick_refusal(old(self)@, user) is None && final(self)@
                    == after_captain_pick(old(self)@, user) && state == final(self)@.state,
                Err(e) => captain_pick_refusal(old(self)@, user) == Some(e) && final(self)@ == old(
                    self,
                )@,
            },
    {
        if !holds(&self.user_queue, user) {
            return Err(ValidationError::NotQueued);
        }
        if self.state != State::CaptainPick {
            return Err(ValidationError::WrongPhase);
        }
        if let Some(captain) = self.draft.captain_a {
            if captain == user {
                return Err(ValidationError::AlreadyCaptain);
            }
        }
        if self.draft.captain_a.is_none() {
            self.draft.captain_a = Some(user);
            self.draft.team_a.push(user);
            self.draft.current_picker = Some(user);
        } else {
            self.draft.captain_b = Some(user);
            self.draft.team_b.push(user);
            if self.all_assigned() {
                self.state = State::SidePick;
            } else {
                self.state = State::Draft;
            }
        }
        Ok(self.state)
    }

    /// The captain `user` picks `picked` for their team. The result is the
    /// phase that follows: `Draft` while players remain, then `SidePick`.
    pub fn handle_draft(&mut self, user: u64, picked: u64) -> (r: Result<State, ValidationError>)
        requires
            old(self).wf(),
        ensures
            final(self).wf(),
            match r {
                Ok(state) => pick_refusal(old(self)@, user, picked) is None && final(self)@
                    == after_pick(old(self)@, picked) && state == final(self)@.state,
                Err(e) => pick_refusal(old(self)@, user, picked) == Some(e) && final(self)@ == old(
                    self,
                )@,
            },
    {
        if !holds(&self.user_queue, user) {
            return Err(ValidationError::NotQueued);
        }
        if self.state != State::Draft {
            return Err(ValidationError::WrongPhase);
        }
        if self.draft.current_picker != Some(user) {
            return Err(ValidationError::WrongTurn);
        }
        if !holds(&self.user_queue, picked) {
            return Err(ValidationError::PickNotQueued);
        }
        if holds(&self.draft.team_a, picked) || holds(&self.draft.team_b, picked) {
            return Err(ValidationError::AlreadyPicked);
        }
        if self.draft.captain_a == Some(user) {
            self.draft.team_a.push(picked);
            self.draft.current_picker = self.draft.captain_b;
        } else {
            self.draft.team_b.push(picked);
            self.draft.current_picker = self.draft.captain_a;
        }
        if self.all_assigned() {
            self.state = State::SidePick;
        } else {
            self.state = State::Draft;
        }
        Ok(self.state)
    }

    /// The queued players that are on no team, in the queue's order.
    pub fn get_remaining_users(&self) -> (remaining: Vec<u64>)
        ensures
            remaining@ == remaining_users(self@),
    {
        let mut remaining: Vec<u64> = Vec::new();
        let ghost free = |p: u64| !self@.draft.has(p);
        let mut i: usize = 0;
        while i < self.user_queue.len()
            invariant
                i <= self.user_queue@.len(),
                free == |p: u64| !self@.draft.has(p),
                remaining@ == self@.user_queue.take(i as int).filter(free),
            decreases self.user_queue@.len() - i,
        {
            let user = self.user_queue[i];
            proof {
                reveal(Seq::filter);
                let next = self@.user_queue.take(i + 1);
                assert(next.drop_last() =~= self@.user_queue.take(i as int));
            }
            if !holds(&self.draft.team_a, user) && !holds(&self.draft.team_b, user) {
                remaining.push(user);
            }
            i += 1;
        }
        assert(self@.user_queue.take(i as int) =~= self@.user_queue);
        remaining
    }

    /// Captain B picks the side on which team B starts. After it the setup
    /// is ready for launch.
    pub fn handle_sidepick(&mut self, user: u64, side: Side) -> (r: Result<(), ValidationError>)
        requires
            old(self).wf(),
        ensures
            final(self).wf(),
            match r {
                Ok(()) => sidepick_refusal(old(self)@, user) is None && final(self)@
                    == after_sidepick(old(self)@, side),
                Err(e) => sidepick_refusal(old(self)@, user) == Some(e) && final(self)@ == old(
                    self,
                )@,
            },
    {
        if !holds(&self.user_queue, user) {
            return Err(ValidationError::NotQueued);
        }
        if self.state != State::SidePick {
            return Err(ValidationError::WrongPhase);
        }
        if self.draft.captain_b != Some(user) {
            return Err(ValidationError::NotCaptainB);
        }
        self.draft.team_b_start_side = Some(side);
        Ok(())
    }
}

} // verus!

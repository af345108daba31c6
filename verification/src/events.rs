use vstd::prelude::*;
use crate::autodraft::{comma_list, queue_identities};
use crate::data::{names_view, Data, DataView, Side};
use crate::draft::{
    after_captain_pick, after_pick, after_sidepick, captain_pick_refusal, draft_type_named,
    pick_refusal, remaining_users, side_named, sidepick_refusal, DraftType,
};
use crate::error::ValidationError;
use crate::setup::{
    after_answer, draft_type_refusal, ready_action_named, ready_refusal, DraftTypeAction,
    ReadyAction,
};
use crate::state::State;
use crate::text::{copy_string, decimal_number, parse_decimal, same_text};
use crate::votes::{after_vote, all_voted, vote_refusal};

verus! {

/// What a player does on the message of a setup in flight.
#[derive(Clone, Debug, PartialEq, Eq)]
pub enum Interaction {
    /// Answers the ready check.
    Ready(ReadyAction),
    /// Votes for maps.
    Vote(Vec<String>),
    /// Chooses how the teams are drawn up.
    DraftType(DraftType),
    /// Volunteers as captain.
    Captain,
    /// Picks a player.
    Pick(u64),
    /// Picks the starting side.
    Side(Side),
}

/// An interaction as the contracts see it.
pub enum InteractionView {
    Ready(ReadyAction),
    Vote(Seq<Seq<char>>),
    DraftType(DraftType),
    Captain,
    Pick(u64),
    Side(Side),
}

impl View for Interaction {
    type V = InteractionView;

    open spec fn view(&self) -> InteractionView {
        match self {
            Interaction::Ready(action) => InteractionView::Ready(*action),
            Interaction::Vote(maps) => InteractionView::Vote(names_view(maps@)),
            Interaction::DraftType(choice) => InteractionView::DraftType(*choice),
            Interaction::Captain => InteractionView::Captain,
            Interaction::Pick(player) => InteractionView::Pick(*player),
            Interaction::Side(side) => InteractionView::Side(*side),
        }
    }
}

/// What the chat layer is to do after an interaction.
#[derive(Clone, Debug, PartialEq, Eq)]
pub enum Progress {
    /// Nothing new: the phase goes on.
    Waiting,
    /// The setup is in this phase now.
    Advanced(State),
    /// Every queued player has voted: the vote can be concluded.
    VotesComplete,
    /// The statistics service is to rank these identities.
    QueryStats(String),
    /// The side is picked: the match can be launched.
    Launch,
}

/// What the message of a setup offers to the players, phase by phase.
#[derive(Clone, Debug, PartialEq, Eq)]
pub enum Controls {
    /// No setup is in flight.
    Nothing,
    /// The buttons of the ready check.
    ReadyCheck,
    /// The menu of the maps in the pool.
    MapMenu(Vec<String>),
    /// The buttons for the two draft types.
    DraftTypes,
    /// The button to volunteer as captain.
    Captain,
    /// The menu of the players left to pick.
    PlayerMenu(Vec<u64>),
    /// The buttons for the two sides.
    Sides,
}

/// The controls as the contracts see them.
pub enum ControlsView {
    Nothing,
    ReadyCheck,
    MapMenu(Seq<Seq<char>>),
    DraftTypes,
    Captain,
    PlayerMenu(Seq<u64>),
    Sides,
}

impl View for Controls {
    type V = ControlsView;

    open spec fn view(&self) -> ControlsView {
        match self {
            Controls::Nothing => ControlsView::Nothing,
            Controls::ReadyCheck => ControlsView::ReadyCheck,
            Controls::MapMenu(maps) => ControlsView::MapMenu(names_view(maps@)),
            Controls::DraftTypes => ControlsView::DraftTypes,
            Controls::Captain => ControlsView::Captain,
            Controls::PlayerMenu(players) => ControlsView::PlayerMenu(players@),
            Controls::Sides => ControlsView::Sides,
        }
    }
}

/// The controls that belong to the phase of `v`.
pub open spec fn controls_of(v: DataView) -> ControlsView {
    match v.state {
        State::Queue => ControlsView::Nothing,
        State::Ready => ControlsView::ReadyCheck,
        State::MapPick => ControlsView::MapMenu(v.maps),
        State::DraftTypePick => ControlsView::DraftTypes,
        State::CaptainPick => ControlsView::Captain,
        State::Draft => ControlsView::PlayerMenu(remaining_users(v)),
        State::SidePick => ControlsView::Sides,
    }
}

/// The interaction that a component's identifier and selected values stand
/// for: a button by its name, the map menu with the maps selected, the player
/// menu with the picked player's number in decimal as its first value.
pub open spec fn interaction_named(id: Seq<char>, values: Seq<Seq<char>>) -> Option<
    InteractionView,
> {
    if ready_action_named(id) is Some {
        Some(InteractionView::Ready(ready_action_named(id)->0))
    } else if id == "map_select"@ {
        Some(InteractionView::Vote(values))
    } else if draft_type_named(id) is Some {
        Some(InteractionView::DraftType(draft_type_named(id)->0))
    } else if id == "captain"@ {
        Some(InteractionView::Captain)
    } else if id == "user_select"@ {
        if values.len() > 0 && decimal_number(values[0]) is Some {
            Some(InteractionView::Pick(decimal_number(values[0])->0))
        } else {
            None
        }
    } else if side_named(id) is Some {
        Some(InteractionView::Side(side_named(id)->0))
    } else {
        None
    }
}

/// What the new phase means for the chat layer: something only where it
/// differs from the old one.
pub open spec fn moved(before: State, after: State) -> Progress {
    if before == after {
        Progress::Waiting
    } else {
        Progress::Advanced(after)
    }
}

impl Interaction {
    /// Reads an interaction from a component's identifier and its selected
    /// values.
    pub fn parse(id: &str, values: Vec<String>) -> (r: Option<Interaction>)
        ensures
            match r {
                Some(interaction) => interaction_named(id@, names_view(values@)) == Some(
                    interaction@,
                ),
                None => interaction_named(id@, names_view(values@)) is None,
            },
    {
        if let Some(action) = ReadyAction::parse(id) {
            return Some(Interaction::Ready(action));
        }
        if same_text(id, "map_select") {
            return Some(Interaction::Vote(values));
        }
        if let Some(choice) = DraftType::parse(id) {
            return Some(Interaction::DraftType(choice));
        }
        if same_text(id, "captain") {
            return Some(Interaction::Captain);
        }
        if same_text(id, "user_select") {
            if values.len() == 0 {
                return None;
            }
            return match parse_decimal(values[0].as_str()) {
                Some(player) => Some(Interaction::Pick(player)),
                None => None,
            };
        }
        match Side::parse(id) {
            Some(side) => Some(Interaction::Side(side)),
            None => None,
        }
    }
}

impl Data {
    /// What the message of the setup offers in the current phase.
    pub fn controls(&self) -> (controls: Controls)
        ensures
            controls@ == controls_of(self@),
    {
        match self.state {
            State::Queue => Controls::Nothing,
            State::Ready => Controls::ReadyCheck,
            State::MapPick => {
                let mut maps: Vec<String> = Vec::new();
                let mut i: usize = 0;
                while i < self.maps.len()
                    invariant
                        i <= self.maps@.len(),
                        names_view(maps@) == names_view(self.maps@).take(i as int),
                    decreases self.maps@.len() - i,
                {
                    let ghost before = names_view(maps@);
                    maps.push(copy_string(&self.maps[i]));
                    proof {
                        let all = names_view(self.maps@);
                        assert(names_view(maps@) =~= before.push(all[i as int]));
                    }
                    i += 1;
                }
                assert(names_view(self.maps@).take(i as int) =~= names_view(self.maps@));
                Controls::MapMenu(maps)
            },
            State::DraftTypePick => Controls::DraftTypes,
            State::CaptainPick => Controls::Captain,
            State::Draft => Controls::PlayerMenu(self.get_remaining_users()),
            State::SidePick => Controls::Sides,
        }
    }

    /// Applies one interaction of `user` to the setup in flight. Each kind of
    /// interaction belongs to one phase and is refused in the others.
    pub fn handle_interaction(&mut self, user: u64, interaction: Interaction) -> (r: Result<
        Progress,
        ValidationError,
    >)
        requires
            old(self).wf(),
        ensures
            final(self).wf(),
            match interaction@ {
                InteractionView::Ready(action) => match r {
                    Ok(progress) => ready_refusal(old(self)@, user) is None && final(self)@
                        == after_answer(old(self)@, user, action) && progress == moved(
                        State::Ready,
                        final(self)@.state,
                    ),
                    Err(e) => ready_refusal(old(self)@, user) == Some(e) && final(self)@ == old(
                        self)@,
                },
                InteractionView::Vote(maps) => match r {
                    Ok(progress) => vote_refusal(old(self)@, user, maps) is None && final(self)@
                        == after_vote(old(self)@, user, maps) && (progress is VotesComplete
                        || progress is Waiting) && (progress is VotesComplete <==> all_voted(
                        final(self)@.draft.map_votes,
                        final(self)@.user_queue,
                    )),
                    Err(e) => vote_refusal(old(self)@, user, maps) == Some(e) && final(self)@
                        == old(self)@,
                },
                InteractionView::DraftType(choice) => match r {
                    Ok(Progress::Advanced(state)) => draft_type_refusal(old(self)@, user, choice)
                        is None && choice == DraftType::Manual && state == State::CaptainPick
                        && final(self)@ == (DataView { state: State::CaptainPick, ..old(self)@ }),
                    Ok(Progress::QueryStats(query)) => draft_type_refusal(old(self)@, user, choice)
                        is None && choice == DraftType::Auto && query@ == comma_list(
                        queue_identities(old(self)@),
                    ) && final(self)@ == old(self)@,
                    Ok(_) => false,
                    Err(e) => draft_type_refusal(old(self)@, user, choice) == Some(e) && final(
                        self)@ == old(self)@,
                },
                InteractionView::Captain => match r {
                    Ok(progress) => captain_pick_refusal(old(self)@, user) is None && final(self)@
                        == after_captain_pick(old(self)@, user) && progress == moved(
                        State::CaptainPick,
                        final(self)@.state,
                    ),
                    Err(e) => captain_pick_refusal(old(self)@, user) == Some(e) && final(self)@
                        == old(self)@,
                },
                InteractionView::Pick(picked) => match r {
                    Ok(progress) => pick_refusal(old(self)@, user, picked) is None && final(self)@
                        == after_pick(old(self)@, picked) && progress == moved(
                        State::Draft,
                        final(self)@.state,
                    ),
                    Err(e) => pick_refusal(old(self)@, user, picked) == Some(e) && final(self)@
                        == old(self)@,
                },
                InteractionView::Side(side) => match r {
                    Ok(progress) => sidepick_refusal(old(self)@, user) is None && final(self)@
                        == after_sidepick(old(self)@, side) && progress is Launch,
                    Err(e) => sidepick_refusal(old(self)@, user) == Some(e) && final(self)@ == old(
                        self)@,
                },
            },
    {
        match interaction {
            Interaction::Ready(action) => {
                let complete = self.handle_ready(user, action)?;
                Ok(
                    if complete {
                        Progress::Advanced(State::MapPick)
                    } else {
                        Progress::Waiting
                    },
                )
            },
            Interaction::Vote(maps) => {
                let complete = self.handle_map_pick(user, maps)?;
                Ok(
                    if complete {
                        Progress::VotesComplete
                    } else {
                        Progress::Waiting
                    },
                )
            },
            Interaction::DraftType(choice) => {
                match self.handle_draft_type(user, choice)? {
                    DraftTypeAction::AwaitCaptains => Ok(Progress::Advanced(State::CaptainPick)),
                    DraftTypeAction::QueryStats(query) => Ok(Progress::QueryStats(query)),
                }
            },
            Interaction::Captain => {
                let state = self.handle_captain_pick(user)?;
                Ok(
                    if state == State::CaptainPick {
                        Progress::Waiting
                    } else {
                        Progress::Advanced(state)
                    },
                )
            },
            Interaction::Pick(picked) => {
                let state = self.handle_draft(user, picked)?;
                Ok(
                    if state == State::Draft {
                        Progress::Waiting
                    } else {
                        Progress::Advanced(state)
                    },
                )
            },
            Interaction::Side(side) => {
                self.handle_sidepick(user, side)?;
                Ok(Progress::Launch)
            },
        }
    }
}

} // verus!

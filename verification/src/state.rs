use vstd::prelude::*;

verus! {

/// The phase of the match setup. `Queue` is both the initial phase and the one
/// every finished or cancelled setup returns to.
#[derive(Clone, Copy, Debug, PartialEq, Eq, Structural)]
pub enum State {
    Queue,
    MapPick,
    CaptainPick,
    DraftTypePick,
    Draft,
    SidePick,
    Ready,
}

/// The closed set of commands the chat layer resolves a message to.
#[derive(Clone, Copy, Debug, PartialEq, Eq, Structural)]
pub enum Command {
    JOIN,
    LEAVE,
    QUEUE,
    START,
    STEAMID,
    STATS,
    TEAMNAME,
    MAPS,
    ADDMAP,
    CANCEL,
    REMOVEMAP,
    KICK,
    CAPTAIN,
    AUTODRAFT,
    MANUALDRAFT,
    PICK,
    READY,
    UNREADY,
    CT,
    T,
    READYLIST,
    RECOVERQUEUE,
    CLEAR,
    HELP,
    UNKNOWN,
}

impl State {
    /// Whether a setup is in flight, that is, the phase is not `Queue`.
    pub fn in_setup(&self) -> (b: bool)
        ensures
            b == (*self != State::Queue),
    {
        match self {
            State::Queue => false,
            _ => true,
        }
    }
}

} // verus!

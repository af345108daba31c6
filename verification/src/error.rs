use vstd::prelude::*;

verus! {

/// A rejected action. The state is as it was before the action.
#[derive(Clone, Copy, Debug, PartialEq, Eq, Structural)]
pub enum ValidationError {
    /// The action does not belong to the current phase.
    WrongPhase,
    /// The player is not in the queue.
    NotQueued,
    /// The player is in the queue already.
    AlreadyQueued,
    /// The queue holds as many players as it can.
    QueueFull,
    /// The player has no game identity registered.
    MissingIdentity,
    /// The setup cannot start before the queue is full.
    QueueNotFull,
    /// A setup is in flight already.
    AlreadyStarted,
    /// The player is a captain already.
    AlreadyCaptain,
    /// It is the other captain's turn.
    WrongTurn,
    /// The player picked is not in the queue.
    PickNotQueued,
    /// The player picked is on a team already.
    AlreadyPicked,
    /// Only captain B picks the starting side.
    NotCaptainB,
    /// A map vote without a map.
    EmptySelection,
    /// The statistics service is not configured.
    Unavailable,
}

/// A map vote in which nobody named a map.
#[derive(Clone, Copy, Debug, PartialEq, Eq, Structural)]
pub struct NoVotes;

/// Why a map vote gave no map.
#[derive(Clone, Copy, Debug, PartialEq, Eq, Structural)]
pub enum MapVoteError {
    /// No map vote is going on.
    WrongPhase,
    /// Nobody named a map. The setup is given up.
    NoVotes,
}

/// Why the automatic draft assigned nobody.
#[derive(Clone, Copy, Debug, PartialEq, Eq, Structural)]
pub enum AutoDraftError {
    /// The action itself was rejected.
    Rejected(ValidationError),
    /// The ranking is empty.
    NoStats,
    /// The ranking holds a single player.
    InsufficientStats,
    /// The ranking names an identity that no queued player has, or names a
    /// player twice.
    UnknownPlayer,
}

/// Why a side table or the map pool stays as it is.
#[derive(Clone, Copy, Debug, PartialEq, Eq, Structural)]
pub enum RegistryError {
    /// The text has not the shape of a game identity.
    InvalidSteamId,
    /// The team name is longer than the limit.
    TeamNameTooLong,
    /// The map pool holds as many maps as it can.
    PoolFull,
    /// The map is in the pool already.
    AlreadyPresent,
    /// The map is not in the pool.
    NotPresent,
}

/// Why no match was launched.
#[derive(Clone, Copy, Debug, PartialEq, Eq, Structural)]
pub enum LaunchError {
    /// The setup has not reached the point of launch.
    NotReady,
    /// A drafted player has no usable game identity.
    MissingIdentity(u64),
    /// The provisioning service answered with this status.
    ProviderRejected(u16),
}

} // verus!

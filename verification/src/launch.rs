use vstd::prelude::*;
use vstd::string::StringExecFns;
use std::collections::HashMap;
use crate::data::{after_clear, texts_view, Data, DataView, Side};
use crate::error::LaunchError;
use crate::state::State;
use crate::steam::{convertible, steam64, steam_id_to_64};
use crate::tables::lookup;
use crate::text::{copy_string, decimal_string, decimal_text, push_signed_decimal, signed_decimal_text};

verus! {

/// How long players have to connect, in seconds.
pub const CONNECT_TIME: i32 = 600;

/// The countdown before the match begins, in seconds.
pub const MATCH_BEGIN_COUNTDOWN: i32 = 20;

/// A team as the provisioning service names it.
#[derive(Clone, Debug, PartialEq, Eq)]
pub struct MatchTeam {
    pub name: String,
}

/// The settings of a match.
#[derive(Clone, Debug, PartialEq, Eq)]
pub struct MatchSettings {
    pub map: String,
    pub password: String,
    pub connect_time: i32,
    pub match_begin_countdown: i32,
}

/// Where the provisioning service reports the end of the match.
#[derive(Clone, Debug, PartialEq, Eq)]
pub struct MatchWebhooks {
    pub match_end_url: String,
    pub authorization_header: String,
}

/// One player of a match: the 64-bit identity in decimal, and the slot.
#[derive(Clone, Debug, PartialEq, Eq)]
pub struct Player {
    pub steam_id_64: String,
    pub team: String,
}

/// The request that launches a match.
#[derive(Clone, Debug, PartialEq, Eq)]
pub struct StartMatch {
    pub team1: MatchTeam,
    pub team2: MatchTeam,
    pub players: Vec<Player>,
    pub settings: MatchSettings,
    pub webhooks: MatchWebhooks,
}

/// What the provisioning service tells of a game server.
#[derive(Clone, Debug, PartialEq, Eq)]
pub struct ServerInfoResponse {
    pub game: Option<String>,
    pub id: String,
    pub ip: String,
    pub ports: Ports,
    pub location: Option<String>,
    pub custom_domain: Option<String>,
}

/// The ports of a game server.
#[derive(Clone, Debug, PartialEq, Eq)]
pub struct Ports {
    pub game: i64,
    pub gotv: i64,
}

/// One of the two slots of the provisioning service. The team in `Team1`
/// starts as counter-terrorists.
#[derive(Clone, Copy, Debug, PartialEq, Eq, Structural)]
pub enum Team {
    Team1,
    Team2,
}

/// Where to connect: host and port, for players and for spectators.
#[derive(Clone, Debug, PartialEq, Eq)]
pub struct ConnectionInfo {
    pub game_url: String,
    pub gotv_url: String,
}

/// A member to move into a voice channel.
#[derive(Clone, Copy, Debug, PartialEq, Eq, Structural)]
pub struct VoiceMove {
    pub user: u64,
    pub channel: u64,
}

/// A player of a match as the contracts see it.
pub struct PlayerView {
    pub steam_id_64: Seq<char>,
    pub team: Seq<char>,
}

/// A request as the contracts see it.
#[verifier::ext_equal]
pub struct StartMatchView {
    pub team1: Seq<char>,
    pub team2: Seq<char>,
    pub players: Seq<PlayerView>,
    pub map: Seq<char>,
    pub password: Seq<char>,
    pub connect_time: i32,
    pub match_begin_countdown: i32,
    pub match_end_url: Seq<char>,
    pub authorization_header: Seq<char>,
}

impl View for Player {
    type V = PlayerView;

    open spec fn view(&self) -> PlayerView {
        PlayerView { steam_id_64: self.steam_id_64@, team: self.team@ }
    }
}

/// The views of a list of players.
pub open spec fn players_view(v: Seq<Player>) -> Seq<PlayerView> {
    v.map_values(|p: Player| p@)
}

impl View for StartMatch {
    type V = StartMatchView;

    open spec fn view(&self) -> StartMatchView {
        StartMatchView {
            team1: self.team1.name@,
            team2: self.team2.name@,
            players: players_view(self.players@),
            map: self.settings.map@,
            password: self.settings.password@,
            connect_time: self.settings.connect_time,
            match_begin_countdown: self.settings.match_begin_countdown,
            match_end_url: self.webhooks.match_end_url@,
            authorization_header: self.webhooks.authorization_header@,
        }
    }
}

/// The name of a slot.
pub open spec fn team_tag(team: Team) -> Seq<char> {
    match team {
        Team::Team1 => "team1"@,
        Team::Team2 => "team2"@,
    }
}

impl Team {
    /// The name of the slot: `team1` or `team2`.
    pub fn to_string(&self) -> (s: String)
        ensures
            s@ == team_tag(*self),
    {
        match self {
            Team::Team1 => String::from_str("team1"),
            Team::Team2 => String::from_str("team2"),
        }
    }
}

/// The slot of team A: the first where team B starts as terrorists.
pub open spec fn slot_of_team_a(side: Side) -> Team {
    match side {
        Side::T => Team::Team1,
        Side::Ct => Team::Team2,
    }
}

/// The slot of team B: the first where team B starts as counter-terrorists.
pub open spec fn slot_of_team_b(side: Side) -> Team {
    match side {
        Side::Ct => Team::Team1,
        Side::T => Team::Team2,
    }
}

/// Whether `player` has a game identity with a 64-bit form.
pub open spec fn resolved(cache: Map<u64, Seq<char>>, player: u64) -> bool {
    cache.contains_key(player) && convertible(cache[player])
}

/// Every one of `members` has a game identity with a 64-bit form.
pub open spec fn all_resolved(cache: Map<u64, Seq<char>>, members: Seq<u64>) -> bool {
    forall|i: int| 0 <= i < members.len() ==> resolved(cache, #[trigger] members[i])
}

/// `player` is the first of `members` without a usable game identity.
pub open spec fn first_unresolved(cache: Map<u64, Seq<char>>, members: Seq<u64>, player: u64) -> bool {
    exists|k: int|
        0 <= k < members.len() && #[trigger] members[k] == player && !resolved(cache, player)
            && all_resolved(cache, members.take(k))
}

/// The entry of one player in a request.
pub open spec fn player_entry(cache: Map<u64, Seq<char>>, player: u64, team: Team) -> PlayerView {
    PlayerView { steam_id_64: decimal_text(steam64(cache[player])), team: team_tag(team) }
}

/// The entries of a team's members, in the team's order.
pub open spec fn team_entries(cache: Map<u64, Seq<char>>, members: Seq<u64>, team: Team) -> Seq<
    PlayerView,
> {
    Seq::new(members.len(), |i: int| player_entry(cache, members[i], team))
}

/// The name of a captain's team: the one registered for the captain, or
/// `Team` and the captain's display name.
pub open spec fn team_name(names: Map<u64, Seq<char>>, captain: u64, display: Seq<char>) -> Seq<
    char,
> {
    if names.contains_key(captain) {
        names[captain]
    } else {
        "Team "@ + display
    }
}

/// The text of an optional string, empty where there is none.
pub open spec fn text_or_empty(s: Option<String>) -> Seq<char> {
    match s {
        Some(t) => t@,
        None => Seq::empty(),
    }
}

/// The credential sent along for the end-of-match report: `TOKEN` and the
/// token of the statistics service, or nothing where none is configured.
pub open spec fn webhook_authorization(v: DataView) -> Seq<char> {
    match v.config.scrimbot_api_config {
        Some(api) => match api.scrimbot_api_token {
            Some(token) => "TOKEN "@ + token@,
            None => Seq::empty(),
        },
        None => Seq::empty(),
    }
}

/// The setup has come to the point of launch: the side is picked.
pub open spec fn launch_ready(v: DataView) -> bool {
    v.state == State::SidePick && v.draft.team_b_start_side is Some
}

/// The request for the draft in `v`, with the captains' display names.
pub open spec fn launch_request(v: DataView, display_a: Seq<char>, display_b: Seq<char>) -> StartMatchView {
    let side = v.draft.team_b_start_side->0;
    let name_a = team_name(v.team_names, v.draft.captain_a->0, display_a);
    let name_b = team_name(v.team_names, v.draft.captain_b->0, display_b);
    StartMatchView {
        team1: if side == Side::T {
            name_a
        } else {
            name_b
        },
        team2: if side == Side::T {
            name_b
        } else {
            name_a
        },
        players: team_entries(v.steam_id_cache, v.draft.team_a, slot_of_team_a(side))
            + team_entries(v.steam_id_cache, v.draft.team_b, slot_of_team_b(side)),
        map: v.draft.selected_map,
        password: Seq::empty(),
        connect_time: CONNECT_TIME,
        match_begin_countdown: MATCH_BEGIN_COUNTDOWN,
        match_end_url: text_or_empty(v.config.dathost.match_end_url),
        authorization_header: webhook_authorization(v),
    }
}

/// A status of the provisioning service that reports success.
pub open spec fn is_success(status: u16) -> bool {
    200 <= status < 300
}

/// The members to move, team A first: each team into its channel, where
/// one is configured.
pub open spec fn voice_plan(v: DataView) -> Seq<VoiceMove> {
    (match v.config.discord.team_a_channel_id {
        Some(channel) => Seq::new(
            v.draft.team_a.len(),
            |i: int| VoiceMove { user: v.draft.team_a[i], channel },
        ),
        None => Seq::empty(),
    }) + (match v.config.discord.team_b_channel_id {
        Some(channel) => Seq::new(
            v.draft.team_b.len(),
            |i: int| VoiceMove { user: v.draft.team_b[i], channel },
        ),
        None => Seq::empty(),
    })
}

/// The entries of `members`, or the first member without a usable game
/// identity.
fn team_players(cache: &HashMap<u64, String>, members: &Vec<u64>, team: Team) -> (r: Result<
    Vec<Player>,
    u64,
>)
    ensures
        match r {
            Ok(players) => all_resolved(texts_view(cache@), members@) && players_view(players@)
                == team_entries(texts_view(cache@), members@, team),
            Err(player) => first_unresolved(texts_view(cache@), members@, player),
        },
{
    let mut players: Vec<Player> = Vec::new();
    let mut i: usize = 0;
    while i < members.len()
        invariant
            i <= members@.len(),
            all_resolved(texts_view(cache@), members@.take(i as int)),
            players@.len() == i,
            forall|j: int|
                0 <= j < i ==> (#[trigger] players@[j])@ == player_entry(
                    texts_view(cache@),
                    members@[j],
                    team,
                ),
        decreases members@.len() - i,
    {
        let member = members[i];
        let id = match lookup(cache, member) {
            Some(text) => steam_id_to_64(text),
            None => None,
        };
        match id {
            Some(id) => {
                players.push(Player { steam_id_64: decimal_string(id), team: team.to_string() });
            },
            None => {
                return Err(member);
            },
        }
        i += 1;
    }
    proof {
        assert(members@.take(i as int) =~= members@);
    }
    Ok(players)
}

/// The name of `captain`'s team.
fn team_name_of(names: &HashMap<u64, String>, captain: u64, display: &str) -> (name: String)
    ensures
        name@ == team_name(texts_view(names@), captain, display@),
{
    match lookup(names, captain) {
        Some(name) => copy_string(name),
        None => String::from_str("Team ").concat(display),
    }
}

/// A copy of an optional string, empty where there is none.
fn copy_or_empty(s: &Option<String>) -> (r: String)
    ensures
        r@ == text_or_empty(*s),
{
    match s {
        Some(t) => copy_string(t),
        None => String::new(),
    }
}

impl Data {
    /// Ends the setup after a launch: nobody queued, nobody ready, no join
    /// messages, no draft, phase `Queue`.
    fn reset_after_launch(&mut self)
        requires
            old(self).wf(),
        ensures
            final(self).wf(),
            final(self)@ == after_clear(old(self)@),
    {
        self.clear_queue();
        self.reset_draft();
    }

    fn webhook_authorization(&self) -> (header: String)
        ensures
            header@ == webhook_authorization(self@),
    {
        match &self.config.scrimbot_api_config {
            Some(api) => match &api.scrimbot_api_token {
                Some(token) => String::from_str("TOKEN ").concat(token.as_str()),
                None => String::new(),
            },
            None => String::new(),
        }
    }

    /// Builds the request that launches the match, from the finished draft and
    /// the captains' display names. Where a drafted player has no usable game
    /// identity the launch has failed, and the state is reset as after any
    /// launch.
    pub fn start_server(&mut self, captain_a_name: &str, captain_b_name: &str) -> (r: Result<
        StartMatch,
        LaunchError,
    >)
        requires
            old(self).wf(),
        ensures
            final(self).wf(),
            match r {
                Ok(request) => {
                    &&& launch_ready(old(self)@)
                    &&& all_resolved(old(self)@.steam_id_cache, old(self)@.draft.team_a)
                    &&& all_resolved(old(self)@.steam_id_cache, old(self)@.draft.team_b)
                    &&& request@ == launch_request(old(self)@, captain_a_name@, captain_b_name@)
                    &&& final(self)@ == old(self)@
                },
                Err(LaunchError::NotReady) => !launch_ready(old(self)@) && final(self)@ == old(
                    self,
                )@,
                Err(LaunchError::MissingIdentity(player)) => {
                    &&& launch_ready(old(self)@)
                    &&& first_unresolved(
                        old(self)@.steam_id_cache,
                        old(self)@.draft.team_a + old(self)@.draft.team_b,
                        player,
                    )
                    &&& final(self)@ == after_clear(old(self)@)
                },
                Err(LaunchError::ProviderRejected(_)) => false,
            },
    {
        if self.state != State::SidePick {
            return Err(LaunchError::NotReady);
        }
        let side = match self.draft.team_b_start_side {
            Some(side) => side,
            None => {
                return Err(LaunchError::NotReady);
            },
        };
        let (slot_a, slot_b) = match side {
            Side::T => (Team::Team1, Team::Team2),
            Side::Ct => (Team::Team2, Team::Team1),
        };
        let ghost cache = self@.steam_id_cache;
        let ghost team_a = self@.draft.team_a;
        let ghost team_b = self@.draft.team_b;
        let mut players = match team_players(&self.steam_id_cache, &self.draft.team_a, slot_a) {
            Ok(players) => players,
            Err(player) => {
                proof {
                    let k = choose|k: int|
                        0 <= k < team_a.len() && #[trigger] team_a[k] == player && !resolved(
                            cache,
                            player,
                        ) && all_resolved(cache, team_a.take(k));
                    assert((team_a + team_b)[k] == player);
                    assert((team_a + team_b).take(k) =~= team_a.take(k));
                }
                self.reset_after_launch();
                return Err(LaunchError::MissingIdentity(player));
            },
        };
        let mut players_b = match team_players(&self.steam_id_cache, &self.draft.team_b, slot_b) {
            Ok(players) => players,
            Err(player) => {
                proof {
                    let k = choose|k: int|
                        0 <= k < team_b.len() && #[trigger] team_b[k] == player && !resolved(
                            cache,
                            player,
                        ) && all_resolved(cache, team_b.take(k));
                    let n = team_a.len() as int;
                    assert((team_a + team_b)[n + k] == player);
                    assert forall|j: int| 0 <= j < n + k implies resolved(
                        cache,
                        #[trigger] (team_a + team_b).take(n + k)[j],
                    ) by {
                        if j >= n {
                            assert((team_a + team_b).take(n + k)[j] == team_b.take(k)[j - n]);
                        }
                    }
                }
                self.reset_after_launch();
                return Err(LaunchError::MissingIdentity(player));
            },
        };
        players.append(&mut players_b);
        let captain_a = match self.draft.captain_a {
            Some(captain) => captain,
            None => 0,
        };
        let captain_b = match self.draft.captain_b {
            Some(captain) => captain,
            None => 0,
        };
        let name_a = team_name_of(&self.team_names, captain_a, captain_a_name);
        let name_b = team_name_of(&self.team_names, captain_b, captain_b_name);
        let (team1, team2) = match side {
            Side::T => (name_a, name_b),
            Side::Ct => (name_b, name_a),
        };
        Ok(
            StartMatch {
                team1: MatchTeam { name: team1 },
                team2: MatchTeam { name: team2 },
                players,
                settings: MatchSettings {
                    map: copy_string(&self.draft.selected_map),
                    password: String::new(),
                    connect_time: CONNECT_TIME,
                    match_begin_countdown: MATCH_BEGIN_COUNTDOWN,
                },
                webhooks: MatchWebhooks {
                    match_end_url: copy_or_empty(&self.config.dathost.match_end_url),
                    authorization_header: self.webhook_authorization(),
                },
            },
        )
    }

    /// The members to move into voice channels once the match is launched.
    pub fn voice_moves(&self) -> (moves: Vec<VoiceMove>)
        ensures
            moves@ == voice_plan(self@),
    {
        let mut moves: Vec<VoiceMove> = Vec::new();
        if let Some(channel) = self.config.discord.team_a_channel_id {
            let mut i: usize = 0;
            while i < self.draft.team_a.len()
                invariant
                    i <= self.draft.team_a@.len(),
                    moves@.len() == i,
                    forall|j: int|
                        0 <= j < i ==> moves@[j] == (VoiceMove {
                            user: self.draft.team_a@[j],
                            channel,
                        }),
                decreases self.draft.team_a@.len() - i,
            {
                moves.push(VoiceMove { user: self.draft.team_a[i], channel });
                i += 1;
            }
        }
        let ghost first = moves@;
        proof {
            let plan_a: Seq<VoiceMove> = match self@.config.discord.team_a_channel_id {
                Some(channel) => Seq::new(
                    self@.draft.team_a.len(),
                    |i: int| VoiceMove { user: self@.draft.team_a[i], channel },
                ),
                None => Seq::empty(),
            };
            assert(first =~= plan_a);
        }
        if let Some(channel) = self.config.discord.team_b_channel_id {
            let mut i: usize = 0;
            while i < self.draft.team_b.len()
                invariant
                    i <= self.draft.team_b@.len(),
                    moves@.len() == first.len() + i,
                    forall|j: int| 0 <= j < first.len() ==> moves@[j] == first[j],
                    forall|j: int|
                        0 <= j < i ==> moves@[first.len() + j] == (VoiceMove {
                            user: self.draft.team_b@[j],
                            channel,
                        }),
                decreases self.draft.team_b@.len() - i,
            {
                moves.push(VoiceMove { user: self.draft.team_b[i], channel });
                i += 1;
            }
        }
        moves
    }

    /// Folds the provisioning service's answer into the state. Whatever the
    /// answer, the setup is over: queue, ready check and draft are cleared and
    /// the phase is `Queue`. On success the result holds the members to move
    /// into voice channels.
    pub fn finish_launch(&mut self, status: u16) -> (r: Result<Vec<VoiceMove>, LaunchError>)
        requires
            old(self).wf(),
        ensures
            final(self).wf(),
            match r {
                Ok(moves) => {
                    &&& launch_ready(old(self)@)
                    &&& is_success(status)
                    &&& moves@ == voice_plan(old(self)@)
                    &&& final(self)@ == after_clear(old(self)@)
                },
                Err(LaunchError::NotReady) => !launch_ready(old(self)@) && final(self)@ == old(
                    self,
                )@,
                Err(LaunchError::ProviderRejected(s)) => {
                    &&& launch_ready(old(self)@)
                    &&& !is_success(status)
                    &&& s == status
                    &&& final(self)@ == after_clear(old(self)@)
                },
                Err(LaunchError::MissingIdentity(_)) => false,
            },
    {
        if self.state != State::SidePick || self.draft.team_b_start_side.is_none() {
            return Err(LaunchError::NotReady);
        }
        let moves = self.voice_moves();
        self.reset_after_launch();
        if 200 <= status && status < 300 {
            Ok(moves)
        } else {
            Err(LaunchError::ProviderRejected(status))
        }
    }
}

/// The host of a game server: its own domain where it has one, else its
/// address.
pub open spec fn host_of(custom_domain: Option<String>, ip: String) -> Seq<char> {
    match custom_domain {
        Some(domain) => domain@,
        None => ip@,
    }
}

/// Host and port, joined by a colon.
pub open spec fn endpoint(host: Seq<char>, port: i64) -> Seq<char> {
    host + seq![':'] + signed_decimal_text(port as int)
}

fn endpoint_of(host: &String, port: i64) -> (s: String)
    ensures
        s@ == endpoint(host@, port),
{
    let mut s = copy_string(host);
    proof {
        reveal_strlit(":");
    }
    s.append(":");
    push_signed_decimal(&mut s, port);
    s
}

/// Where to connect to a launched server.
pub fn connection_info(server: &ServerInfoResponse) -> (info: ConnectionInfo)
    ensures
        info.game_url@ == endpoint(host_of(server.custom_domain, server.ip), server.ports.game),
        info.gotv_url@ == endpoint(host_of(server.custom_domain, server.ip), server.ports.gotv),
{
    let host = match &server.custom_domain {
        Some(domain) => copy_string(domain),
        None => copy_string(&server.ip),
    };
    ConnectionInfo {
        game_url: endpoint_of(&host, server.ports.game),
        gotv_url: endpoint_of(&host, server.ports.gotv),
    }
}

} // verus!

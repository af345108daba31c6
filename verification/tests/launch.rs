use scrimbot::config::{Config, DathostConfig, DiscordConfig, ScrimbotApiConfig};
use scrimbot::data::{Data, Side};
use scrimbot::draft::DraftType;
use scrimbot::error::LaunchError;
use scrimbot::launch::{
    connection_info, MatchSettings, MatchTeam, MatchWebhooks, Player, Ports, ServerInfoResponse,
    StartMatch, Team, VoiceMove,
};
use scrimbot::setup::ReadyAction;
use scrimbot::state::State;

fn launch_config(channels: bool, api: bool) -> Config {
    Config {
        dathost: DathostConfig {
            username: "host".to_string(),
            password: "secret".to_string(),
            match_end_url: if api { Some("https://example.org/end".to_string()) } else { None },
            server_id: "abc".to_string(),
        },
        discord: DiscordConfig {
            token: "token".to_string(),
            admin_role_id: 1,
            team_a_channel_id: if channels { Some(100) } else { None },
            team_b_channel_id: if channels { Some(200) } else { None },
            emote_ct_id: None,
            emote_t_id: None,
            emote_ct_name: None,
            emote_t_name: None,
            assign_role_id: None,
        },
        post_setup_msg: None,
        autoclear_hour: None,
        scrimbot_api_config: if api {
            Some(ScrimbotApiConfig {
                scrimbot_api_url: Some("http://stats".to_string()),
                scrimbot_api_user: None,
                scrimbot_api_password: None,
                scrimbot_api_token: Some("abc".to_string()),
            })
        } else {
            None
        },
    }
}

fn drafted(config: Config, side: Option<Side>) -> Data {
    let mut data = Data::new(config);
    for user in 1..=10 {
        assert!(data.steam_id(user, format!("STEAM_0:1:{}", user)).is_ok());
        assert!(data.join(user, Some("gl")).is_ok());
    }
    assert_eq!(data.start(1), Ok(()));
    for user in 1..=10 {
        assert!(data.handle_ready(user, ReadyAction::Ready).is_ok());
    }
    assert!(data.handle_map_pick(1, vec!["de_nuke".to_string()]).is_ok());
    assert_eq!(data.conclude_map_vote(), Ok("de_nuke".to_string()));
    assert!(data.handle_draft_type(1, DraftType::Manual).is_ok());
    assert!(data.handle_captain_pick(1).is_ok());
    assert!(data.handle_captain_pick(2).is_ok());
    let picks = [(1u64, 3u64), (2, 4), (1, 5), (2, 6), (1, 7), (2, 8), (1, 9), (2, 10)];
    for (captain, player) in picks {
        assert!(data.handle_draft(captain, player).is_ok());
    }
    if let Some(side) = side {
        assert_eq!(data.handle_sidepick(2, side), Ok(()));
    }
    data
}

fn entry(user: u64, team: &str) -> Player {
    Player { steam_id_64: (76561197960265728u64 + 2 * user + 1).to_string(), team: team.to_string() }
}

#[test]
fn team_names_the_slots() {
    assert_eq!(Team::Team1.to_string(), "team1");
    assert_eq!(Team::Team2.to_string(), "team2");
}

#[test]
fn request_for_team_b_on_ct() {
    let mut data = drafted(launch_config(false, false), Some(Side::Ct));
    let request = data.start_server("Alice", "Bob").unwrap();
    assert_eq!(
        request,
        StartMatch {
            team1: MatchTeam { name: "Team Bob".to_string() },
            team2: MatchTeam { name: "Team Alice".to_string() },
            players: vec![
                entry(1, "team2"),
                entry(3, "team2"),
                entry(5, "team2"),
                entry(7, "team2"),
                entry(9, "team2"),
                entry(2, "team1"),
                entry(4, "team1"),
                entry(6, "team1"),
                entry(8, "team1"),
                entry(10, "team1"),
            ],
            settings: MatchSettings {
                map: "de_nuke".to_string(),
                password: "".to_string(),
                connect_time: 600,
                match_begin_countdown: 20,
            },
            webhooks: MatchWebhooks {
                match_end_url: "".to_string(),
                authorization_header: "".to_string(),
            },
        }
    );
    assert_eq!(request.players[0].steam_id_64, "76561197960265731");
    assert_eq!(data.state(), State::SidePick);
    assert_eq!(data.user_queue().len(), 10);
}

#[test]
fn request_for_team_b_on_t() {
    let mut data = drafted(launch_config(false, true), Some(Side::T));
    assert!(data.teamname(1, "Eagles".to_string()).is_ok());
    let request = data.start_server("Alice", "Bob").unwrap();
    assert_eq!(request.team1, MatchTeam { name: "Eagles".to_string() });
    assert_eq!(request.team2, MatchTeam { name: "Team Bob".to_string() });
    assert_eq!(request.players[0], entry(1, "team1"));
    assert_eq!(request.players[4], entry(9, "team1"));
    assert_eq!(request.players[5], entry(2, "team2"));
    assert_eq!(request.players[9], entry(10, "team2"));
    assert_eq!(request.players.len(), 10);
    assert_eq!(
        request.webhooks,
        MatchWebhooks {
            match_end_url: "https://example.org/end".to_string(),
            authorization_header: "TOKEN abc".to_string(),
        }
    );
}

#[test]
fn request_needs_the_side() {
    let mut data = drafted(launch_config(false, false), None);
    assert_eq!(data.start_server("Alice", "Bob"), Err(LaunchError::NotReady));
    assert_eq!(data.finish_launch(200), Err(LaunchError::NotReady));
    assert_eq!(data.state(), State::SidePick);
    assert_eq!(data.user_queue().len(), 10);
    let mut fresh = Data::new(launch_config(false, false));
    assert_eq!(fresh.start_server("Alice", "Bob"), Err(LaunchError::NotReady));
    assert_eq!(fresh.finish_launch(200), Err(LaunchError::NotReady));
}

#[test]
fn request_fails_on_an_identity_that_does_not_fit() {
    let mut data = drafted(launch_config(false, false), Some(Side::Ct));
    assert!(data.steam_id(4, "STEAM_0:1:99999999999999999999".to_string()).is_ok());
    assert!(data.steam_id(8, "STEAM_0:1:99999999999999999999".to_string()).is_ok());
    assert_eq!(data.start_server("Alice", "Bob"), Err(LaunchError::MissingIdentity(4)));
    assert_eq!(data.state(), State::Queue);
    assert!(data.user_queue().is_empty());
    assert!(data.ready_queue().is_empty());
    assert_eq!(data.draft().captain_a(), None);
}

#[test]
fn successful_launch_clears_everything() {
    let mut data = drafted(launch_config(true, false), Some(Side::Ct));
    assert!(data.start_server("Alice", "Bob").is_ok());
    let moves = data.finish_launch(201).unwrap();
    assert_eq!(moves.len(), 10);
    assert_eq!(moves[0], VoiceMove { user: 1, channel: 100 });
    assert_eq!(moves[4], VoiceMove { user: 9, channel: 100 });
    assert_eq!(moves[5], VoiceMove { user: 2, channel: 200 });
    assert_eq!(moves[9], VoiceMove { user: 10, channel: 200 });
    assert_eq!(data.state(), State::Queue);
    assert!(data.user_queue().is_empty());
    assert!(data.ready_queue().is_empty());
    assert_eq!(data.queue_message_of(1), None);
    assert_eq!(data.draft().captain_a(), None);
    assert!(data.draft().team_a().is_empty());
    assert!(data.draft().team_b().is_empty());
    assert_eq!(data.draft().selected_map(), "");
    assert_eq!(data.join(1, None), Ok(1));
}

#[test]
fn failed_launch_clears_everything_and_reports() {
    for status in [199u16, 300, 404, 500] {
        let mut data = drafted(launch_config(true, false), Some(Side::T));
        assert!(data.start_server("Alice", "Bob").is_ok());
        assert_eq!(data.finish_launch(status), Err(LaunchError::ProviderRejected(status)));
        assert_eq!(data.state(), State::Queue);
        assert!(data.user_queue().is_empty());
        assert!(data.ready_queue().is_empty());
        assert_eq!(data.draft().captain_b(), None);
        assert_eq!(data.finish_launch(status), Err(LaunchError::NotReady));
    }
}

#[test]
fn voice_moves_follow_the_configured_channels() {
    let data = drafted(launch_config(false, false), Some(Side::T));
    assert!(data.voice_moves().is_empty());
    let mut config = launch_config(true, false);
    config.discord.team_a_channel_id = None;
    let data = drafted(config, Some(Side::T));
    assert_eq!(
        data.voice_moves(),
        vec![
            VoiceMove { user: 2, channel: 200 },
            VoiceMove { user: 4, channel: 200 },
            VoiceMove { user: 6, channel: 200 },
            VoiceMove { user: 8, channel: 200 },
            VoiceMove { user: 10, channel: 200 },
        ]
    );
}

#[test]
fn connection_prefers_the_custom_domain() {
    let mut server = ServerInfoResponse {
        game: Some("cs2".to_string()),
        id: "abc".to_string(),
        ip: "10.1.2.3".to_string(),
        ports: Ports { game: 27015, gotv: 27020 },
        location: None,
        custom_domain: None,
    };
    let info = connection_info(&server);
    assert_eq!(info.game_url, "10.1.2.3:27015");
    assert_eq!(info.gotv_url, "10.1.2.3:27020");
    server.custom_domain = Some("play.example.org".to_string());
    server.ports = Ports { game: 0, gotv: -7 };
    let info = connection_info(&server);
    assert_eq!(info.game_url, "play.example.org:0");
    assert_eq!(info.gotv_url, "play.example.org:-7");
}

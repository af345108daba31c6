use scrimbot::config::{Config, DathostConfig, DiscordConfig};
use scrimbot::data::{Data, Side};
use scrimbot::draft::DraftType;
use scrimbot::error::ValidationError;
use scrimbot::events::{Controls, Interaction, Progress};
use scrimbot::setup::ReadyAction;
use scrimbot::state::State;

fn event_config() -> Config {
    Config {
        dathost: DathostConfig {
            username: "host".to_string(),
            password: "secret".to_string(),
            match_end_url: None,
            server_id: "abc".to_string(),
        },
        discord: DiscordConfig {
            token: "token".to_string(),
            admin_role_id: 1,
            team_a_channel_id: None,
            team_b_channel_id: None,
            emote_ct_id: None,
            emote_t_id: None,
            emote_ct_name: None,
            emote_t_name: None,
            assign_role_id: None,
        },
        post_setup_msg: None,
        autoclear_hour: None,
        scrimbot_api_config: None,
    }
}

fn texts(values: &[&str]) -> Vec<String> {
    values.iter().map(|v| v.to_string()).collect()
}

#[test]
fn interactions_are_read_from_component_names() {
    assert_eq!(Interaction::parse("ready", Vec::new()), Some(Interaction::Ready(ReadyAction::Ready)));
    assert_eq!(
        Interaction::parse("unready", Vec::new()),
        Some(Interaction::Ready(ReadyAction::Unready))
    );
    assert_eq!(
        Interaction::parse("map_select", texts(&["a", "b"])),
        Some(Interaction::Vote(texts(&["a", "b"])))
    );
    assert_eq!(
        Interaction::parse("autodraft", Vec::new()),
        Some(Interaction::DraftType(DraftType::Auto))
    );
    assert_eq!(
        Interaction::parse("manualdraft", Vec::new()),
        Some(Interaction::DraftType(DraftType::Manual))
    );
    assert_eq!(Interaction::parse("captain", Vec::new()), Some(Interaction::Captain));
    assert_eq!(
        Interaction::parse("user_select", texts(&["18446744073709551615", "7"])),
        Some(Interaction::Pick(u64::MAX))
    );
    assert_eq!(Interaction::parse("ct", Vec::new()), Some(Interaction::Side(Side::Ct)));
    assert_eq!(Interaction::parse("t", Vec::new()), Some(Interaction::Side(Side::T)));
}

#[test]
fn unknown_interactions_are_not_read() {
    assert_eq!(Interaction::parse("console", Vec::new()), None);
    assert_eq!(Interaction::parse("", Vec::new()), None);
    assert_eq!(Interaction::parse("user_select", Vec::new()), None);
    assert_eq!(Interaction::parse("user_select", texts(&["abc"])), None);
    assert_eq!(Interaction::parse("user_select", texts(&[""])), None);
    assert_eq!(Interaction::parse("user_select", texts(&["-4"])), None);
    assert_eq!(Interaction::parse("user_select", texts(&["18446744073709551616"])), None);
}

#[test]
fn interactions_are_refused_in_the_wrong_phase() {
    let mut data = Data::new(event_config());
    for user in 1..=10 {
        assert!(data.steam_id(user, format!("STEAM_0:1:{}", user)).is_ok());
        assert!(data.join(user, None).is_ok());
    }
    assert_eq!(
        data.handle_interaction(1, Interaction::Ready(ReadyAction::Ready)),
        Err(ValidationError::WrongPhase)
    );
    assert_eq!(data.start(1), Ok(()));
    assert_eq!(
        data.handle_interaction(1, Interaction::Vote(texts(&["a"]))),
        Err(ValidationError::WrongPhase)
    );
    assert_eq!(
        data.handle_interaction(1, Interaction::DraftType(DraftType::Manual)),
        Err(ValidationError::WrongPhase)
    );
    assert_eq!(
        data.handle_interaction(1, Interaction::Captain),
        Err(ValidationError::WrongPhase)
    );
    assert_eq!(
        data.handle_interaction(1, Interaction::Pick(2)),
        Err(ValidationError::WrongPhase)
    );
    assert_eq!(
        data.handle_interaction(1, Interaction::Side(Side::Ct)),
        Err(ValidationError::WrongPhase)
    );
    assert_eq!(
        data.handle_interaction(12, Interaction::Side(Side::Ct)),
        Err(ValidationError::NotQueued)
    );
    assert_eq!(data.state(), State::Ready);
    assert_eq!(
        data.handle_interaction(1, Interaction::Ready(ReadyAction::Ready)),
        Ok(Progress::Waiting)
    );
}

#[test]
fn controls_follow_the_phase() {
    let mut data = Data::new(event_config());
    assert_eq!(data.add_map("de_dust2".to_string()), Ok(()));
    assert_eq!(data.add_map("de_nuke".to_string()), Ok(()));
    for user in 1..=10 {
        assert!(data.steam_id(user, format!("STEAM_0:1:{}", user)).is_ok());
        assert!(data.join(user, None).is_ok());
    }
    assert_eq!(data.controls(), Controls::Nothing);
    assert_eq!(data.start(1), Ok(()));
    assert_eq!(data.controls(), Controls::ReadyCheck);
    for user in 1..=10 {
        assert!(data.handle_ready(user, ReadyAction::Ready).is_ok());
    }
    assert_eq!(data.controls(), Controls::MapMenu(texts(&["de_dust2", "de_nuke"])));
    assert!(data.handle_map_pick(1, texts(&["de_nuke"])).is_ok());
    assert_eq!(data.conclude_map_vote(), Ok("de_nuke".to_string()));
    assert_eq!(data.controls(), Controls::DraftTypes);
    assert!(data.handle_draft_type(1, DraftType::Manual).is_ok());
    assert_eq!(data.controls(), Controls::Captain);
    assert!(data.handle_captain_pick(3).is_ok());
    assert!(data.handle_captain_pick(5).is_ok());
    assert_eq!(data.controls(), Controls::PlayerMenu(vec![1, 2, 4, 6, 7, 8, 9, 10]));
    let picks = [(3u64, 1u64), (5, 2), (3, 4), (5, 6), (3, 7), (5, 8), (3, 9), (5, 10)];
    for (captain, player) in picks {
        assert!(data.handle_draft(captain, player).is_ok());
    }
    assert_eq!(data.controls(), Controls::Sides);
    assert_eq!(data.cancel(), Ok(()));
    assert_eq!(data.controls(), Controls::Nothing);
}

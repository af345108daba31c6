use scrimbot::config::{Config, DathostConfig, DiscordConfig};
use scrimbot::data::Data;
use scrimbot::error::ValidationError;
use scrimbot::setup::{ReadyAction, ReadyEntry};
use scrimbot::state::State;

fn setup_config() -> Config {
    Config {
        dathost: DathostConfig {
            username: "host".to_string(),
            password: "secret".to_string(),
            match_end_url: None,
            server_id: "abc".to_string(),
        },
        discord: DiscordConfig {
            token: "token".to_string(),
            admin_role_id: 1,
            team_a_channel_id: None,
            team_b_channel_id: None,
            emote_ct_id: None,
            emote_t_id: None,
            emote_ct_name: None,
            emote_t_name: None,
            assign_role_id: None,
        },
        post_setup_msg: None,
        autoclear_hour: None,
        scrimbot_api_config: None,
    }
}

fn queued(players: u64) -> Data {
    let mut data = Data::new(setup_config());
    for user in 1..=players {
        assert!(data.steam_id(user, format!("STEAM_0:1:{}", user)).is_ok());
        assert!(data.join(user, None).is_ok());
    }
    data
}

#[test]
fn start_needs_a_full_queue() {
    let mut data = queued(9);
    assert_eq!(data.start(1), Err(ValidationError::QueueNotFull));
    assert_eq!(data.state(), State::Queue);
}

#[test]
fn start_needs_a_queued_player() {
    let mut data = queued(10);
    assert_eq!(data.start(11), Err(ValidationError::NotQueued));
    assert_eq!(data.state(), State::Queue);
}

#[test]
fn start_begins_the_ready_check() {
    let mut data = queued(10);
    assert_eq!(data.start(3), Ok(()));
    assert_eq!(data.state(), State::Ready);
    assert!(data.state().in_setup());
    assert!(data.ready_queue().is_empty());
}

#[test]
fn start_twice_is_refused() {
    let mut data = queued(10);
    assert_eq!(data.start(3), Ok(()));
    assert_eq!(data.start(4), Err(ValidationError::AlreadyStarted));
    assert_eq!(data.state(), State::Ready);
}

#[test]
fn ready_check_completes_with_everybody() {
    let mut data = queued(10);
    assert_eq!(data.start(1), Ok(()));
    for user in [5u64, 3, 1, 2, 4, 10, 9, 8, 7] {
        assert_eq!(data.handle_ready(user, ReadyAction::Ready), Ok(false));
        assert_eq!(data.state(), State::Ready);
    }
    assert_eq!(data.handle_ready(6, ReadyAction::Ready), Ok(true));
    assert_eq!(data.state(), State::MapPick);
    let mut ready = data.ready_queue().clone();
    ready.sort();
    assert_eq!(ready, (1..=10).collect::<Vec<u64>>());
}

#[test]
fn ready_twice_counts_once() {
    let mut data = queued(10);
    assert_eq!(data.start(1), Ok(()));
    for _ in 0..12 {
        assert_eq!(data.handle_ready(1, ReadyAction::Ready), Ok(false));
    }
    assert_eq!(data.ready_queue(), &vec![1]);
    assert_eq!(data.state(), State::Ready);
}

#[test]
fn unready_takes_the_answer_back() {
    let mut data = queued(10);
    assert_eq!(data.start(1), Ok(()));
    assert_eq!(data.handle_ready(1, ReadyAction::Ready), Ok(false));
    assert_eq!(data.handle_ready(2, ReadyAction::Ready), Ok(false));
    assert_eq!(data.handle_ready(1, ReadyAction::Unready), Ok(false));
    assert_eq!(data.ready_queue(), &vec![2]);
    assert_eq!(data.handle_ready(3, ReadyAction::Unready), Ok(false));
    assert_eq!(data.ready_queue(), &vec![2]);
}

#[test]
fn ready_is_refused_outside_the_check() {
    let mut data = queued(10);
    assert_eq!(data.handle_ready(1, ReadyAction::Ready), Err(ValidationError::WrongPhase));
    assert_eq!(data.start(1), Ok(()));
    assert_eq!(data.handle_ready(11, ReadyAction::Ready), Err(ValidationError::NotQueued));
    assert!(data.ready_queue().is_empty());
}

#[test]
fn ready_timeout_gives_up_and_keeps_the_queue() {
    let mut data = queued(10);
    assert_eq!(data.start(1), Ok(()));
    assert_eq!(data.handle_ready(1, ReadyAction::Ready), Ok(false));
    assert!(data.ready_timeout());
    assert_eq!(data.state(), State::Queue);
    assert!(data.ready_queue().is_empty());
    assert_eq!(data.user_queue(), &(1..=10).collect::<Vec<u64>>());
    assert!(!data.ready_timeout());
    assert_eq!(data.start(2), Ok(()));
}

#[test]
fn ready_timeout_does_nothing_in_other_phases() {
    let mut data = queued(10);
    assert_eq!(data.start(1), Ok(()));
    for user in 1..=10 {
        assert!(data.handle_ready(user, ReadyAction::Ready).is_ok());
    }
    assert_eq!(data.state(), State::MapPick);
    assert!(!data.ready_timeout());
    assert_eq!(data.state(), State::MapPick);
    assert!(!data.setup_timeout());
    assert_eq!(data.state(), State::MapPick);
}

#[test]
fn cancel_in_queue_phase_is_refused() {
    let mut data = queued(10);
    assert_eq!(data.cancel(), Err(ValidationError::WrongPhase));
    assert_eq!(data.state(), State::Queue);
    assert_eq!(data.user_queue().len(), 10);
}

#[test]
fn cancel_resets_from_the_ready_check() {
    let mut data = queued(10);
    assert_eq!(data.start(1), Ok(()));
    assert_eq!(data.handle_ready(1, ReadyAction::Ready), Ok(false));
    assert_eq!(data.cancel(), Ok(()));
    assert_eq!(data.state(), State::Queue);
    assert!(data.ready_queue().is_empty());
    assert_eq!(data.user_queue().len(), 10);
}

#[test]
fn ready_action_names() {
    assert_eq!(ReadyAction::parse("ready"), Some(ReadyAction::Ready));
    assert_eq!(ReadyAction::parse("unready"), Some(ReadyAction::Unready));
    assert_eq!(ReadyAction::parse("Ready"), None);
    assert_eq!(ReadyAction::parse(""), None);
}

#[test]
fn ready_list_shows_who_is_ready() {
    let mut data = queued(10);
    assert_eq!(data.start(1), Ok(()));
    assert_eq!(data.handle_ready(3, ReadyAction::Ready), Ok(false));
    assert_eq!(data.handle_ready(9, ReadyAction::Ready), Ok(false));
    let entries = data.list_ready();
    assert_eq!(entries.len(), 10);
    for (i, entry) in entries.iter().enumerate() {
        let user = i as u64 + 1;
        assert_eq!(*entry, ReadyEntry { user, ready: user == 3 || user == 9 });
    }
}

#[test]
fn ready_again_with_two_queued_changes_nothing() {
    let mut data = queued(10);
    assert_eq!(data.start(1), Ok(()));
    assert_eq!(data.handle_ready(1, ReadyAction::Ready), Ok(false));
    data.clear_queue();
    assert_eq!(data.join(1, None), Ok(1));
    assert_eq!(data.join(2, None), Ok(2));
    assert_eq!(data.state(), State::Ready);
    assert_eq!(data.ready_queue(), &vec![1]);
    assert_eq!(data.handle_ready(1, ReadyAction::Ready), Ok(false));
    assert_eq!(data.ready_queue(), &vec![1]);
    assert_eq!(data.state(), State::Ready);
    assert_eq!(data.handle_ready(2, ReadyAction::Ready), Ok(true));
    assert_eq!(data.state(), State::MapPick);
}

#[test]
fn ready_check_waits_for_the_queued_players_themselves() {
    let mut data = queued(10);
    assert_eq!(data.start(1), Ok(()));
    assert_eq!(data.handle_ready(1, ReadyAction::Ready), Ok(false));
    data.clear_queue();
    assert_eq!(data.join(3, None), Ok(1));
    assert_eq!(data.join(4, None), Ok(2));
    assert_eq!(data.handle_ready(3, ReadyAction::Ready), Ok(false));
    assert_eq!(data.ready_queue(), &vec![1, 3]);
    assert_eq!(data.state(), State::Ready);
    assert_eq!(data.handle_ready(1, ReadyAction::Ready), Err(ValidationError::NotQueued));
    assert!(data.ready_timeout());
    assert_eq!(data.user_queue(), &vec![3, 4]);
}

#[test]
fn time_limits() {
    assert_eq!(scrimbot::setup::READY_TIMEOUT_SECS, 180);
    assert_eq!(scrimbot::setup::MAP_VOTE_SECS, 60);
    assert_eq!(scrimbot::setup::SETUP_TIMEOUT_SECS, 600);
}

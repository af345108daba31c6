use scrimbot::config::{Config, DathostConfig, DiscordConfig};
use scrimbot::data::{Data, QUEUE_CAPACITY};
use scrimbot::error::ValidationError;
use scrimbot::queue::{queue_note, QueueEntry};
use scrimbot::state::State;

fn queue_config() -> Config {
    Config {
        dathost: DathostConfig {
            username: "host".to_string(),
            password: "secret".to_string(),
            match_end_url: None,
            server_id: "abc".to_string(),
        },
        discord: DiscordConfig {
            token: "token".to_string(),
            admin_role_id: 1,
            team_a_channel_id: None,
            team_b_channel_id: None,
            emote_ct_id: None,
            emote_t_id: None,
            emote_ct_name: None,
            emote_t_name: None,
            assign_role_id: None,
        },
        post_setup_msg: None,
        autoclear_hour: None,
        scrimbot_api_config: None,
    }
}

fn registered(players: u64) -> Data {
    let mut data = Data::new(queue_config());
    for user in 1..=players {
        assert!(data.steam_id(user, format!("STEAM_0:1:{}", user)).is_ok());
    }
    data
}

#[test]
fn new_state_is_empty() {
    let data = Data::new(queue_config());
    assert_eq!(data.state(), State::Queue);
    assert!(data.user_queue().is_empty());
    assert!(data.ready_queue().is_empty());
    assert!(data.maps().is_empty());
    assert_eq!(data.draft().captain_a(), None);
    assert_eq!(data.draft().captain_b(), None);
    assert!(data.draft().team_a().is_empty());
    assert!(data.draft().team_b().is_empty());
    assert_eq!(data.draft().current_picker(), None);
    assert_eq!(data.draft().team_b_start_side(), None);
    assert!(data.draft().map_votes().is_empty());
    assert_eq!(data.draft().selected_map(), "");
}

#[test]
fn join_appends_in_order() {
    let mut data = registered(3);
    assert_eq!(data.join(2, None), Ok(1));
    assert_eq!(data.join(1, None), Ok(2));
    assert_eq!(data.join(3, None), Ok(3));
    assert_eq!(data.user_queue(), &vec![2, 1, 3]);
    assert!(data.user_in_queue(1));
    assert!(!data.user_in_queue(4));
}

#[test]
fn join_without_identity_is_refused() {
    let mut data = registered(1);
    assert_eq!(data.join(7, None), Err(ValidationError::MissingIdentity));
    assert!(data.user_queue().is_empty());
}

#[test]
fn join_twice_is_refused() {
    let mut data = registered(2);
    assert_eq!(data.join(1, None), Ok(1));
    assert_eq!(data.join(1, None), Err(ValidationError::AlreadyQueued));
    assert_eq!(data.user_queue(), &vec![1]);
}

#[test]
fn join_full_queue_is_refused() {
    let mut data = registered(11);
    for user in 1..=10 {
        assert_eq!(data.join(user, None), Ok(user as usize));
    }
    assert_eq!(data.join(11, None), Err(ValidationError::QueueFull));
    assert_eq!(data.join(3, None), Err(ValidationError::QueueFull));
    assert_eq!(data.user_queue().len(), QUEUE_CAPACITY);
}

#[test]
fn missing_identity_comes_before_full_queue() {
    let mut data = registered(10);
    for user in 1..=10 {
        assert!(data.join(user, None).is_ok());
    }
    assert_eq!(data.join(99, None), Err(ValidationError::MissingIdentity));
}

#[test]
fn leave_removes_the_player_and_keeps_the_order() {
    let mut data = registered(4);
    for user in 1..=4 {
        assert!(data.join(user, Some("hello")).is_ok());
    }
    assert_eq!(data.leave(2), Ok(3));
    assert_eq!(data.user_queue(), &vec![1, 3, 4]);
    assert_eq!(data.queue_message_of(2), None);
    assert_eq!(data.queue_message_of(3), Some(&"hello".to_string()));
    assert_eq!(data.leave(2), Err(ValidationError::NotQueued));
}

#[test]
fn kick_removes_the_player() {
    let mut data = registered(3);
    for user in 1..=3 {
        assert!(data.join(user, None).is_ok());
    }
    assert_eq!(data.kick(1), Ok(2));
    assert_eq!(data.user_queue(), &vec![2, 3]);
    assert_eq!(data.kick(9), Err(ValidationError::NotQueued));
}

#[test]
fn leave_and_kick_are_refused_during_setup() {
    let mut data = registered(10);
    for user in 1..=10 {
        assert!(data.join(user, None).is_ok());
    }
    assert_eq!(data.start(1), Ok(()));
    assert_eq!(data.leave(1), Err(ValidationError::WrongPhase));
    assert_eq!(data.kick(2), Err(ValidationError::WrongPhase));
    assert_eq!(data.leave(77), Err(ValidationError::WrongPhase));
    assert_eq!(data.user_queue().len(), 10);
    assert_eq!(data.state(), State::Ready);
}

#[test]
fn queue_never_exceeds_capacity_nor_repeats() {
    let mut data = registered(15);
    let attempts: Vec<(bool, u64)> = vec![
        (true, 1), (true, 2), (true, 1), (false, 3), (true, 3), (false, 1), (true, 1),
        (true, 4), (true, 5), (true, 6), (true, 7), (true, 8), (true, 9), (true, 10),
        (true, 11), (true, 12), (false, 2), (true, 12), (true, 13), (true, 2), (true, 14),
    ];
    for (join, user) in attempts {
        if join {
            let _ = data.join(user, None);
        } else {
            let _ = data.leave(user);
        }
        let queue = data.user_queue();
        assert!(queue.len() <= QUEUE_CAPACITY);
        for i in 0..queue.len() {
            for j in 0..i {
                assert_ne!(queue[i], queue[j]);
            }
        }
    }
    assert_eq!(data.user_queue().len(), 10);
}

#[test]
fn clear_empties_queue_and_notes() {
    let mut data = registered(3);
    assert!(data.join(1, Some("one")).is_ok());
    assert!(data.join(2, None).is_ok());
    data.clear_queue();
    assert!(data.user_queue().is_empty());
    assert_eq!(data.queue_message_of(1), None);
    assert_eq!(data.state(), State::Queue);
    assert_eq!(data.join(1, None), Ok(1));
}

#[test]
fn clear_during_setup_leaves_the_setup_as_it_is() {
    let mut data = registered(10);
    for user in 1..=10 {
        assert!(data.join(user, Some("hi")).is_ok());
    }
    assert_eq!(data.start(1), Ok(()));
    assert_eq!(data.handle_ready(4, scrimbot::setup::ReadyAction::Ready), Ok(false));
    data.clear_queue();
    assert_eq!(data.state(), State::Ready);
    assert!(data.user_queue().is_empty());
    assert!(data.queue_messages().is_empty());
    assert_eq!(data.ready_queue(), &vec![4]);
    assert_eq!(data.cancel(), Ok(()));
    assert_eq!(data.state(), State::Queue);
}

#[test]
fn note_is_cut_and_trimmed() {
    assert_eq!(queue_note("  back in five  "), "back in five");
    assert_eq!(queue_note(""), "");
    assert_eq!(queue_note("   "), "");
    let long = "x".repeat(60);
    assert_eq!(queue_note(&long), "x".repeat(50));
    let padded = format!("{}{}", " ".repeat(45), "abcdefghij");
    assert_eq!(queue_note(&padded), "abcde");
    assert_eq!(queue_note("\tline\n"), "line");
}

#[test]
fn list_shows_players_with_notes() {
    let mut data = registered(3);
    assert!(data.join(2, Some(" late ")).is_ok());
    assert!(data.join(1, None).is_ok());
    assert_eq!(
        data.list(),
        vec![
            QueueEntry { user: 2, message: Some("late".to_string()) },
            QueueEntry { user: 1, message: None },
        ]
    );
}

#[test]
fn recover_sets_the_queue_anew() {
    let mut data = registered(4);
    assert!(data.join(4, Some("old")).is_ok());
    data.recover_queue(&vec![3, 9, 1, 3, 2]);
    assert_eq!(data.user_queue(), &vec![3, 1, 2]);
    assert_eq!(data.queue_message_of(4), None);
}

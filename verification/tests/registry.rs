use scrimbot::config::{Config, DathostConfig, DiscordConfig};
use scrimbot::data::{Data, MAP_POOL_LIMIT};
use scrimbot::error::RegistryError;

fn registry_config() -> Config {
    Config {
        dathost: DathostConfig {
            username: "host".to_string(),
            password: "secret".to_string(),
            match_end_url: None,
            server_id: "abc".to_string(),
        },
        discord: DiscordConfig {
            token: "token".to_string(),
            admin_role_id: 1,
            team_a_channel_id: None,
            team_b_channel_id: None,
            emote_ct_id: None,
            emote_t_id: None,
            emote_ct_name: None,
            emote_t_name: None,
            assign_role_id: None,
        },
        post_setup_msg: Some("glhf".to_string()),
        autoclear_hour: Some(4),
        scrimbot_api_config: None,
    }
}

#[test]
fn steam_id_is_registered_and_replaced() {
    let mut data = Data::new(registry_config());
    assert_eq!(data.steam_id_of(5), None);
    assert_eq!(data.steam_id(5, "STEAM_0:1:12345678".to_string()), Ok(Some(76561197984957085)));
    assert_eq!(data.steam_id_of(5), Some(&"STEAM_0:1:12345678".to_string()));
    assert_eq!(data.steam_id(5, "STEAM_1:0:2".to_string()), Ok(Some(76561197960265732)));
    assert_eq!(data.steam_id_of(5), Some(&"STEAM_1:0:2".to_string()));
}

#[test]
fn steam_id_of_another_shape_is_refused() {
    let mut data = Data::new(registry_config());
    for text in ["", "12345", "STEAM_0:1", "STEAM_0:1:x", "STEAM_9:1:5", "STEAM_0:1:5 "] {
        assert_eq!(data.steam_id(5, text.to_string()), Err(RegistryError::InvalidSteamId));
    }
    assert_eq!(data.steam_id_of(5), None);
}

#[test]
fn steam_id_too_large_has_no_profile() {
    let mut data = Data::new(registry_config());
    assert_eq!(data.steam_id(5, "STEAM_0:1:99999999999999999999".to_string()), Ok(None));
    assert_eq!(data.steam_id(6, "STEAM_0:1:9185091437874642944".to_string()), Ok(None));
    assert_eq!(
        data.steam_id(7, "STEAM_0:1:9185091437874642943".to_string()),
        Ok(Some(u64::MAX))
    );
    assert_eq!(data.steam_id(8, "STEAM_0:0:9185091437874642944".to_string()), Ok(None));
}

#[test]
fn team_name_is_registered() {
    let mut data = Data::new(registry_config());
    assert_eq!(data.team_name_of(5), None);
    assert_eq!(data.teamname(5, "Eagles".to_string()), Ok(()));
    assert_eq!(data.team_name_of(5), Some(&"Eagles".to_string()));
    assert_eq!(data.teamname(5, "x".repeat(20)), Ok(()));
    assert_eq!(data.teamname(5, "x".repeat(21)), Err(RegistryError::TeamNameTooLong));
    assert_eq!(data.team_name_of(5), Some(&"x".repeat(20)));
}

#[test]
fn maps_join_and_leave_the_pool() {
    let mut data = Data::new(registry_config());
    assert_eq!(data.add_map("de_dust2".to_string()), Ok(()));
    assert_eq!(data.add_map("de_nuke".to_string()), Ok(()));
    assert_eq!(data.add_map("de_mirage".to_string()), Ok(()));
    assert_eq!(data.add_map("de_nuke".to_string()), Err(RegistryError::AlreadyPresent));
    assert_eq!(data.remove_map(&"de_train".to_string()), Err(RegistryError::NotPresent));
    assert_eq!(data.remove_map(&"de_nuke".to_string()), Ok(()));
    assert_eq!(data.maps(), &vec!["de_dust2".to_string(), "de_mirage".to_string()]);
}

#[test]
fn map_pool_has_a_limit() {
    let mut data = Data::new(registry_config());
    for i in 0..MAP_POOL_LIMIT {
        assert_eq!(data.add_map(format!("map{}", i)), Ok(()));
    }
    assert_eq!(data.add_map("one_more".to_string()), Err(RegistryError::PoolFull));
    assert_eq!(data.add_map("map3".to_string()), Err(RegistryError::PoolFull));
    assert_eq!(data.maps().len(), 26);
}

#[test]
fn config_is_kept() {
    let data = Data::new(registry_config());
    assert_eq!(data.config(), &registry_config());
    assert_eq!(data.config().autoclear_hour, Some(4));
}

#[test]
fn side_tables_are_readable_as_a_whole() {
    let mut data = Data::new(registry_config());
    assert!(data.steam_id(5, "STEAM_0:1:7".to_string()).is_ok());
    assert!(data.steam_id(6, "STEAM_0:0:8".to_string()).is_ok());
    assert!(data.teamname(5, "Eagles".to_string()).is_ok());
    assert!(data.join(6, Some("hi")).is_ok());
    assert_eq!(data.steam_id_cache().len(), 2);
    assert_eq!(data.steam_id_cache().get(&6), Some(&"STEAM_0:0:8".to_string()));
    assert_eq!(data.team_names().len(), 1);
    assert_eq!(data.team_names().get(&5), Some(&"Eagles".to_string()));
    assert_eq!(data.queue_messages().len(), 1);
    assert_eq!(data.queue_messages().get(&6), Some(&"hi".to_string()));
}

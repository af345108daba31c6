use scrimbot::config::{Config, DathostConfig, DiscordConfig};
use scrimbot::data::Data;
use scrimbot::error::ValidationError;
use scrimbot::stats::{stats_response_ok, QueryTypeChoice, StatsQuery};

fn stats_config() -> Config {
    Config {
        dathost: DathostConfig {
            username: "host".to_string(),
            password: "secret".to_string(),
            match_end_url: None,
            server_id: "abc".to_string(),
        },
        discord: DiscordConfig {
            token: "token".to_string(),
            admin_role_id: 1,
            team_a_channel_id: None,
            team_b_channel_id: None,
            emote_ct_id: None,
            emote_t_id: None,
            emote_ct_name: None,
            emote_t_name: None,
            assign_role_id: None,
        },
        post_setup_msg: None,
        autoclear_hour: None,
        scrimbot_api_config: None,
    }
}

fn option(key: &str, value: &str) -> (String, String) {
    (key.to_string(), value.to_string())
}

#[test]
fn query_type_names() {
    assert_eq!(QueryTypeChoice::Top10.as_str(), "top10");
    assert_eq!(QueryTypeChoice::Maps.as_str(), "maps");
}

#[test]
fn plain_query_asks_for_the_player() {
    let mut data = Data::new(stats_config());
    assert!(data.steam_id(3, "STEAM_0:1:555".to_string()).is_ok());
    assert_eq!(
        data.stats_query(3, None, None, None),
        Ok(StatsQuery { options: vec![option("steamid", "STEAM_1:1:555")], print_map: false })
    );
}

#[test]
fn query_by_maps_is_shown_by_map() {
    let mut data = Data::new(stats_config());
    assert!(data.steam_id(3, "STEAM_3:0:555".to_string()).is_ok());
    assert_eq!(
        data.stats_query(3, Some(QueryTypeChoice::Maps), Some(3), Some("de_nuke".to_string())),
        Ok(StatsQuery {
            options: vec![
                option("steamid", "STEAM_1:0:555"),
                option("option", "maps"),
                option("months", "3"),
                option("map", "de_nuke"),
            ],
            print_map: true,
        })
    );
}

#[test]
fn query_for_the_top_ten_leaves_the_player_out() {
    let mut data = Data::new(stats_config());
    assert!(data.steam_id(3, "STEAM_0:1:555".to_string()).is_ok());
    assert_eq!(
        data.stats_query(3, Some(QueryTypeChoice::Top10), Some(-12), None),
        Ok(StatsQuery {
            options: vec![
                option("mapCountLimit", "10"),
                option("option", "top10"),
                option("months", "-12"),
            ],
            print_map: false,
        })
    );
    assert_eq!(
        data.stats_query(3, Some(QueryTypeChoice::Top10), Some(i32::MIN), None)
            .unwrap()
            .options[2],
        option("months", "-2147483648")
    );
}

#[test]
fn query_without_identity_is_refused() {
    let data = Data::new(stats_config());
    assert_eq!(data.stats_query(3, None, None, None), Err(ValidationError::MissingIdentity));
}

#[test]
fn only_status_200_is_an_answer() {
    assert!(stats_response_ok(200));
    assert!(!stats_response_ok(201));
    assert!(!stats_response_ok(404));
}

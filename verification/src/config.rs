use vstd::prelude::*;

verus! {

/// Everything the deployment configures.
#[derive(Clone, Debug, PartialEq, Eq)]
pub struct Config {
    pub dathost: DathostConfig,
    pub discord: DiscordConfig,
    pub post_setup_msg: Option<String>,
    pub autoclear_hour: Option<u32>,
    pub scrimbot_api_config: Option<ScrimbotApiConfig>,
}

/// Access to the statistics service.
#[derive(Clone, Debug, PartialEq, Eq)]
pub struct ScrimbotApiConfig {
    pub scrimbot_api_url: Option<String>,
    pub scrimbot_api_user: Option<String>,
    pub scrimbot_api_password: Option<String>,
    pub scrimbot_api_token: Option<String>,
}

/// Access to the provisioning service.
#[derive(Clone, Debug, PartialEq, Eq)]
pub struct DathostConfig {
    pub username: String,
    pub password: String,
    pub match_end_url: Option<String>,
    pub server_id: String,
}

/// What the chat side needs: the token, the admin role, and the optional
/// voice channels, emotes and role to assign.
#[derive(Clone, Debug, PartialEq, Eq)]
pub struct DiscordConfig {
    pub token: String,
    pub admin_role_id: u64,
    pub team_a_channel_id: Option<u64>,
    pub team_b_channel_id: Option<u64>,
    pub emote_ct_id: Option<u64>,
    pub emote_t_id: Option<u64>,
    pub emote_ct_name: Option<String>,
    pub emote_t_name: Option<String>,
    pub assign_role_id: Option<u64>,
}

} // verus!

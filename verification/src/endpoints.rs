use vstd::prelude::*;
use vstd::string::StringExecFns;
use base64::engine::general_purpose;
use base64::Engine;
use crate::config::{DathostConfig, ScrimbotApiConfig};

verus! {

/// The standard base64 encoding, with padding, of the UTF-8 bytes of a text.
pub uninterp spec fn base64_standard(text: Seq<char>) -> Seq<char>;

/// `Engine::encode` of the crate `base64` on its engine `STANDARD`: the
/// standard base64 encoding of the bytes of `text`. The call panics where the
/// length of the encoding does not fit in `usize`, which takes more bytes
/// than a text can have.
#[verifier::external_body]
fn base64_standard_of(text: &str) -> (encoded: String)
    ensures
        encoded@ == base64_standard(text@),
{
    general_purpose::STANDARD.encode(text)
}

/// The credential of HTTP basic authentication for a user and a password.
pub open spec fn basic_authorization(username: Seq<char>, password: Seq<char>) -> Seq<char> {
    "Basic "@ + base64_standard(username + seq![':'] + password)
}

/// The credential for the statistics service: `TOKEN` and the token where one
/// is configured, else basic authentication where user and password are.
pub open spec fn api_credential(config: ScrimbotApiConfig) -> Option<Seq<char>> {
    match config.scrimbot_api_token {
        Some(token) => Some("TOKEN "@ + token@),
        None => match (config.scrimbot_api_user, config.scrimbot_api_password) {
            (Some(user), Some(password)) => Some(basic_authorization(user@, password@)),
            _ => None,
        },
    }
}

/// The address of a game server at the provisioning service.
pub open spec fn server_address(server_id: Seq<char>) -> Seq<char> {
    "https://dathost.net/api/0.1/game-servers/"@ + server_id
}

/// The address of the statistics at the statistics service.
pub open spec fn stats_address(base: Seq<char>) -> Seq<char> {
    base + "/stats"@
}

fn basic_authorization_of(username: &String, password: &String) -> (header: String)
    ensures
        header@ == basic_authorization(username@, password@),
{
    proof {
        reveal_strlit(":");
    }
    let mut credentials = username.clone();
    credentials.append(":");
    credentials.append(password.as_str());
    assert(credentials@ =~= username@ + seq![':'] + password@);
    String::from_str("Basic ").concat(base64_standard_of(credentials.as_str()).as_str())
}

/// The `Authorization` header for the provisioning service.
pub fn dathost_authorization(config: &DathostConfig) -> (header: String)
    ensures
        header@ == basic_authorization(config.username@, config.password@),
{
    basic_authorization_of(&config.username, &config.password)
}

/// The `Authorization` header for the statistics service, if a credential
/// is configured.
pub fn api_authorization(config: &ScrimbotApiConfig) -> (header: Option<String>)
    ensures
        match header {
            Some(text) => api_credential(*config) == Some(text@),
            None => api_credential(*config) is None,
        },
{
    match &config.scrimbot_api_token {
        Some(token) => Some(String::from_str("TOKEN ").concat(token.as_str())),
        None => match (&config.scrimbot_api_user, &config.scrimbot_api_password) {
            (Some(user), Some(password)) => Some(basic_authorization_of(user, password)),
            _ => None,
        },
    }
}

/// The address at which the provisioning service takes a new match.
pub fn match_url() -> (url: String)
    ensures
        url@ == "https://dathost.net/api/0.1/cs2-matches"@,
{
    String::from_str("https://dathost.net/api/0.1/cs2-matches")
}

/// The address at which the provisioning service tells of a game server.
pub fn server_info_url(server_id: &String) -> (url: String)
    ensures
        url@ == server_address(server_id@),
{
    String::from_str("https://dathost.net/api/0.1/game-servers/").concat(server_id.as_str())
}

/// The address at which the statistics service answers.
pub fn stats_url(config: &ScrimbotApiConfig) -> (url: Option<String>)
    ensures
        match url {
            Some(text) => config.scrimbot_api_url matches Some(base) && text@ == stats_address(
                base@,
            ),
            None => config.scrimbot_api_url is None,
        },
{
    match &config.scrimbot_api_url {
        Some(base) => Some(base.clone().concat("/stats")),
        None => None,
    }
}

} // verus!

//! The user's settings: Twitch credentials, polling and playback defaults.

use vstd::prelude::*;

verus! {

/// The settings read from the configuration file.
#[derive(Debug)]
pub struct Config {
    pub twitch: TwitchConfig,
    pub poll_interval_secs: u64,
    pub default_quality: String,
    pub notifications_enabled: bool,
    pub chat_enabled: bool,
}

/// The Twitch application and account the client uses.
#[derive(Debug)]
pub struct TwitchConfig {
    pub client_id: String,
    pub oauth_token: Option<String>,
    pub username: Option<String>,
}

impl Default for TwitchConfig {
    fn default() -> (res: Self)
        ensures
            res.client_id@ == Seq::<char>::empty(),
            res.oauth_token.is_none(),
            res.username.is_none(),
    {
        TwitchConfig { client_id: String::new(), oauth_token: None, username: None }
    }
}

impl Default for Config {
    /// No credentials, a poll every minute, the best quality, notifications
    /// and chat on.
    fn default() -> (res: Self)
        ensures
            res.twitch.client_id@ == Seq::<char>::empty(),
            res.twitch.oauth_token.is_none(),
            res.twitch.username.is_none(),
            res.poll_interval_secs == 60,
            res.default_quality@ == "best"@,
            res.notifications_enabled,
            res.chat_enabled,
    {
        Config {
            twitch: TwitchConfig::default(),
            poll_interval_secs: default_poll_interval(),
            default_quality: default_quality(),
            notifications_enabled: default_true(),
            chat_enabled: default_true(),
        }
    }
}

/// The poll interval taken when the file names none: a minute.
pub fn default_poll_interval() -> (res: u64)
    ensures
        res == 60,
{
    60
}

/// The playback quality taken when the file names none: "best".
pub fn default_quality() -> (res: String)
    ensures
        res@ == "best"@,
{
    String::from_str("best")
}

/// The value of a switch that the file leaves out: on.
pub fn default_true() -> (res: bool)
    ensures
        res,
{
    true
}

/// Where the settings are kept inside the configuration directory `dir`.
pub fn config_file_path(dir: &str) -> (res: String)
    ensures
        res@ == dir@ + "/config.toml"@,
{
    String::from_str(dir).concat("/config.toml")
}

} // verus!

//! The uploader's configuration, and what it means where a field is left out.

use vstd::prelude::*;
use vstd::string::*;
use crate::upload::Client;

verus! {

/// How much of the log is kept.
#[derive(Clone, Copy, Debug, PartialEq, Eq, Structural)]
pub enum LevelFilter {
    Off,
    Error,
    Warn,
    Info,
    Debug,
    Trace,
}

/// What the first-run prompt asks of the user.
#[derive(Clone, Debug, PartialEq, Eq)]
pub struct UserInputConfig {
    pub username: String,
    pub api_key: String,
}

/// The whole configuration of a run.
#[derive(Clone, Debug, PartialEq, Eq)]
pub struct UploaderConfig {
    pub username: String,
    pub api_key: String,
    pub watch_directory: Option<String>,
    pub api_url: String,
    pub log_level: LevelFilter,
}

/// The endpoint that uploads go to unless the configuration names another.
pub open spec fn default_api_url_text() -> Seq<char> {
    "https://rakaly.com/api/upload"@
}

/// The endpoint of a configuration that names none.
pub fn default_api_url() -> (url: String)
    ensures
        url@ == default_api_url_text(),
{
    String::from_str("https://rakaly.com/api/upload")
}

/// The log level of a configuration that names none.
pub fn default_log_level() -> (level: LevelFilter)
    ensures
        level == LevelFilter::Info,
{
    LevelFilter::Info
}

impl UploaderConfig {
    /// The configuration that holds the user's input and, for everything
    /// else, the defaults: no watch directory, the default endpoint and level.
    pub fn minimal(input: UserInputConfig) -> (config: UploaderConfig)
        ensures
            config.username == input.username,
            config.api_key == input.api_key,
            config.watch_directory is None,
            config.api_url@ == default_api_url_text(),
            config.log_level == LevelFilter::Info,
    {
        UploaderConfig {
            username: input.username,
            api_key: input.api_key,
            watch_directory: None,
            api_url: default_api_url(),
            log_level: default_log_level(),
        }
    }

    /// The upload client that this configuration describes.
    pub fn client(&self) -> (client: Client)
        ensures
            client.username == self.username,
            client.api_key == self.api_key,
            client.api_url == self.api_url,
    {
        Client {
            username: self.username.clone(),
            api_key: self.api_key.clone(),
            api_url: self.api_url.clone(),
        }
    }

    /// The directory to watch: the configured one, or the given fallback
    /// where none is configured.
    pub fn watch_target(&self, fallback: &String) -> (target: String)
        ensures
            target == (match self.watch_directory {
                Some(directory) => directory,
                None => *fallback,
            }),
    {
        match &self.watch_directory {
            Some(directory) => directory.clone(),
            None => fallback.clone(),
        }
    }
}

} // verus!

//! The settings a sprint command runs with.
use vstd::prelude::*;

use crate::error::Error;
use crate::paginate::{parsed_url, url_accepted};
use crate::secret::Secret;

verus! {

/// The sprint commands.
#[derive(Clone, Copy, Debug, PartialEq, Eq, Structural)]
pub enum Command {
    /// Create a new sprint.
    Create,
    /// Sync a physical board to the digital board.
    Sync,
    /// Finish an open sprint.
    Finish,
}

/// The verb that names a command in messages.
pub open spec fn command_verb(command: Command) -> Seq<char> {
    match command {
        Command::Create => "create"@,
        Command::Sync => "sync"@,
        Command::Finish => "finish"@,
    }
}

impl Command {
    /// The verb that names the command in messages.
    pub fn verb(&self) -> (r: &'static str)
        ensures
            r@ == command_verb(*self),
    {
        match self {
            Command::Create => "create",
            Command::Sync => "sync",
            Command::Finish => "finish",
        }
    }
}

/// Where the trackers are, and how to reach them.
pub struct Settings {
    pub version: Option<u32>,
    pub owner: String,
    pub repo: String,
    pub github_url: String,
    pub github_token: Secret,
    pub zenhub_url: Option<String>,
    pub zenhub_token: Option<Secret>,
}

impl Settings {
    /// The overlay's URL and token, which every sprint command needs.
    pub fn overlay_access(&self, command: Command) -> (r: Result<(String, String), Error>)
        ensures
            match r {
                Ok((url, token)) => self.zenhub_url is Some && self.zenhub_token is Some
                    && url@ == self.zenhub_url->0@ && token@ == self.zenhub_token->0@,
                Err(Error::Settings { description }) => if self.zenhub_url is None {
                    description@ == "Zenhub url required to "@ + command_verb(command)
                        + " sprint."@
                } else {
                    self.zenhub_token is None && description@ == "Zenhub token required to "@
                        + command_verb(command) + " sprint."@
                },
                Err(_) => false,
            },
    {
        let url = match &self.zenhub_url {
            Some(u) => u.as_str().to_owned(),
            None => {
                let mut d = "Zenhub url required to ".to_owned();
                d.append(command.verb());
                d.append(" sprint.");
                return Err(Error::Settings { description: d });
            },
        };
        let token = match &self.zenhub_token {
            Some(t) => t.value().to_owned(),
            None => {
                let mut d = "Zenhub token required to ".to_owned();
                d.append(command.verb());
                d.append(" sprint.");
                return Err(Error::Settings { description: d });
            },
        };
        Ok((url, token))
    }
}

/// The base URL of a service's API, from the settings' text: a text that is
/// no absolute URL is a configuration error that names the service.
pub fn base_url(url: &str, service: &str) -> (r: Result<url::Url, Error>)
    ensures
        match r {
            Ok(u) => url_accepted(url@) && u == parsed_url(url@),
            Err(Error::Config { description }) => !url_accepted(url@) && description@ == "Invalid "@
                + service@ + " base url "@ + url@,
            Err(_) => false,
        },
{
    match url::Url::parse(url) {
        Ok(u) => Ok(u),
        Err(_) => {
            let mut d = "Invalid ".to_owned();
            d.append(service);
            d.append(" base url ");
            d.append(url);
            Err(Error::Config { description: d })
        },
    }
}

} // verus!

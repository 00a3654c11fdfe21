//! The effective settings of one run.

use vstd::prelude::*;

verus! {

/// Port of the broker when no source names one.
pub const DEFAULT_PORT: u16 = 1883;

/// Seconds between two publishes when no source names an interval.
pub const DEFAULT_UPDATES: usize = 5;

/// The settings a beacon runs with. Every field always holds a value: what no
/// source provides comes from [`Config::new`].
#[derive(Debug, PartialEq, Eq)]
pub struct Config {
    /// Verbosity level.
    pub verbose: u8,
    /// Host name or address of the broker.
    pub broker: String,
    /// User name for the broker, if any.
    pub username: Option<String>,
    /// Password for the broker, if any.
    pub password: Option<String>,
    /// Port of the broker.
    pub port: u16,
    /// Seconds to wait between two publishes.
    pub updates: usize,
    /// Topic the time is published to.
    pub topic: String,
    /// Identity under which the client connects.
    pub id: String,
}

/// What a [`Config`] holds, as mathematical values.
pub struct ConfigView {
    pub verbose: u8,
    pub broker: Seq<char>,
    pub username: Option<Seq<char>>,
    pub password: Option<Seq<char>>,
    pub port: u16,
    pub updates: usize,
    pub topic: Seq<char>,
    pub id: Seq<char>,
}

/// The characters of an optional string.
pub open spec fn text_of(s: Option<String>) -> Option<Seq<char>> {
    match s {
        Some(t) => Some(t@),
        None => None,
    }
}

impl View for Config {
    type V = ConfigView;

    open spec fn view(&self) -> ConfigView {
        ConfigView {
            verbose: self.verbose,
            broker: self.broker@,
            username: text_of(self.username),
            password: text_of(self.password),
            port: self.port,
            updates: self.updates,
            topic: self.topic@,
            id: self.id@,
        }
    }
}

impl ConfigView {
    /// The built-in settings: a silent client named `timedumper` that publishes
    /// to `time` on `localhost:1883` every five seconds, without credentials.
    pub open spec fn defaults() -> ConfigView {
        ConfigView {
            verbose: 0,
            broker: "localhost"@,
            username: None,
            password: None,
            port: DEFAULT_PORT,
            updates: DEFAULT_UPDATES,
            topic: "time"@,
            id: "timedumper"@,
        }
    }
}

impl Config {
    /// The built-in settings.
    pub fn new() -> (config: Config)
        ensures
            config@ == ConfigView::defaults(),
    {
        Config {
            verbose: 0,
            broker: "localhost".to_owned(),
            username: None,
            password: None,
            port: DEFAULT_PORT,
            updates: DEFAULT_UPDATES,
            topic: "time".to_owned(),
            id: "timedumper".to_owned(),
        }
    }
}

impl Default for Config {
    fn default() -> (config: Config)
        ensures
            config@ == ConfigView::defaults(),
    {
        Config::new()
    }
}

} // verus!

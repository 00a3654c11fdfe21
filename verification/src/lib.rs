//! A periodic time beacon for a message broker.
//!
//! The crate holds the decisions of the beacon and leaves every effect to its
//! caller. [`resolve`] merges the command line, an optional settings document
//! and the built-in defaults into one [`Config`]. [`Beacon`] is the
//! publish-and-confirm cycle written as a state machine: it is fed what
//! happened as an [`Event`] and answers with the [`Action`] to perform next.
//!
//! Outside code is called for three things and trusted to do what its authors
//! say: `httpdate` writes the published text, `serde_yaml` reads the settings
//! document, and `str::to_lowercase` folds the name of a shell. Each call
//! stands in a function of its own whose comment begins with "Trusted".

pub mod beacon;
pub mod config;
pub mod decimal;
pub mod document;
pub mod resolve;
pub mod shell;
pub mod timestamp;

pub use beacon::{Action, Beacon, Event, Failure, Phase};
pub use config::Config;
pub use document::{DocumentError, FileDocument};
pub use resolve::{resolve, CliArgs, Field, Resolution, Source, Warning};
pub use shell::{shell_named, ShellKind};
pub use timestamp::{checked_timestamp, timestamp, HTTP_DATE_END};

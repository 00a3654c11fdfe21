//! The settings document: a YAML mapping with a handful of scalar keys.
//!
//! The YAML itself is read by `serde_yaml`. This module says which keys are
//! looked up and as what, and holds what was found as plain values.

use vstd::prelude::*;
use crate::config::text_of;

verus! {

/// Trusted: makes `serde_yaml::Value`, any YAML value, known as an opaque type.
#[verifier::external_type_specification]
#[verifier::external_body]
pub struct ExYamlValue(serde_yaml::Value);

/// Trusted: makes `serde_yaml::Error`, what the YAML reader fails with, known
/// as an opaque type.
#[verifier::external_type_specification]
#[verifier::external_body]
pub struct ExYamlError(serde_yaml::Error);

/// The value that the YAML text `text` writes, if it is one document that
/// `serde_yaml` can read.
pub uninterp spec fn yaml_document(text: Seq<char>) -> Option<serde_yaml::Value>;

/// The value that the mapping `doc` holds under the string key `key`, if it is
/// a mapping and has that key.
pub uninterp spec fn yaml_entry(doc: serde_yaml::Value, key: Seq<char>) -> Option<
    serde_yaml::Value,
>;

/// The integer that `value` is, if it is one that fits an `i64`.
pub uninterp spec fn yaml_int(value: serde_yaml::Value) -> Option<i64>;

/// The integer that `value` is, if it is one that fits a `u64`.
pub uninterp spec fn yaml_uint(value: serde_yaml::Value) -> Option<u64>;

/// The characters of `value`, if it is a string.
pub uninterp spec fn yaml_text(value: serde_yaml::Value) -> Option<Seq<char>>;

/// Trusted: calls `serde_yaml::from_str` for a `serde_yaml::Value`.
///
/// The outcome depends on the text alone: it is the value that `text` writes,
/// or an error where `text` is not one readable YAML document.
#[verifier::external_body]
fn read_yaml(text: &str) -> (outcome: Result<serde_yaml::Value, serde_yaml::Error>)
    ensures
        match outcome {
            Ok(doc) => yaml_document(text@) == Some(doc),
            Err(_) => yaml_document(text@) is None,
        },
{
    serde_yaml::from_str::<serde_yaml::Value>(text)
}

/// Trusted: writes a `serde_yaml::Error` out through its `Display` impl.
/// Nothing is claimed of the wording.
#[verifier::external_body]
fn describe(error: &serde_yaml::Error) -> (message: String) {
    error.to_string()
}

/// Trusted: calls `serde_yaml::Value::get` with a string key, which looks the
/// key up if `doc` is a mapping and finds nothing in any other value.
#[verifier::external_body]
fn entry<'a>(doc: &'a serde_yaml::Value, key: &str) -> (found: Option<&'a serde_yaml::Value>)
    ensures
        match found {
            Some(value) => yaml_entry(*doc, key@) == Some(*value),
            None => yaml_entry(*doc, key@) is None,
        },
{
    doc.get(key)
}

/// Trusted: calls `serde_yaml::Value::as_i64`, which gives the number if
/// `value` is an integer that fits an `i64`.
#[verifier::external_body]
fn as_int(value: &serde_yaml::Value) -> (number: Option<i64>)
    ensures
        number == yaml_int(*value),
{
    value.as_i64()
}

/// Trusted: calls `serde_yaml::Value::as_u64`, which gives the number if
/// `value` is an integer that fits a `u64`.
#[verifier::external_body]
fn as_uint(value: &serde_yaml::Value) -> (number: Option<u64>)
    ensures
        number == yaml_uint(*value),
{
    value.as_u64()
}

/// Trusted: calls `serde_yaml::Value::as_str`, which gives the characters if
/// `value` is a string; they are copied into a `String` of their own.
#[verifier::external_body]
fn as_text(value: &serde_yaml::Value) -> (text: Option<String>)
    ensures
        text_of(text) == yaml_text(*value),
{
    value.as_str().map(str::to_owned)
}

/// What a settings document says. A key that is missing, or whose value is of
/// another kind than the one asked for, is absent.
#[derive(Debug, PartialEq, Eq)]
pub struct FileDocument {
    /// `verbose`: the verbosity level.
    pub verbose: Option<i64>,
    /// `port`: the port of the broker.
    pub port: Option<u64>,
    /// `updates`: the seconds between two publishes.
    pub updates: Option<u64>,
    /// `broker`: the host of the broker.
    pub broker: Option<String>,
    /// `user`: the user name for the broker.
    pub user: Option<String>,
    /// `pass`: the password for the broker.
    pub pass: Option<String>,
    /// `topic`: the topic to publish to.
    pub topic: Option<String>,
}

/// A [`FileDocument`] as mathematical values.
pub struct FileDocumentView {
    pub verbose: Option<i64>,
    pub port: Option<u64>,
    pub updates: Option<u64>,
    pub broker: Option<Seq<char>>,
    pub user: Option<Seq<char>>,
    pub pass: Option<Seq<char>>,
    pub topic: Option<Seq<char>>,
}

impl View for FileDocument {
    type V = FileDocumentView;

    open spec fn view(&self) -> FileDocumentView {
        FileDocumentView {
            verbose: self.verbose,
            port: self.port,
            updates: self.updates,
            broker: text_of(self.broker),
            user: text_of(self.user),
            pass: text_of(self.pass),
            topic: text_of(self.topic),
        }
    }
}

impl FileDocumentView {
    /// The document that says nothing.
    pub open spec fn nothing() -> FileDocumentView {
        FileDocumentView {
            verbose: None,
            port: None,
            updates: None,
            broker: None,
            user: None,
            pass: None,
            topic: None,
        }
    }
}

/// A settings text that could not be read.
#[derive(Debug, PartialEq, Eq)]
pub struct DocumentError {
    /// What the YAML reader said of it.
    pub message: String,
}

/// The integer under `key` in `doc`.
pub open spec fn int_at(doc: serde_yaml::Value, key: Seq<char>) -> Option<i64> {
    match yaml_entry(doc, key) {
        Some(value) => yaml_int(value),
        None => None,
    }
}

/// The non-negative integer under `key` in `doc`.
pub open spec fn uint_at(doc: serde_yaml::Value, key: Seq<char>) -> Option<u64> {
    match yaml_entry(doc, key) {
        Some(value) => yaml_uint(value),
        None => None,
    }
}

/// The string under `key` in `doc`.
pub open spec fn text_at(doc: serde_yaml::Value, key: Seq<char>) -> Option<Seq<char>> {
    match yaml_entry(doc, key) {
        Some(value) => yaml_text(value),
        None => None,
    }
}

/// What the YAML value `doc` says as a settings document.
pub open spec fn settings_of(doc: serde_yaml::Value) -> FileDocumentView {
    FileDocumentView {
        verbose: int_at(doc, "verbose"@),
        port: uint_at(doc, "port"@),
        updates: uint_at(doc, "updates"@),
        broker: text_at(doc, "broker"@),
        user: text_at(doc, "user"@),
        pass: text_at(doc, "pass"@),
        topic: text_at(doc, "topic"@),
    }
}

/// What the text `text` says as a settings document, if it is readable YAML.
pub open spec fn document_of(text: Seq<char>) -> Option<FileDocumentView> {
    match yaml_document(text) {
        Some(doc) => Some(settings_of(doc)),
        None => None,
    }
}

fn get_int(doc: &serde_yaml::Value, key: &str) -> (number: Option<i64>)
    ensures
        number == int_at(*doc, key@),
{
    match entry(doc, key) {
        Some(value) => as_int(value),
        None => None,
    }
}

fn get_uint(doc: &serde_yaml::Value, key: &str) -> (number: Option<u64>)
    ensures
        number == uint_at(*doc, key@),
{
    match entry(doc, key) {
        Some(value) => as_uint(value),
        None => None,
    }
}

fn get_text(doc: &serde_yaml::Value, key: &str) -> (text: Option<String>)
    ensures
        text_of(text) == text_at(*doc, key@),
{
    match entry(doc, key) {
        Some(value) => as_text(value),
        None => None,
    }
}

impl FileDocument {
    /// A document that says nothing.
    pub fn empty() -> (document: FileDocument)
        ensures
            document@ == FileDocumentView::nothing(),
    {
        FileDocument {
            verbose: None,
            port: None,
            updates: None,
            broker: None,
            user: None,
            pass: None,
            topic: None,
        }
    }

    /// Picks the settings out of a YAML value that was read already.
    fn from_yaml(doc: &serde_yaml::Value) -> (document: FileDocument)
        ensures
            document@ == settings_of(*doc),
    {
        FileDocument {
            verbose: get_int(doc, "verbose"),
            port: get_uint(doc, "port"),
            updates: get_uint(doc, "updates"),
            broker: get_text(doc, "broker"),
            user: get_text(doc, "user"),
            pass: get_text(doc, "pass"),
            topic: get_text(doc, "topic"),
        }
    }

    /// Reads the settings text `text`. It fails exactly where `text` is not
    /// readable YAML; what the document lacks, or holds as another kind of
    /// value, is absent from the result.
    pub fn parse(text: &str) -> (outcome: Result<FileDocument, DocumentError>)
        ensures
            match outcome {
                Ok(document) => document_of(text@) == Some(document@),
                Err(_) => document_of(text@) is None,
            },
    {
        match read_yaml(text) {
            Ok(doc) => Ok(FileDocument::from_yaml(&doc)),
            Err(error) => Err(DocumentError { message: describe(&error) }),
        }
    }
}

} // verus!

//! Merging the command line, the settings document and the defaults.
//!
//! Each field is resolved on its own: what the command line says wins over
//! what the document says, which wins over the built-in default. A value that
//! cannot be used (a text that is no number, a number that does not fit the
//! field) counts as absent and is reported in a [`Warning`]; resolution itself
//! never fails. The verbosity alone is not overridden but accumulated: it is
//! the larger of what the two sources ask for.

use vstd::prelude::*;
use crate::config::{text_of, Config, ConfigView, DEFAULT_PORT, DEFAULT_UPDATES};
use crate::decimal::{parse_decimal, parse_unsigned};
use crate::document::{FileDocument, FileDocumentView};

verus! {

/// What the command line says. The numbers are still the texts that were
/// typed; `verbose` counts how often the verbosity flag was given.
#[derive(Debug, PartialEq, Eq)]
pub struct CliArgs {
    pub verbose: u64,
    pub broker: Option<String>,
    pub user: Option<String>,
    pub pass: Option<String>,
    /// Where the settings document is to be found.
    pub config: Option<String>,
    pub port: Option<String>,
    pub updates: Option<String>,
    pub topic: Option<String>,
}

/// A [`CliArgs`] as mathematical values.
pub struct CliArgsView {
    pub verbose: u64,
    pub broker: Option<Seq<char>>,
    pub user: Option<Seq<char>>,
    pub pass: Option<Seq<char>>,
    pub config: Option<Seq<char>>,
    pub port: Option<Seq<char>>,
    pub updates: Option<Seq<char>>,
    pub topic: Option<Seq<char>>,
}

impl View for CliArgs {
    type V = CliArgsView;

    open spec fn view(&self) -> CliArgsView {
        CliArgsView {
            verbose: self.verbose,
            broker: text_of(self.broker),
            user: text_of(self.user),
            pass: text_of(self.pass),
            config: text_of(self.config),
            port: text_of(self.port),
            updates: text_of(self.updates),
            topic: text_of(self.topic),
        }
    }
}

impl CliArgsView {
    /// A command line without any argument.
    pub open spec fn none() -> CliArgsView {
        CliArgsView {
            verbose: 0,
            broker: None,
            user: None,
            pass: None,
            config: None,
            port: None,
            updates: None,
            topic: None,
        }
    }
}

/// The source of a value.
#[derive(Clone, Copy, Debug, PartialEq, Eq, Structural)]
pub enum Source {
    CommandLine,
    File,
}

/// The numeric fields: those whose value a source can get wrong.
#[derive(Clone, Copy, Debug, PartialEq, Eq, Structural)]
pub enum Field {
    Verbosity,
    Port,
    Updates,
}

/// `source` gave a value for `field` that could not be used, and the field
/// was resolved without it.
#[derive(Clone, Copy, Debug, PartialEq, Eq, Structural)]
pub struct Warning {
    pub source: Source,
    pub field: Field,
}

/// The outcome of [`resolve`].
#[derive(Debug, PartialEq, Eq)]
pub struct Resolution {
    /// The effective settings.
    pub config: Config,
    /// The values that had to be passed over, in the order verbosity, port,
    /// interval, and for each field the command line before the document.
    pub warnings: Vec<Warning>,
}

/// What the document says, where a missing document says nothing.
pub open spec fn said(file: Option<&FileDocument>) -> FileDocumentView {
    match file {
        Some(document) => document@,
        None => FileDocumentView::nothing(),
    }
}

/// The first of `cli`, `file` and `default` that is there.
pub open spec fn pick<T>(cli: Option<T>, file: Option<T>, default: T) -> T {
    match cli {
        Some(value) => value,
        None => match file {
            Some(value) => value,
            None => default,
        },
    }
}

/// `cli` if it is there, else `file`.
pub open spec fn pick_optional<T>(cli: Option<T>, file: Option<T>) -> Option<T> {
    match cli {
        Some(_) => cli,
        None => file,
    }
}

/// The number that the command-line text `text` gives a field whose largest
/// value is `max`: the one it writes in decimal notation, if it fits.
pub open spec fn cli_number(text: Option<Seq<char>>, max: nat) -> Option<nat> {
    match text {
        Some(t) => parse_unsigned(t, max),
        None => None,
    }
}

/// The number that the document's value `value` gives a field whose largest
/// value is `max`: the value itself, if it fits.
pub open spec fn file_number(value: Option<int>, max: nat) -> Option<nat> {
    match value {
        Some(v) => if 0 <= v <= max {
            Some(v as nat)
        } else {
            None
        },
        None => None,
    }
}

/// An optional signed integer as a mathematical one.
pub open spec fn signed(value: Option<i64>) -> Option<int> {
    match value {
        Some(v) => Some(v as int),
        None => None,
    }
}

/// An optional unsigned integer as a mathematical one.
pub open spec fn unsigned(value: Option<u64>) -> Option<int> {
    match value {
        Some(v) => Some(v as int),
        None => None,
    }
}

/// The warning for what `source` gave for `field`: one if a value was given
/// and cannot be used, none otherwise.
pub open spec fn source_warning(source: Source, field: Field, given: bool, usable: bool) -> Seq<
    Warning,
> {
    if given && !usable {
        seq![Warning { source, field }]
    } else {
        Seq::<Warning>::empty()
    }
}

/// The warnings for the field `field`, to which the command line gave `cli`
/// out of a value if `cli_given`, and the document `file` out of `file_given`.
pub open spec fn field_warnings(
    field: Field,
    cli_given: bool,
    cli: Option<nat>,
    file_given: Option<int>,
    file: Option<nat>,
) -> Seq<Warning> {
    source_warning(Source::CommandLine, field, cli_given, cli is Some) + source_warning(
        Source::File,
        field,
        file_given is Some,
        file is Some,
    )
}

/// The verbosity that the command line asks for: the number of flags, if it
/// fits the field.
pub open spec fn cli_verbose(cli: CliArgsView) -> Option<nat> {
    if cli.verbose <= u8::MAX {
        Some(cli.verbose as nat)
    } else {
        None
    }
}

/// The verbosity that the document asks for.
pub open spec fn file_verbose(file: FileDocumentView) -> Option<nat> {
    file_number(signed(file.verbose), u8::MAX as nat)
}

/// The level that a source asks for: 0 where it says nothing usable.
pub open spec fn level(asked: Option<nat>) -> nat {
    match asked {
        Some(v) => v,
        None => 0,
    }
}

/// The larger of `a` and `b`.
pub open spec fn larger(a: nat, b: nat) -> nat {
    if b > a {
        b
    } else {
        a
    }
}

/// The port that the command line gives.
pub open spec fn cli_port(cli: CliArgsView) -> Option<nat> {
    cli_number(cli.port, u16::MAX as nat)
}

/// The port that the document gives.
pub open spec fn file_port(file: FileDocumentView) -> Option<nat> {
    file_number(unsigned(file.port), u16::MAX as nat)
}

/// The interval that the command line gives.
pub open spec fn cli_updates(cli: CliArgsView) -> Option<nat> {
    cli_number(cli.updates, usize::MAX as nat)
}

/// The interval that the document gives.
pub open spec fn file_updates(file: FileDocumentView) -> Option<nat> {
    file_number(unsigned(file.updates), usize::MAX as nat)
}

/// The settings that the command line `cli` and the document `file` resolve
/// to.
pub open spec fn resolved(cli: CliArgsView, file: FileDocumentView) -> ConfigView {
    let defaults = ConfigView::defaults();
    ConfigView {
        verbose: larger(level(cli_verbose(cli)), level(file_verbose(file))) as u8,
        broker: pick(cli.broker, file.broker, defaults.broker),
        username: pick_optional(cli.user, file.user),
        password: pick_optional(cli.pass, file.pass),
        port: pick(cli_port(cli), file_port(file), defaults.port as nat) as u16,
        updates: pick(cli_updates(cli), file_updates(file), defaults.updates as nat) as usize,
        topic: pick(cli.topic, file.topic, defaults.topic),
        id: defaults.id,
    }
}

/// The warnings that resolving `cli` and `file` gives: for the verbosity, the
/// port and the interval in turn, one for each source whose value cannot be
/// used.
pub open spec fn warnings_of(cli: CliArgsView, file: FileDocumentView) -> Seq<Warning> {
    field_warnings(
        Field::Verbosity,
        true,
        cli_verbose(cli),
        signed(file.verbose),
        file_verbose(file),
    ) + field_warnings(
        Field::Port,
        cli.port is Some,
        cli_port(cli),
        unsigned(file.port),
        file_port(file),
    ) + field_warnings(
        Field::Updates,
        cli.updates is Some,
        cli_updates(cli),
        unsigned(file.updates),
        file_updates(file),
    )
}

/// An optional integer as a mathematical one.
spec fn widened(value: Option<i128>) -> Option<int> {
    match value {
        Some(v) => Some(v as int),
        None => None,
    }
}

fn widen_signed(value: Option<i64>) -> (wide: Option<i128>)
    ensures
        widened(wide) == signed(value),
{
    match value {
        Some(v) => Some(v as i128),
        None => None,
    }
}

fn widen_unsigned(value: Option<u64>) -> (wide: Option<i128>)
    ensures
        widened(wide) == unsigned(value),
{
    match value {
        Some(v) => Some(v as i128),
        None => None,
    }
}

/// Copies an optional string.
fn copy_text(text: &Option<String>) -> (copy: Option<String>)
    ensures
        text_of(copy) == text_of(*text),
{
    match text {
        Some(t) => Some(t.clone()),
        None => None,
    }
}

/// Reads the command-line text of `field` and notes a warning if it cannot be
/// used.
fn read_cli_number(
    text: &Option<String>,
    max: u64,
    field: Field,
    warnings: &mut Vec<Warning>,
) -> (number: Option<u64>)
    ensures
        match cli_number(text_of(*text), max as nat) {
            Some(n) => number == Some(n as u64),
            None => number is None,
        },
        final(warnings)@ == old(warnings)@ + source_warning(
            Source::CommandLine,
            field,
            text is Some,
            number is Some,
        ),
{
    let number = match text {
        Some(t) => parse_decimal(t.as_str(), max),
        None => None,
    };
    if text.is_some() && number.is_none() {
        warnings.push(Warning { source: Source::CommandLine, field });
    }
    assert(final(warnings)@ =~= old(warnings)@ + source_warning(
        Source::CommandLine,
        field,
        text is Some,
        number is Some,
    ));
    number
}

/// Takes the document's value of `field` if it fits and notes a warning if it
/// is there and does not.
fn read_file_number(
    value: Option<i128>,
    max: u64,
    field: Field,
    warnings: &mut Vec<Warning>,
) -> (number: Option<u64>)
    ensures
        match file_number(widened(value), max as nat) {
            Some(n) => number == Some(n as u64),
            None => number is None,
        },
        final(warnings)@ == old(warnings)@ + source_warning(
            Source::File,
            field,
            value is Some,
            number is Some,
        ),
{
    let number = match value {
        Some(v) => if 0 <= v && v <= max as i128 {
            Some(v as u64)
        } else {
            None
        },
        None => None,
    };
    if value.is_some() && number.is_none() {
        warnings.push(Warning { source: Source::File, field });
    }
    assert(final(warnings)@ =~= old(warnings)@ + source_warning(
        Source::File,
        field,
        value is Some,
        number is Some,
    ));
    number
}

/// The first of `cli`, `file` and `default` that is there.
fn pick_number(cli: Option<u64>, file: Option<u64>, default: u64) -> (number: u64)
    ensures
        number == pick(cli, file, default),
{
    match cli {
        Some(value) => value,
        None => match file {
            Some(value) => value,
            None => default,
        },
    }
}

/// The first of `cli` and `file` that is there, copied.
fn pick_text(cli: &Option<String>, file: &Option<String>) -> (text: Option<String>)
    ensures
        text_of(text) == pick_optional(text_of(*cli), text_of(*file)),
{
    match cli {
        Some(value) => Some(value.clone()),
        None => copy_text(file),
    }
}

/// The first of `first` and `default` that is there.
fn text_or(first: Option<String>, default: String) -> (text: String)
    ensures
        text@ == pick(text_of(first), None, default@),
{
    match first {
        Some(value) => value,
        None => default,
    }
}

/// Resolves the verbosity.
fn resolve_verbose(cli: &CliArgs, document: &FileDocument, warnings: &mut Vec<Warning>) -> (verbose:
    u8)
    ensures
        verbose == larger(level(cli_verbose(cli@)), level(file_verbose(document@))),
        final(warnings)@ == old(warnings)@ + field_warnings(
            Field::Verbosity,
            true,
            cli_verbose(cli@),
            signed(document.verbose),
            file_verbose(document@),
        ),
{
    let flags: Option<u64> = if cli.verbose <= u8::MAX as u64 {
        Some(cli.verbose)
    } else {
        warnings.push(Warning { source: Source::CommandLine, field: Field::Verbosity });
        None
    };
    assert(warnings@ =~= old(warnings)@ + source_warning(
        Source::CommandLine,
        Field::Verbosity,
        true,
        cli_verbose(cli@) is Some,
    ));
    let asked = read_file_number(
        widen_signed(document.verbose),
        u8::MAX as u64,
        Field::Verbosity,
        warnings,
    );
    assert(final(warnings)@ =~= old(warnings)@ + field_warnings(
        Field::Verbosity,
        true,
        cli_verbose(cli@),
        signed(document.verbose),
        file_verbose(document@),
    ));
    let a: u64 = pick_number(flags, None, 0);
    let b: u64 = pick_number(asked, None, 0);
    if b > a {
        b as u8
    } else {
        a as u8
    }
}

/// Resolves a field that holds a number of at most `max`.
fn resolve_number(
    cli: &Option<String>,
    file: Option<u64>,
    default: u64,
    max: u64,
    field: Field,
    warnings: &mut Vec<Warning>,
) -> (number: u64)
    requires
        default <= max,
    ensures
        number <= max,
        number == pick(
            cli_number(text_of(*cli), max as nat),
            file_number(unsigned(file), max as nat),
            default as nat,
        ),
        final(warnings)@ == old(warnings)@ + field_warnings(
            field,
            cli is Some,
            cli_number(text_of(*cli), max as nat),
            unsigned(file),
            file_number(unsigned(file), max as nat),
        ),
{
    let from_cli = read_cli_number(cli, max, field, warnings);
    let from_file = read_file_number(widen_unsigned(file), max, field, warnings);
    assert(final(warnings)@ =~= old(warnings)@ + field_warnings(
        field,
        cli is Some,
        cli_number(text_of(*cli), max as nat),
        unsigned(file),
        file_number(unsigned(file), max as nat),
    ));
    pick_number(from_cli, from_file, default)
}

/// Resolves the settings of a run from the command line `cli` and the
/// settings document `file`, which is `None` where there is no readable
/// document. Every field of the result holds a value, and every value that
/// was passed over is named in the warnings.
pub fn resolve(cli: &CliArgs, file: Option<&FileDocument>) -> (resolution: Resolution)
    ensures
        resolution.config@ == resolved(cli@, said(file)),
        resolution.warnings@ == warnings_of(cli@, said(file)),
{
    let defaults = Config::new();
    let nothing = FileDocument::empty();
    let document: &FileDocument = match file {
        Some(document) => document,
        None => &nothing,
    };
    let mut warnings: Vec<Warning> = Vec::new();
    let verbose = resolve_verbose(cli, document, &mut warnings);
    let port = resolve_number(
        &cli.port,
        document.port,
        DEFAULT_PORT as u64,
        u16::MAX as u64,
        Field::Port,
        &mut warnings,
    );
    let updates = resolve_number(
        &cli.updates,
        document.updates,
        DEFAULT_UPDATES as u64,
        usize::MAX as u64,
        Field::Updates,
        &mut warnings,
    );
    let config = Config {
        verbose,
        broker: text_or(pick_text(&cli.broker, &document.broker), defaults.broker),
        username: pick_text(&cli.user, &document.user),
        password: pick_text(&cli.pass, &document.pass),
        port: port as u16,
        updates: updates as usize,
        topic: text_or(pick_text(&cli.topic, &document.topic), defaults.topic),
        id: defaults.id,
    };
    assert(warnings@ =~= warnings_of(cli@, document@));
    Resolution { config, warnings }
}

impl CliArgs {
    /// A command line without any argument.
    pub fn new() -> (cli: CliArgs)
        ensures
            cli@ == CliArgsView::none(),
    {
        CliArgs {
            verbose: 0,
            broker: None,
            user: None,
            pass: None,
            config: None,
            port: None,
            updates: None,
            topic: None,
        }
    }

    /// Where the settings document is looked for: the path that the command
    /// line names, else `config.yaml`.
    pub fn config_path(&self) -> (path: String)
        ensures
            path@ == pick(text_of(self.config), None, "config.yaml"@),
    {
        match &self.config {
            Some(path) => path.clone(),
            None => "config.yaml".to_owned(),
        }
    }
}

/// Precedence, field by field: a value from the command line overrides one
/// from the document, which overrides the default. For the port and the
/// interval a value is one that can be used: a text that writes a number that
/// fits, a number that fits. The client identity is never overridden.
pub proof fn command_line_overrides_file_overrides_default(
    cli: CliArgsView,
    file: FileDocumentView,
)
    ensures
        ({
            let r = resolved(cli, file);
            let d = ConfigView::defaults();
            &&& cli.broker is Some ==> r.broker == cli.broker->0
            &&& cli.broker is None && file.broker is Some ==> r.broker == file.broker->0
            &&& cli.broker is None && file.broker is None ==> r.broker == d.broker
            &&& cli.topic is Some ==> r.topic == cli.topic->0
            &&& cli.topic is None && file.topic is Some ==> r.topic == file.topic->0
            &&& cli.topic is None && file.topic is None ==> r.topic == d.topic
            &&& cli.user is Some ==> r.username == cli.user
            &&& cli.user is None && file.user is Some ==> r.username == file.user
            &&& cli.user is None && file.user is None ==> r.username == d.username
            &&& cli.pass is Some ==> r.password == cli.pass
            &&& cli.pass is None && file.pass is Some ==> r.password == file.pass
            &&& cli.pass is None && file.pass is None ==> r.password == d.password
            &&& cli_port(cli) is Some ==> r.port == cli_port(cli)->0
            &&& cli_port(cli) is None && file_port(file) is Some ==> r.port == file_port(file)->0
            &&& cli_port(cli) is None && file_port(file) is None ==> r.port == d.port
            &&& cli_updates(cli) is Some ==> r.updates == cli_updates(cli)->0
            &&& cli_updates(cli) is None && file_updates(file) is Some ==> r.updates
                == file_updates(file)->0
            &&& cli_updates(cli) is None && file_updates(file) is None ==> r.updates == d.updates
            &&& r.id == d.id
        }),
{
}

/// The verbosity accumulates: with `a` flags on the command line and the
/// level `b` in the document, both within the field's range, it resolves to
/// the larger of the two, and to `a` where the document names no level. No
/// warning comes of it.
pub proof fn verbosity_is_the_larger_level(cli: CliArgsView, file: FileDocumentView, a: nat, b: nat)
    requires
        cli.verbose == a,
        a <= u8::MAX,
        b <= u8::MAX,
        file.verbose is None || file.verbose == Some(b as i64),
    ensures
        file.verbose is Some ==> resolved(cli, file).verbose == larger(a, b),
        file.verbose is None ==> resolved(cli, file).verbose == a,
        field_warnings(
            Field::Verbosity,
            true,
            cli_verbose(cli),
            signed(file.verbose),
            file_verbose(file),
        ) =~= Seq::<Warning>::empty(),
{
}

/// A value that cannot be used is passed over, which is never fatal: where
/// the command line's port is no number that fits and the document's port is
/// one, the document's port is taken, and the warnings name the command
/// line's port and not the document's.
pub proof fn unusable_port_falls_back_to_the_document(
    cli: CliArgsView,
    file: FileDocumentView,
    port: u16,
)
    requires
        cli.port is Some,
        parse_unsigned(cli.port->0, u16::MAX as nat) is None,
        file.port == Some(port as u64),
    ensures
        resolved(cli, file).port == port,
        warnings_of(cli, file).contains(
            Warning { source: Source::CommandLine, field: Field::Port },
        ),
        !warnings_of(cli, file).contains(Warning { source: Source::File, field: Field::Port }),
{
    let before = field_warnings(
        Field::Verbosity,
        true,
        cli_verbose(cli),
        signed(file.verbose),
        file_verbose(file),
    );
    let noted = Warning { source: Source::CommandLine, field: Field::Port };
    assert(warnings_of(cli, file)[before.len() as int] == noted);
}

/// Without arguments and without a document, or with one that says nothing,
/// every field is the default and nothing is warned of.
pub proof fn no_source_gives_the_defaults()
    ensures
        resolved(CliArgsView::none(), FileDocumentView::nothing()) == ConfigView::defaults(),
        warnings_of(CliArgsView::none(), FileDocumentView::nothing()) =~= Seq::<Warning>::empty(),
{
}

} // verus!

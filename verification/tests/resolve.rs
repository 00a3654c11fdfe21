use timedumper::{resolve, CliArgs, Config, Field, FileDocument, Source, Warning};

fn text(s: &str) -> Option<String> {
    Some(String::from(s))
}

fn cli_port_warning() -> Warning {
    Warning { source: Source::CommandLine, field: Field::Port }
}

#[test]
fn nothing_given_resolves_to_the_defaults() {
    let resolution = resolve(&CliArgs::new(), None);
    assert_eq!(resolution.config, Config::new());
    assert!(resolution.warnings.is_empty());
}

#[test]
fn an_empty_document_resolves_to_the_defaults() {
    let resolution = resolve(&CliArgs::new(), Some(&FileDocument::empty()));
    assert_eq!(resolution.config, Config::new());
    assert!(resolution.warnings.is_empty());
}

#[test]
fn a_corrupt_document_resolves_to_the_defaults() {
    let parsed = FileDocument::parse("port: [1, 2\n");
    assert!(parsed.is_err());
    let resolution = resolve(&CliArgs::new(), parsed.as_ref().ok());
    assert_eq!(resolution.config, Config::new());
    assert!(resolution.warnings.is_empty());
}

#[test]
fn broker_cli_and_file() {
    let mut cli = CliArgs::new();
    cli.broker = text("cli.example.org");
    let mut file = FileDocument::empty();
    file.broker = text("file.example.org");
    assert_eq!(resolve(&cli, Some(&file)).config.broker, "cli.example.org");
}

#[test]
fn broker_cli_only() {
    let mut cli = CliArgs::new();
    cli.broker = text("cli.example.org");
    assert_eq!(resolve(&cli, Some(&FileDocument::empty())).config.broker, "cli.example.org");
    assert_eq!(resolve(&cli, None).config.broker, "cli.example.org");
}

#[test]
fn broker_file_only() {
    let mut file = FileDocument::empty();
    file.broker = text("file.example.org");
    assert_eq!(resolve(&CliArgs::new(), Some(&file)).config.broker, "file.example.org");
}

#[test]
fn broker_neither() {
    assert_eq!(resolve(&CliArgs::new(), Some(&FileDocument::empty())).config.broker, "localhost");
    assert_eq!(resolve(&CliArgs::new(), None).config.broker, "localhost");
}

#[test]
fn topic_in_all_combinations() {
    let mut cli = CliArgs::new();
    cli.topic = text("cli/topic");
    let mut file = FileDocument::empty();
    file.topic = text("file/topic");
    assert_eq!(resolve(&cli, Some(&file)).config.topic, "cli/topic");
    assert_eq!(resolve(&cli, Some(&FileDocument::empty())).config.topic, "cli/topic");
    assert_eq!(resolve(&cli, None).config.topic, "cli/topic");
    assert_eq!(resolve(&CliArgs::new(), Some(&file)).config.topic, "file/topic");
    assert_eq!(resolve(&CliArgs::new(), Some(&FileDocument::empty())).config.topic, "time");
    assert_eq!(resolve(&CliArgs::new(), None).config.topic, "time");
}

#[test]
fn port_in_all_combinations() {
    let mut cli = CliArgs::new();
    cli.port = text("1884");
    let mut file = FileDocument::empty();
    file.port = Some(8883);
    assert_eq!(resolve(&cli, Some(&file)).config.port, 1884);
    assert_eq!(resolve(&cli, Some(&FileDocument::empty())).config.port, 1884);
    assert_eq!(resolve(&cli, None).config.port, 1884);
    assert_eq!(resolve(&CliArgs::new(), Some(&file)).config.port, 8883);
    assert_eq!(resolve(&CliArgs::new(), Some(&FileDocument::empty())).config.port, 1883);
    assert_eq!(resolve(&CliArgs::new(), None).config.port, 1883);
}

#[test]
fn updates_in_all_combinations() {
    let mut cli = CliArgs::new();
    cli.updates = text("60");
    let mut file = FileDocument::empty();
    file.updates = Some(30);
    assert_eq!(resolve(&cli, Some(&file)).config.updates, 60);
    assert_eq!(resolve(&cli, Some(&FileDocument::empty())).config.updates, 60);
    assert_eq!(resolve(&cli, None).config.updates, 60);
    assert_eq!(resolve(&CliArgs::new(), Some(&file)).config.updates, 30);
    assert_eq!(resolve(&CliArgs::new(), Some(&FileDocument::empty())).config.updates, 5);
    assert_eq!(resolve(&CliArgs::new(), None).config.updates, 5);
}

#[test]
fn user_name_in_all_combinations() {
    let mut cli = CliArgs::new();
    cli.user = text("cli-user");
    let mut file = FileDocument::empty();
    file.user = text("file-user");
    assert_eq!(resolve(&cli, Some(&file)).config.username, text("cli-user"));
    assert_eq!(resolve(&cli, None).config.username, text("cli-user"));
    assert_eq!(resolve(&CliArgs::new(), Some(&file)).config.username, text("file-user"));
    assert_eq!(resolve(&CliArgs::new(), Some(&FileDocument::empty())).config.username, None);
    assert_eq!(resolve(&CliArgs::new(), None).config.username, None);
}

#[test]
fn password_in_all_combinations() {
    let mut cli = CliArgs::new();
    cli.pass = text("cli-pass");
    let mut file = FileDocument::empty();
    file.pass = text("file-pass");
    assert_eq!(resolve(&cli, Some(&file)).config.password, text("cli-pass"));
    assert_eq!(resolve(&cli, None).config.password, text("cli-pass"));
    assert_eq!(resolve(&CliArgs::new(), Some(&file)).config.password, text("file-pass"));
    assert_eq!(resolve(&CliArgs::new(), Some(&FileDocument::empty())).config.password, None);
    assert_eq!(resolve(&CliArgs::new(), None).config.password, None);
}

#[test]
fn user_name_and_password_are_not_mixed_up() {
    let mut file = FileDocument::empty();
    file.user = text("alice");
    file.pass = text("secret");
    let config = resolve(&CliArgs::new(), Some(&file)).config;
    assert_eq!(config.username, text("alice"));
    assert_eq!(config.password, text("secret"));

    let mut only_user = FileDocument::empty();
    only_user.user = text("alice");
    let config = resolve(&CliArgs::new(), Some(&only_user)).config;
    assert_eq!(config.username, text("alice"));
    assert_eq!(config.password, None);
}

#[test]
fn each_field_is_resolved_on_its_own() {
    let mut cli = CliArgs::new();
    cli.broker = text("cli.example.org");
    let mut file = FileDocument::empty();
    file.port = Some(8883);
    file.broker = text("file.example.org");
    let config = resolve(&cli, Some(&file)).config;
    assert_eq!(config.broker, "cli.example.org");
    assert_eq!(config.port, 8883);
    assert_eq!(config.topic, "time");
}

#[test]
fn the_client_identity_is_never_overridden() {
    let mut cli = CliArgs::new();
    cli.broker = text("cli.example.org");
    cli.user = text("someone");
    cli.topic = text("else");
    let mut file = FileDocument::empty();
    file.user = text("other");
    assert_eq!(resolve(&cli, Some(&file)).config.id, "timedumper");
}

#[test]
fn verbosity_is_the_larger_of_flags_and_document() {
    let mut cli = CliArgs::new();
    cli.verbose = 1;
    let mut file = FileDocument::empty();
    file.verbose = Some(3);
    let resolution = resolve(&cli, Some(&file));
    assert_eq!(resolution.config.verbose, 3);
    assert!(resolution.warnings.is_empty());

    cli.verbose = 4;
    assert_eq!(resolve(&cli, Some(&file)).config.verbose, 4);
    cli.verbose = 3;
    assert_eq!(resolve(&cli, Some(&file)).config.verbose, 3);
}

#[test]
fn verbosity_without_a_document_is_the_number_of_flags() {
    let mut cli = CliArgs::new();
    cli.verbose = 2;
    assert_eq!(resolve(&cli, None).config.verbose, 2);
    assert_eq!(resolve(&cli, Some(&FileDocument::empty())).config.verbose, 2);
}

#[test]
fn verbosity_from_the_document_alone() {
    let mut file = FileDocument::empty();
    file.verbose = Some(255);
    assert_eq!(resolve(&CliArgs::new(), Some(&file)).config.verbose, 255);
}

#[test]
fn a_verbosity_that_does_not_fit_is_passed_over() {
    let mut cli = CliArgs::new();
    cli.verbose = 256;
    let mut file = FileDocument::empty();
    file.verbose = Some(3);
    let resolution = resolve(&cli, Some(&file));
    assert_eq!(resolution.config.verbose, 3);
    assert_eq!(
        resolution.warnings,
        vec![Warning { source: Source::CommandLine, field: Field::Verbosity }]
    );

    cli.verbose = 2;
    file.verbose = Some(-1);
    let resolution = resolve(&cli, Some(&file));
    assert_eq!(resolution.config.verbose, 2);
    assert_eq!(
        resolution.warnings,
        vec![Warning { source: Source::File, field: Field::Verbosity }]
    );

    file.verbose = Some(300);
    assert_eq!(resolve(&CliArgs::new(), Some(&file)).config.verbose, 0);
}

#[test]
fn an_unparsable_port_falls_back_to_the_document() {
    let mut cli = CliArgs::new();
    cli.port = text("abc");
    let mut file = FileDocument::empty();
    file.port = Some(8883);
    let resolution = resolve(&cli, Some(&file));
    assert_eq!(resolution.config.port, 8883);
    assert_eq!(resolution.warnings, vec![cli_port_warning()]);
}

#[test]
fn an_unparsable_port_without_a_document_falls_back_to_the_default() {
    let mut cli = CliArgs::new();
    cli.port = text("abc");
    let resolution = resolve(&cli, None);
    assert_eq!(resolution.config.port, 1883);
    assert_eq!(resolution.warnings, vec![cli_port_warning()]);
}

#[test]
fn a_port_that_does_not_fit_is_passed_over() {
    let mut cli = CliArgs::new();
    cli.port = text("65536");
    let mut file = FileDocument::empty();
    file.port = Some(70000);
    let resolution = resolve(&cli, Some(&file));
    assert_eq!(resolution.config.port, 1883);
    assert_eq!(
        resolution.warnings,
        vec![cli_port_warning(), Warning { source: Source::File, field: Field::Port }]
    );

    cli.port = text("65535");
    let resolution = resolve(&cli, None);
    assert_eq!(resolution.config.port, 65535);
    assert!(resolution.warnings.is_empty());
}

#[test]
fn an_unparsable_interval_falls_back() {
    let mut cli = CliArgs::new();
    cli.updates = text("soon");
    let mut file = FileDocument::empty();
    file.updates = Some(30);
    let resolution = resolve(&cli, Some(&file));
    assert_eq!(resolution.config.updates, 30);
    assert_eq!(
        resolution.warnings,
        vec![Warning { source: Source::CommandLine, field: Field::Updates }]
    );
    assert_eq!(resolve(&cli, None).config.updates, 5);
}

#[test]
fn warnings_come_in_the_order_of_the_fields() {
    let mut cli = CliArgs::new();
    cli.verbose = 1000;
    cli.port = text("-1");
    cli.updates = text("");
    let mut file = FileDocument::empty();
    file.verbose = Some(-7);
    file.port = Some(65536);
    let resolution = resolve(&cli, Some(&file));
    assert_eq!(resolution.config.verbose, 0);
    assert_eq!(resolution.config.port, 1883);
    assert_eq!(resolution.config.updates, 5);
    assert_eq!(
        resolution.warnings,
        vec![
            Warning { source: Source::CommandLine, field: Field::Verbosity },
            Warning { source: Source::File, field: Field::Verbosity },
            Warning { source: Source::CommandLine, field: Field::Port },
            Warning { source: Source::File, field: Field::Port },
            Warning { source: Source::CommandLine, field: Field::Updates },
        ]
    );
}

#[test]
fn a_document_read_from_text_is_resolved() {
    let file = FileDocument::parse("verbose: 3\nport: 8883\nbroker: mqtt.example.org\n").unwrap();
    let mut cli = CliArgs::new();
    cli.verbose = 1;
    cli.port = text("abc");
    let resolution = resolve(&cli, Some(&file));
    assert_eq!(resolution.config.verbose, 3);
    assert_eq!(resolution.config.port, 8883);
    assert_eq!(resolution.config.broker, "mqtt.example.org");
    assert_eq!(resolution.config.updates, 5);
    assert_eq!(resolution.warnings, vec![cli_port_warning()]);
}

#[test]
fn the_document_is_looked_for_at_config_yaml() {
    assert_eq!(CliArgs::new().config_path(), "config.yaml");
    let mut cli = CliArgs::new();
    cli.config = text("/etc/beacon.yaml");
    assert_eq!(cli.config_path(), "/etc/beacon.yaml");
}

#[test]
fn a_command_line_without_arguments_holds_nothing() {
    let cli = CliArgs::new();
    assert_eq!(cli.verbose, 0);
    assert_eq!(cli.broker, None);
    assert_eq!(cli.user, None);
    assert_eq!(cli.pass, None);
    assert_eq!(cli.config, None);
    assert_eq!(cli.port, None);
    assert_eq!(cli.updates, None);
    assert_eq!(cli.topic, None);
}

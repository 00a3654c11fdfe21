use timedumper::Config;

#[test]
fn new_holds_the_built_in_settings() {
    let config = Config::new();
    assert_eq!(config.verbose, 0);
    assert_eq!(config.broker, "localhost");
    assert_eq!(config.username, None);
    assert_eq!(config.password, None);
    assert_eq!(config.port, 1883);
    assert_eq!(config.updates, 5);
    assert_eq!(config.topic, "time");
    assert_eq!(config.id, "timedumper");
}

#[test]
fn default_is_new() {
    assert_eq!(Config::default(), Config::new());
}

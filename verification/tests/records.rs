use log_facade::level::Level;
use log_facade::record::Record;

#[test]
fn builder_defaults_are_sensible() {
    let record = Record::builder().build();
    assert_eq!(record.level(), Level::Info);
    assert_eq!(record.target(), "");
    assert_eq!(record.message(), "");
    assert_eq!(record.module(), None);
    assert_eq!(record.file(), None);
    assert_eq!(record.line(), None);
    assert!(record.key_values().is_empty());
}

#[test]
fn builder_accumulates_every_field() {
    let kvs = vec![
        (String::from("peer"), String::from("10.0.0.1")),
        (String::from("retries"), String::from("3")),
    ];
    let record = Record::builder()
        .level(Level::Debug)
        .target("network")
        .module(Some("my_app::net"))
        .file(Some("net.rs"))
        .line(Some(99))
        .message("handshake")
        .key_values(kvs.clone())
        .build();
    assert_eq!(record.level(), Level::Debug);
    assert_eq!(record.target(), "network");
    assert_eq!(record.module(), Some("my_app::net"));
    assert_eq!(record.file(), Some("net.rs"));
    assert_eq!(record.line(), Some(99));
    assert_eq!(record.message(), "handshake");
    assert_eq!(record.key_values(), &kvs);
}

#[test]
fn later_builder_calls_override_earlier_ones() {
    let record = Record::builder()
        .level(Level::Warn)
        .level(Level::Error)
        .target("first")
        .target("second")
        .module(Some("m"))
        .module(None)
        .build();
    assert_eq!(record.level(), Level::Error);
    assert_eq!(record.target(), "second");
    assert_eq!(record.module(), None);
}

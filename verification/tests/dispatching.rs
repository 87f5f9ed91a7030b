use log_facade::backend::{MemoryBackend, NopBackend};
use log_facade::dispatch::{
    enabled, log, log_enabled, log_event, log_impl, LevelDebug, LevelError, LevelInfo, LevelTrace,
    LevelWarn, NonGenericArgs,
};
use log_facade::dispatch::Level as LevelArg;
use log_facade::level::{Level, LevelFilter};
use log_facade::registry::Registry;

fn all_levels() -> [Level; 5] {
    [Level::Error, Level::Warn, Level::Info, Level::Debug, Level::Trace]
}

fn all_filters() -> [LevelFilter; 6] {
    [
        LevelFilter::Off,
        LevelFilter::Error,
        LevelFilter::Warn,
        LevelFilter::Info,
        LevelFilter::Debug,
        LevelFilter::Trace,
    ]
}

#[test]
fn filtering_is_the_conjunction_of_both_ceilings() {
    // Every combination of static ceiling, dynamic ceiling, and event
    // level: dispatch happens exactly when the level passes both.
    for static_max in all_filters() {
        for dynamic_max in all_filters() {
            for level in all_levels() {
                let mut reg: Registry<MemoryBackend> = Registry::new(static_max, false);
                reg.register(MemoryBackend::new(), dynamic_max).unwrap();
                log_event(&mut reg, level, None, "m", "f", 1, None, || String::from("x"));
                let expected = level.as_usize() <= static_max.as_usize()
                    && level.as_usize() <= dynamic_max.as_usize();
                let got = reg.active_backend().unwrap().len() == 1;
                assert_eq!(
                    got, expected,
                    "static {static_max:?}, dynamic {dynamic_max:?}, level {level:?}"
                );
            }
        }
    }
}

#[test]
fn disabled_calls_evaluate_no_arguments() {
    // The message closure of a filtered-out call must never run.
    let mut reg: Registry<MemoryBackend> = Registry::new(LevelFilter::Trace, false);
    reg.register(MemoryBackend::new(), LevelFilter::Warn).unwrap();
    let mut evaluations = 0;
    for _ in 0..10 {
        log_event(&mut reg, Level::Debug, None, "m", "f", 1, None, || {
            evaluations += 1;
            String::from("never formatted")
        });
    }
    assert_eq!(evaluations, 0);
    assert_eq!(reg.active_backend().unwrap().len(), 0);
    // An enabled call evaluates the closure exactly once.
    log_event(&mut reg, Level::Warn, None, "m", "f", 1, None, || {
        evaluations += 1;
        String::from("formatted once")
    });
    assert_eq!(evaluations, 1);
    assert_eq!(reg.active_backend().unwrap().len(), 1);
}

#[test]
fn no_backend_means_silent_drop() {
    // Logging before any backend registers is a normal, supported state.
    let mut reg: Registry<MemoryBackend> = Registry::new(LevelFilter::Trace, false);
    reg.set_dynamic_max_level(LevelFilter::Trace);
    log_event(&mut reg, Level::Info, None, "m", "f", 1, None, || String::from("dropped"));
    assert!(reg.active_backend().is_none());
}

#[test]
fn warn_event_reaches_backend_with_module_target() {
    let mut reg: Registry<MemoryBackend> = Registry::new(LevelFilter::Trace, false);
    reg.register(MemoryBackend::new(), LevelFilter::Info).unwrap();
    let port = 22;
    log_event(&mut reg, Level::Warn, None, "my_app::net", "net.rs", 17, None, || {
        format!("no connection on port {port}")
    });
    let backend = reg.active_backend().unwrap();
    assert_eq!(backend.len(), 1);
    let record = &backend.records()[0];
    assert_eq!(record.level(), Level::Warn);
    assert_eq!(record.target(), "my_app::net");
    assert_eq!(record.module(), Some("my_app::net"));
    assert_eq!(record.file(), Some("net.rs"));
    assert_eq!(record.line(), Some(17));
    assert_eq!(record.message(), "no connection on port 22");
    assert!(record.key_values().is_empty());
}

#[test]
fn raising_the_dynamic_level_enables_later_calls() {
    let mut reg: Registry<MemoryBackend> = Registry::new(LevelFilter::Trace, false);
    reg.register(MemoryBackend::new(), LevelFilter::Error).unwrap();
    log_event(&mut reg, Level::Info, None, "m", "f", 1, None, || String::from("first"));
    assert_eq!(reg.active_backend().unwrap().len(), 0);
    reg.set_dynamic_max_level(LevelFilter::Debug);
    log_event(&mut reg, Level::Info, None, "m", "f", 1, None, || String::from("second"));
    let backend = reg.active_backend().unwrap();
    assert_eq!(backend.len(), 1);
    assert_eq!(backend.records()[0].message(), "second");
}

#[test]
fn explicit_target_and_fields_are_kept_in_order() {
    let mut reg: Registry<MemoryBackend> = Registry::new(LevelFilter::Trace, true);
    reg.register(MemoryBackend::new(), LevelFilter::Trace).unwrap();
    let fields = [("peer", "10.0.0.1"), ("retries", "3")];
    log_event(&mut reg, Level::Info, Some("network"), "my_app::net", "net.rs", 9, Some(&fields), || {
        String::from("retrying")
    });
    let backend = reg.active_backend().unwrap();
    assert_eq!(backend.len(), 1);
    let record = &backend.records()[0];
    assert_eq!(record.target(), "network");
    let kvs = record.key_values();
    assert_eq!(kvs.len(), 2);
    assert_eq!(kvs[0], (String::from("peer"), String::from("10.0.0.1")));
    assert_eq!(kvs[1], (String::from("retries"), String::from("3")));
}

#[test]
fn generic_log_resolves_target_level_and_fields() {
    let mut reg: Registry<MemoryBackend> = Registry::new(LevelFilter::Trace, true);
    reg.register(MemoryBackend::new(), LevelFilter::Trace).unwrap();
    let args = NonGenericArgs {
        module_and_file: ("my_app::core", "core.rs"),
        line: 41,
        message: "resolved",
    };
    // Explicit target, static level marker, explicit fields.
    let fields: &[(&str, &str)] = &[("key", "value")];
    log(&mut reg, &args, "routed", LevelWarn, fields);
    // Default target, dynamic level, no fields.
    log(&mut reg, &args, (), Level::Trace, ());
    let backend = reg.active_backend().unwrap();
    assert_eq!(backend.len(), 2);
    let first = &backend.records()[0];
    assert_eq!(first.level(), Level::Warn);
    assert_eq!(first.target(), "routed");
    assert_eq!(first.key_values()[0], (String::from("key"), String::from("value")));
    let second = &backend.records()[1];
    assert_eq!(second.level(), Level::Trace);
    assert_eq!(second.target(), "my_app::core");
    assert_eq!(second.module(), Some("my_app::core"));
    assert_eq!(second.file(), Some("core.rs"));
    assert_eq!(second.line(), Some(41));
    assert!(second.key_values().is_empty());
}

#[test]
fn log_impl_dispatches_unconditionally() {
    // Filtering belongs to the callers of this step, so a call that
    // reaches it is delivered even under an `Off` ceiling.
    let mut reg: Registry<MemoryBackend> = Registry::new(LevelFilter::Off, false);
    reg.register(MemoryBackend::new(), LevelFilter::Off).unwrap();
    let args = NonGenericArgs { module_and_file: ("m", "f"), line: 1, message: "direct" };
    log_impl(&mut reg, &args, "t", Level::Error, None);
    assert_eq!(reg.active_backend().unwrap().len(), 1);
}

#[test]
fn static_level_markers_fix_the_level() {
    assert_eq!(LevelError.into_level(), Level::Error);
    assert_eq!(LevelWarn.into_level(), Level::Warn);
    assert_eq!(LevelInfo.into_level(), Level::Info);
    assert_eq!(LevelDebug.into_level(), Level::Debug);
    assert_eq!(LevelTrace.into_level(), Level::Trace);
    assert_eq!(Level::Info.into_level(), Level::Info);
}

#[test]
fn enabled_asks_the_backend() {
    let mut accepting: Registry<MemoryBackend> = Registry::new(LevelFilter::Trace, false);
    // Unset: nothing is enabled.
    assert!(!enabled(&accepting, Level::Error, "t"));
    accepting.register(MemoryBackend::new(), LevelFilter::Info).unwrap();
    assert!(enabled(&accepting, Level::Trace, "t"));

    let mut refusing: Registry<NopBackend> = Registry::new(LevelFilter::Trace, false);
    refusing.register(NopBackend::new(), LevelFilter::Trace).unwrap();
    assert!(!enabled(&refusing, Level::Error, "t"));
}

#[test]
fn log_enabled_combines_ceilings_and_backend() {
    let mut reg: Registry<MemoryBackend> = Registry::new(LevelFilter::Info, false);
    reg.register(MemoryBackend::new(), LevelFilter::Warn).unwrap();
    assert!(log_enabled(&reg, Level::Error, "t"));
    assert!(log_enabled(&reg, Level::Warn, "t"));
    // Passes the static ceiling but not the dynamic one.
    assert!(!log_enabled(&reg, Level::Info, "t"));
    // Passes neither.
    assert!(!log_enabled(&reg, Level::Trace, "t"));

    let mut refusing: Registry<NopBackend> = Registry::new(LevelFilter::Trace, false);
    refusing.register(NopBackend::new(), LevelFilter::Trace).unwrap();
    // Ceilings pass but the backend itself accepts nothing.
    assert!(!log_enabled(&refusing, Level::Error, "t"));
}

#[test]
fn per_level_entry_points_log_at_their_level() {
    let mut reg: Registry<MemoryBackend> = Registry::new(LevelFilter::Trace, false);
    reg.register(MemoryBackend::new(), LevelFilter::Trace).unwrap();
    log_facade::dispatch::error(&mut reg, None, "m", "f", 1, None, || String::from("e"));
    log_facade::dispatch::warn(&mut reg, None, "m", "f", 2, None, || String::from("w"));
    log_facade::dispatch::info(&mut reg, None, "m", "f", 3, None, || String::from("i"));
    log_facade::dispatch::debug(&mut reg, None, "m", "f", 4, None, || String::from("d"));
    log_facade::dispatch::trace(&mut reg, None, "m", "f", 5, None, || String::from("t"));
    let backend = reg.active_backend().unwrap();
    assert_eq!(backend.len(), 5);
    let expected = [
        (Level::Error, "e"),
        (Level::Warn, "w"),
        (Level::Info, "i"),
        (Level::Debug, "d"),
        (Level::Trace, "t"),
    ];
    for (record, (level, message)) in backend.records().iter().zip(expected) {
        assert_eq!(record.level(), level);
        assert_eq!(record.message(), message);
    }
}

#[test]
fn nop_backend_swallows_records() {
    let mut reg: Registry<NopBackend> = Registry::new(LevelFilter::Trace, false);
    reg.register(NopBackend::new(), LevelFilter::Trace).unwrap();
    log_event(&mut reg, Level::Error, None, "m", "f", 1, None, || String::from("gone"));
    assert!(reg.active_backend().is_some());
}

use log_facade::backend::{MemoryBackend, NopBackend};
use log_facade::dispatch::log_event;
use log_facade::level::{Level, LevelFilter};
use log_facade::registry::Registry;

#[test]
fn fresh_registry_is_unset_and_off() {
    let reg: Registry<MemoryBackend> = Registry::new(LevelFilter::Trace, false);
    assert!(reg.active_backend().is_none());
    assert_eq!(reg.current_dynamic_max_level(), LevelFilter::Off);
    assert_eq!(reg.static_max_level(), LevelFilter::Trace);
    assert!(!reg.kv_supported());
}

#[test]
fn default_registry_compiles_everything_in() {
    let reg: Registry<MemoryBackend> = Registry::default();
    assert!(reg.active_backend().is_none());
    assert_eq!(reg.static_max_level(), LevelFilter::Trace);
    assert_eq!(reg.current_dynamic_max_level(), LevelFilter::Off);
    assert!(!reg.kv_supported());
}

#[test]
fn registration_is_exactly_once() {
    let mut reg: Registry<MemoryBackend> = Registry::new(LevelFilter::Trace, false);
    let attempts = 5;
    let mut successes = 0;
    let mut failures = 0;
    for i in 0..attempts {
        // Each attempt asks for a different dynamic maximum, so the winner
        // is visible afterwards.
        let wanted = if i == 0 { LevelFilter::Info } else { LevelFilter::Trace };
        match reg.register(MemoryBackend::new(), wanted) {
            Ok(()) => successes += 1,
            Err(e) => {
                failures += 1;
                assert_eq!(
                    e.description(),
                    "attempted to register a backend after one was already registered"
                );
            }
        }
    }
    assert_eq!(successes, 1);
    assert_eq!(failures, attempts - 1);
    // The registry still reflects the single successful attempt.
    assert_eq!(reg.current_dynamic_max_level(), LevelFilter::Info);
    assert!(reg.active_backend().is_some());
}

#[test]
fn registered_backend_receives_later_events() {
    let mut reg: Registry<MemoryBackend> = Registry::new(LevelFilter::Trace, false);
    reg.register(MemoryBackend::new(), LevelFilter::Info).unwrap();
    // A losing attempt must not replace the backend: events still land in
    // the first backend's history.
    assert!(reg.register(MemoryBackend::new(), LevelFilter::Off).is_err());
    log_event(&mut reg, Level::Info, None, "mod_a", "file_a", 3, None, || {
        String::from("kept")
    });
    let backend = reg.active_backend().unwrap();
    assert_eq!(backend.len(), 1);
    assert_eq!(backend.records()[0].message(), "kept");
}

#[test]
fn dynamic_level_can_change_any_number_of_times() {
    let mut reg: Registry<NopBackend> = Registry::new(LevelFilter::Trace, false);
    reg.register(NopBackend::new(), LevelFilter::Off).unwrap();
    for filter in [
        LevelFilter::Debug,
        LevelFilter::Off,
        LevelFilter::Error,
        LevelFilter::Trace,
        LevelFilter::Warn,
    ] {
        reg.set_dynamic_max_level(filter);
        assert_eq!(reg.current_dynamic_max_level(), filter);
    }
}

#[test]
fn flush_is_best_effort_and_loses_nothing() {
    let mut reg: Registry<MemoryBackend> = Registry::new(LevelFilter::Trace, false);
    // Flushing an unset registry is a no-op.
    reg.flush();
    reg.register(MemoryBackend::new(), LevelFilter::Trace).unwrap();
    log_event(&mut reg, Level::Debug, None, "m", "f", 1, None, || String::from("a"));
    reg.flush();
    assert_eq!(reg.active_backend().unwrap().len(), 1);
}

use metrics::callsite::{CallSite, LabelExpr, Registration, ValueExpr};
use metrics::identifier::Identifier;
use metrics::log_recorder::{LogEntry, LogRecorder};
use metrics::model::MetricKind;
use metrics::recorder::NoopRecorder;
use metrics::registry::{RecorderHandle, Registry};

fn counter_site(name: &str) -> CallSite {
    CallSite::new(MetricKind::Counter, name.to_string(), Vec::new())
}

fn no_values() -> Vec<String> {
    Vec::new()
}

#[test]
fn try_recorder_empty_until_set() {
    let mut reg: Registry<LogRecorder> = Registry::new();
    assert!(reg.try_recorder().is_none());
    assert!(reg.set_recorder(LogRecorder::new()).is_ok());
    assert!(reg.try_recorder().is_some());
    reg.clear_recorder();
    assert!(reg.try_recorder().is_none());
}

#[test]
fn exactly_one_set_succeeds() {
    let mut reg: Registry<LogRecorder> = Registry::new();
    assert!(reg.set_recorder(LogRecorder::new()).is_ok());
    let second = reg.set_recorder(LogRecorder::new());
    let third = reg.set_recorder(LogRecorder::new());
    assert!(second.is_err());
    assert!(third.is_err());
    assert_eq!(
        second.unwrap_err().description(),
        "attempted to set a recorder after the metrics system was already initialized"
    );
}

#[test]
fn boxed_and_racy_installation() {
    let mut reg: Registry<LogRecorder> = Registry::new();
    assert!(reg.set_boxed_recorder(Box::new(LogRecorder::new())).is_ok());
    assert!(reg.set_boxed_recorder(Box::new(LogRecorder::new())).is_err());

    let mut other: Registry<LogRecorder> = Registry::new();
    assert!(other.set_recorder_racy(LogRecorder::new()).is_ok());
    assert!(other.set_recorder_racy(LogRecorder::new()).is_err());
}

#[test]
fn recorder_returns_installed_until_reset() {
    let mut reg: Registry<LogRecorder> = Registry::new();
    match reg.recorder() {
        RecorderHandle::Noop => {},
        RecorderHandle::Installed(_) => panic!("no recorder was installed"),
    }
    assert!(reg.set_recorder(LogRecorder::new()).is_ok());
    let mut site = counter_site("requests");
    for _ in 0..3 {
        reg.increment(&mut site, &no_values());
        match reg.recorder() {
            RecorderHandle::Installed(rec) => assert!(!rec.entries().is_empty()),
            RecorderHandle::Noop => panic!("the installed recorder must stay visible"),
        }
    }
    reg.clear_recorder();
    match reg.recorder() {
        RecorderHandle::Noop => {},
        RecorderHandle::Installed(_) => panic!("a reset must make the registry uninstalled"),
    }
}

#[test]
fn fast_path_registers_once() {
    let mut reg: Registry<LogRecorder> = Registry::new();
    assert!(reg.set_recorder(LogRecorder::new()).is_ok());
    let mut site = counter_site("requests");
    for _ in 0..3 {
        reg.increment(&mut site, &no_values());
    }
    let cached = site.cached_id().expect("the fast path must cache the identifier");
    let entries = reg.try_recorder().unwrap().entries();
    assert_eq!(entries.len(), 4);
    match &entries[0] {
        LogEntry::Register(kind, key, description, id) => {
            assert_eq!(*kind, MetricKind::Counter);
            assert_eq!(key.name().as_str(), "requests");
            assert!(key.labels().is_empty());
            assert_eq!(*description, None);
            assert_eq!(*id, cached);
        },
        _ => panic!("the first event must be the one registration"),
    }
    for entry in &entries[1..] {
        match entry {
            LogEntry::IncrementCounter(id, value) => {
                assert_eq!(*id, cached);
                assert_eq!(*value, 1);
            },
            _ => panic!("after the registration only increments may follow"),
        }
    }
}

#[test]
fn slow_path_registers_each_call() {
    let mut reg: Registry<LogRecorder> = Registry::new();
    assert!(reg.set_recorder(LogRecorder::new()).is_ok());
    let labels = vec![LabelExpr { name: "status".to_string(), value: ValueExpr::Runtime }];
    let mut site = CallSite::new(MetricKind::Counter, "requests".to_string(), labels);
    assert!(!site.fast_path());
    reg.counter(&mut site, &vec!["ok".to_string()], 1);
    reg.counter(&mut site, &vec!["err".to_string()], 1);
    reg.counter(&mut site, &vec!["ok".to_string()], 1);
    assert_eq!(site.cached_id(), None);
    let entries = reg.try_recorder().unwrap().entries();
    assert_eq!(entries.len(), 6);
    let mut ids: Vec<Identifier> = Vec::new();
    let mut statuses: Vec<String> = Vec::new();
    for pair in entries.chunks(2) {
        match (&pair[0], &pair[1]) {
            (LogEntry::Register(kind, key, None, rid), LogEntry::IncrementCounter(oid, 1)) => {
                assert_eq!(*kind, MetricKind::Counter);
                assert_eq!(key.name().as_str(), "requests");
                assert_eq!(key.labels().len(), 1);
                assert_eq!(key.labels()[0].name().as_str(), "status");
                assert_eq!(oid, rid, "each operation targets its own call's identifier");
                ids.push(*rid);
                statuses.push(key.labels()[0].value().clone());
            },
            _ => panic!("every call must register and then increment"),
        }
    }
    assert_eq!(statuses, vec!["ok", "err", "ok"]);
    assert_ne!(ids[0], ids[1], "distinct keys get distinct identifiers here");
    assert_eq!(ids[0], ids[2], "a key seen before keeps its identifier");
}

#[test]
fn no_backend_is_inert() {
    let mut reg: Registry<LogRecorder> = Registry::new();
    let mut site = counter_site("requests");
    reg.increment(&mut site, &no_values());
    reg.counter(&mut site, &no_values(), 10);
    let registration = Registration::new("requests".to_string(), Some("total"), Vec::new());
    reg.register_counter(&registration, &no_values());
    reg.register_gauge(&registration, &no_values());
    reg.register_histogram(&registration, &no_values());
    assert!(reg.try_recorder().is_none());
    assert_eq!(site.cached_id(), None, "a missing recorder must leave the cache unfilled");
}

#[test]
fn reset_keeps_stale_cache_cells() {
    let mut reg: Registry<LogRecorder> = Registry::new();
    assert!(reg.set_recorder(LogRecorder::new()).is_ok());
    let mut site = counter_site("requests");
    reg.increment(&mut site, &no_values());
    let stale = site.cached_id().expect("the first backend filled the cache");

    reg.clear_recorder();
    assert!(reg.set_recorder(LogRecorder::new()).is_ok(), "a second backend becomes active");

    reg.increment(&mut site, &no_values());
    reg.increment(&mut site, &no_values());
    let entries = reg.try_recorder().unwrap().entries();
    assert_eq!(entries.len(), 2, "the filled cell is not invalidated, so no re-registration");
    for entry in entries {
        match entry {
            LogEntry::IncrementCounter(id, 1) => {
                assert_eq!(*id, stale, "calls keep targeting the stale identifier");
            },
            _ => panic!("the second backend must see only increments"),
        }
    }
}

#[test]
fn registration_entry_points_deduplicate() {
    let mut reg: Registry<LogRecorder> = Registry::new();
    assert!(reg.set_recorder(LogRecorder::new()).is_ok());
    let registration = Registration::scoped("queue", "depth", Some("depth"), Vec::new());
    reg.register_counter(&registration, &no_values());
    reg.register_counter(&registration, &no_values());
    reg.register_gauge(&registration, &no_values());
    let entries = reg.try_recorder().unwrap().entries();
    assert_eq!(entries.len(), 3);
    let ids: Vec<(MetricKind, Option<&'static str>, Identifier)> = entries
        .iter()
        .map(|e| match e {
            LogEntry::Register(kind, key, description, id) => {
                assert_eq!(key.name().as_str(), "queue.depth");
                (*kind, *description, *id)
            },
            _ => panic!("only registrations were requested"),
        })
        .collect();
    assert_eq!(ids[0].0, MetricKind::Counter);
    assert_eq!(ids[0].1, Some("depth"));
    assert_eq!(ids[0].2, ids[1].2, "re-registration of an equal key is answered stably");
    assert_eq!(ids[2].0, MetricKind::Gauge);
    assert_ne!(ids[0].2, ids[2].2, "kinds are deduplicated separately here");
}

#[test]
fn gauge_carries_float_bits_exactly() {
    let mut reg: Registry<LogRecorder> = Registry::new();
    assert!(reg.set_recorder(LogRecorder::new()).is_ok());
    let mut site = CallSite::new(MetricKind::Gauge, "load".to_string(), Vec::new());
    reg.gauge(&mut site, &no_values(), 3.5f64.to_bits());
    let entries = reg.try_recorder().unwrap().entries();
    match &entries[1] {
        LogEntry::UpdateGauge(_, bits) => assert_eq!(f64::from_bits(*bits), 3.5),
        _ => panic!("the gauge update must follow its registration"),
    }
}

#[test]
fn histogram_records_values() {
    let mut reg: Registry<LogRecorder> = Registry::new();
    assert!(reg.set_recorder(LogRecorder::new()).is_ok());
    let mut site = CallSite::new(MetricKind::Histogram, "latency".to_string(), Vec::new());
    reg.histogram(&mut site, &no_values(), 42);
    reg.histogram(&mut site, &no_values(), 7);
    let entries = reg.try_recorder().unwrap().entries();
    assert_eq!(entries.len(), 3);
    match (&entries[1], &entries[2]) {
        (LogEntry::RecordHistogram(a, 42), LogEntry::RecordHistogram(b, 7)) => assert_eq!(a, b),
        _ => panic!("both values must be recorded against the cached identifier"),
    }
}

#[test]
fn noop_recorder_hands_out_default_identifier() {
    let mut reg: Registry<NoopRecorder> = Registry::new();
    assert!(reg.set_recorder(NoopRecorder::new()).is_ok());
    let mut site = counter_site("requests");
    reg.increment(&mut site, &no_values());
    assert_eq!(site.cached_id(), Some(Identifier(0)));
}

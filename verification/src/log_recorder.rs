//! An in-memory backend that keeps every event it observes, answering
//! repeated registrations of one key with the identifier issued first.

use vstd::prelude::*;
use crate::identifier::Identifier;
use crate::key::Key;
use crate::model::{Event, MetricKind, registered_id};
use crate::recorder::{description_view, Recorder};

verus! {

/// One recorded interaction, the executable mirror of [`Event`].
pub enum LogEntry {
    Register(MetricKind, Key, Option<&'static str>, Identifier),
    IncrementCounter(Identifier, u64),
    UpdateGauge(Identifier, u64),
    RecordHistogram(Identifier, u64),
}

impl View for LogEntry {
    type V = Event;

    closed spec fn view(&self) -> Event {
        match self {
            LogEntry::Register(kind, key, description, id) => Event::Register {
                kind: *kind,
                key: key@,
                description: description_view(*description),
                id: *id,
            },
            LogEntry::IncrementCounter(id, value) => Event::IncrementCounter {
                id: *id,
                value: *value,
            },
            LogEntry::UpdateGauge(id, bits) => Event::UpdateGauge { id: *id, bits: *bits },
            LogEntry::RecordHistogram(id, value) => Event::RecordHistogram {
                id: *id,
                value: *value,
            },
        }
    }
}

/// A backend that stores its whole event log in memory and hands out
/// fresh nonzero identifiers, deduplicating registrations by kind and
/// key.
pub struct LogRecorder {
    entries: Vec<LogEntry>,
    next_id: u64,
}

impl LogRecorder {
    /// Creates a backend with an empty log.
    pub fn new() -> (r: LogRecorder)
        ensures
            r.log() == Seq::<Event>::empty(),
    {
        let r = LogRecorder { entries: Vec::new(), next_id: 1 };
        proof {
            assert(r.log() =~= Seq::<Event>::empty());
        }
        r
    }

    /// The recorded interactions, oldest first.
    pub fn entries(&self) -> (r: &Vec<LogEntry>)
        ensures
            r@.map_values(|e: LogEntry| e@) == self.log(),
    {
        &self.entries
    }

    /// Finds the identifier the latest registration of this kind and key
    /// was answered with, if there is one.
    fn lookup(&self, kind: MetricKind, key: &Key) -> (r: Option<Identifier>)
        ensures
            r == registered_id(self.log(), kind, key@),
    {
        let ghost l = self.log();
        let mut i = self.entries.len();
        proof {
            assert(l.take(i as int) =~= l);
        }
        while i > 0
            invariant
                i <= self.entries.len(),
                l == self.log(),
                registered_id(l, kind, key@) == registered_id(l.take(i as int), kind, key@),
            decreases i,
        {
            i = i - 1;
            let ghost prefix = l.take(i as int + 1);
            proof {
                assert(prefix.last() == l[i as int]);
                assert(prefix.drop_last() =~= l.take(i as int));
            }
            match &self.entries[i] {
                LogEntry::Register(k, q, _, id) => {
                    if *k == kind && q.key_eq(key) {
                        return Some(*id);
                    }
                },
                _ => {},
            }
        }
        proof {
            assert(l.take(0) =~= Seq::<Event>::empty());
        }
        None
    }

    /// Registers a metric of the given kind: answers a previously seen
    /// kind and key with the identifier issued back then, issues a fresh
    /// nonzero identifier otherwise, and logs the registration either
    /// way.
    fn register_any(&mut self, kind: MetricKind, key: Key, description: Option<&'static str>) -> (
        id: Identifier)
        ensures
            final(self).log() == old(self).log().push(
                Event::Register { kind, key: key@, description: description_view(description), id },
            ),
            registered_id(old(self).log(), kind, key@) matches Some(prev) ==> id == prev,
    {
        let id = match self.lookup(kind, &key) {
            Some(prev) => prev,
            None => {
                let id = Identifier(self.next_id);
                if self.next_id < u64::MAX {
                    self.next_id = self.next_id + 1;
                }
                id
            },
        };
        let ghost before = self.log();
        let ghost kv = key@;
        self.entries.push(LogEntry::Register(kind, key, description, id));
        proof {
            assert(self.log() =~= before.push(
                Event::Register { kind, key: kv, description: description_view(description), id },
            ));
        }
        id
    }

    fn record(&mut self, e: LogEntry)
        ensures
            final(self).log() == old(self).log().push(e@),
    {
        let ghost before = self.log();
        let ghost ev = e@;
        self.entries.push(e);
        proof {
            assert(self.log() =~= before.push(ev));
        }
    }
}

impl Recorder for LogRecorder {
    closed spec fn log(&self) -> Seq<Event> {
        self.entries@.map_values(|e: LogEntry| e@)
    }

    fn register_counter(&mut self, key: Key, description: Option<&'static str>) -> (id:
        Identifier) {
        self.register_any(MetricKind::Counter, key, description)
    }

    fn register_gauge(&mut self, key: Key, description: Option<&'static str>) -> (id: Identifier) {
        self.register_any(MetricKind::Gauge, key, description)
    }

    fn register_histogram(&mut self, key: Key, description: Option<&'static str>) -> (id:
        Identifier) {
        self.register_any(MetricKind::Histogram, key, description)
    }

    fn increment_counter(&mut self, id: Identifier, value: u64) {
        self.record(LogEntry::IncrementCounter(id, value));
    }

    fn update_gauge(&mut self, id: Identifier, bits: u64) {
        self.record(LogEntry::UpdateGauge(id, bits));
    }

    fn record_histogram(&mut self, id: Identifier, value: u64) {
        self.record(LogEntry::RecordHistogram(id, value));
    }
}

} // verus!

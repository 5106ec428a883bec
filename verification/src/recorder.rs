//! The recorder capability: the interface a metrics backend implements,
//! and the inert no-op backend used when none is installed.

use vstd::prelude::*;
use crate::identifier::Identifier;
use crate::key::Key;
use crate::model::{Event, MetricKind, registered_id};
use crate::model::{is_register_of, lemma_registered_id_from_log};

verus! {

/// The view of an optional static description.
pub open spec fn description_view(d: Option<&str>) -> Option<Seq<char>> {
    match d {
        Some(s) => Some(s@),
        None => None,
    }
}

/// A value that records metrics behind the facade.
///
/// The backend's observable behaviour is its event log: every call
/// appends exactly one event.  Registration is idempotent from the
/// caller's perspective: a key of a given kind that was registered
/// before must be answered with the identifier issued back then, so a
/// caller may re-register freely and backends deduplicate internally.
/// The description is best-effort metadata and may be ignored or merged
/// on re-registration.  The recording operations are infallible and must
/// tolerate any identifier a registration produced, the default no-op
/// identifier included.
pub trait Recorder: Sized {
    /// The events this backend has observed, oldest first.
    spec fn log(&self) -> Seq<Event>;

    /// Registers a counter and returns its identifier.
    fn register_counter(&mut self, key: Key, description: Option<&'static str>) -> (id:
        Identifier)
        ensures
            final(self).log() == old(self).log().push(
                Event::Register {
                    kind: MetricKind::Counter,
                    key: key@,
                    description: description_view(description),
                    id,
                },
            ),
            registered_id(old(self).log(), MetricKind::Counter, key@) matches Some(prev)
                ==> id == prev,
    ;

    /// Registers a gauge and returns its identifier.
    fn register_gauge(&mut self, key: Key, description: Option<&'static str>) -> (id: Identifier)
        ensures
            final(self).log() == old(self).log().push(
                Event::Register {
                    kind: MetricKind::Gauge,
                    key: key@,
                    description: description_view(description),
                    id,
                },
            ),
            registered_id(old(self).log(), MetricKind::Gauge, key@) matches Some(prev)
                ==> id == prev,
    ;

    /// Registers a histogram and returns its identifier.
    fn register_histogram(&mut self, key: Key, description: Option<&'static str>) -> (id:
        Identifier)
        ensures
            final(self).log() == old(self).log().push(
                Event::Register {
                    kind: MetricKind::Histogram,
                    key: key@,
                    description: description_view(description),
                    id,
                },
            ),
            registered_id(old(self).log(), MetricKind::Histogram, key@) matches Some(prev)
                ==> id == prev,
    ;

    /// Increments a counter.
    fn increment_counter(&mut self, id: Identifier, value: u64)
        ensures
            final(self).log() == old(self).log().push(Event::IncrementCounter { id, value }),
    ;

    /// Updates a gauge to the 64-bit float whose bit pattern is `bits`.
    fn update_gauge(&mut self, id: Identifier, bits: u64)
        ensures
            final(self).log() == old(self).log().push(Event::UpdateGauge { id, bits }),
    ;

    /// Records a histogram value.
    fn record_histogram(&mut self, id: Identifier, value: u64)
        ensures
            final(self).log() == old(self).log().push(Event::RecordHistogram { id, value }),
    ;
}

/// The backend used when none is installed: registration hands out the
/// unregistered identifier and every recording operation is inert.
pub struct NoopRecorder {
    history: Ghost<Seq<Event>>,
}

impl NoopRecorder {
    #[verifier::type_invariant]
    spec fn wf(self) -> bool {
        forall|i: int|
            0 <= i < self.history@.len() ==> ((#[trigger] self.history@[i]) matches Event::Register {
                kind: _,
                key: _,
                description: _,
                id,
            } ==> id == Identifier::unregistered())
    }

    /// Creates a no-op backend with an empty history.
    pub fn new() -> (r: NoopRecorder)
        ensures
            r.log() == Seq::<Event>::empty(),
    {
        NoopRecorder { history: Ghost(Seq::empty()) }
    }

}

/// Any identifier found in a log whose registrations all carry the
/// unregistered identifier is the unregistered identifier.
proof fn lemma_noop_ids(log: Seq<Event>, kind: MetricKind, key: crate::key::KeyView)
    requires
        forall|i: int|
            0 <= i < log.len() ==> ((#[trigger] log[i]) matches Event::Register {
                kind: _,
                key: _,
                description: _,
                id,
            } ==> id == Identifier::unregistered()),
    ensures
        registered_id(log, kind, key) matches Some(prev) ==> prev == Identifier::unregistered(),
{
    if let Some(prev) = registered_id(log, kind, key) {
        lemma_registered_id_from_log(log, kind, key, prev);
        let j = choose|j: int|
            0 <= j < log.len() && #[trigger] is_register_of(log[j], kind, key, prev);
        assert(log[j] matches Event::Register { kind: _, key: _, description: _, id } ==> id
            == Identifier::unregistered());
    }
}

impl Recorder for NoopRecorder {
    closed spec fn log(&self) -> Seq<Event> {
        self.history@
    }

    fn register_counter(&mut self, key: Key, description: Option<&'static str>) -> (id:
        Identifier) {
        proof {
            use_type_invariant(&*self);
            lemma_noop_ids(self.history@, MetricKind::Counter, key@);
        }
        let id = Identifier(0);
        self.history = Ghost(
            self.history@.push(
                Event::Register {
                    kind: MetricKind::Counter,
                    key: key@,
                    description: description_view(description),
                    id,
                },
            ),
        );
        id
    }

    fn register_gauge(&mut self, key: Key, description: Option<&'static str>) -> (id: Identifier) {
        proof {
            use_type_invariant(&*self);
            lemma_noop_ids(self.history@, MetricKind::Gauge, key@);
        }
        let id = Identifier(0);
        self.history = Ghost(
            self.history@.push(
                Event::Register {
                    kind: MetricKind::Gauge,
                    key: key@,
                    description: description_view(description),
                    id,
                },
            ),
        );
        id
    }

    fn register_histogram(&mut self, key: Key, description: Option<&'static str>) -> (id:
        Identifier) {
        proof {
            use_type_invariant(&*self);
            lemma_noop_ids(self.history@, MetricKind::Histogram, key@);
        }
        let id = Identifier(0);
        self.history = Ghost(
            self.history@.push(
                Event::Register {
                    kind: MetricKind::Histogram,
                    key: key@,
                    description: description_view(description),
                    id,
                },
            ),
        );
        id
    }

    fn increment_counter(&mut self, id: Identifier, value: u64) {
        proof {
            use_type_invariant(&*self);
        }
        self.history = Ghost(self.history@.push(Event::IncrementCounter { id, value }));
    }

    fn update_gauge(&mut self, id: Identifier, bits: u64) {
        proof {
            use_type_invariant(&*self);
        }
        self.history = Ghost(self.history@.push(Event::UpdateGauge { id, bits }));
    }

    fn record_histogram(&mut self, id: Identifier, value: u64) {
        proof {
            use_type_invariant(&*self);
        }
        self.history = Ghost(self.history@.push(Event::RecordHistogram { id, value }));
    }
}

} // verus!

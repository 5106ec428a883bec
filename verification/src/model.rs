//! The observable behaviour of a backend: the sequence of registration
//! and recording events it has been asked to perform.

use vstd::prelude::*;
use crate::identifier::Identifier;
use crate::key::KeyView;

verus! {

/// The three kinds of metric the facade knows.
#[derive(Clone, Copy, PartialEq, Eq, Structural, Debug)]
pub enum MetricKind {
    Counter,
    Gauge,
    Histogram,
}

/// One interaction with a backend, as the facade's contracts speak of it.
///
/// Gauge values are 64-bit floats on the wire; the facade carries them as
/// their raw bit pattern, converted by the caller, so that the protocol
/// itself stays on plain integers.
pub enum Event {
    /// A metric of the given kind was registered under the given key with
    /// an optional description, and the backend answered with `id`.
    Register { kind: MetricKind, key: KeyView, description: Option<Seq<char>>, id: Identifier },
    /// A counter was incremented by `value`.
    IncrementCounter { id: Identifier, value: u64 },
    /// A gauge was updated to the float whose bit pattern is `bits`.
    UpdateGauge { id: Identifier, bits: u64 },
    /// A histogram recorded `value`.
    RecordHistogram { id: Identifier, value: u64 },
}

/// The identifier a deduplicating backend is bound to return for `key`:
/// the identifier of the latest registration of the same kind and key in
/// `log`, if there is one.
pub open spec fn registered_id(log: Seq<Event>, kind: MetricKind, key: KeyView) -> Option<
    Identifier,
>
    decreases log.len(),
{
    if log.len() == 0 {
        None
    } else {
        match log.last() {
            Event::Register { kind: k, key: q, description: _, id } => if k == kind && q == key {
                Some(id)
            } else {
                registered_id(log.drop_last(), kind, key)
            },
            _ => registered_id(log.drop_last(), kind, key),
        }
    }
}

/// The recording operation that belongs to a metric kind: incrementing
/// for counters, updating for gauges (the value being the float's bit
/// pattern), recording for histograms.
pub open spec fn op_event(kind: MetricKind, id: Identifier, value: u64) -> Event {
    match kind {
        MetricKind::Counter => Event::IncrementCounter { id, value },
        MetricKind::Gauge => Event::UpdateGauge { id, bits: value },
        MetricKind::Histogram => Event::RecordHistogram { id, value },
    }
}

/// Whether an event registers a metric of the given kind under the given
/// key with the given description, whatever identifier it was answered
/// with.
pub open spec fn is_register(
    e: Event,
    kind: MetricKind,
    key: KeyView,
    description: Option<Seq<char>>,
) -> bool {
    e matches Event::Register { kind: k, key: q, description: d, id: _ } && k == kind && q == key
        && d == description
}

/// Whether an event registers a metric of the given kind under the given
/// key and was answered with the given identifier.
pub open spec fn is_register_of(e: Event, kind: MetricKind, key: KeyView, id: Identifier) -> bool {
    e matches Event::Register { kind: k, key: q, description: _, id: i } && k == kind && q == key
        && i == id
}

/// A registered identifier always comes from some registration event of
/// that kind and key in the log.
pub proof fn lemma_registered_id_from_log(
    log: Seq<Event>,
    kind: MetricKind,
    key: KeyView,
    id: Identifier,
)
    requires
        registered_id(log, kind, key) == Some(id),
    ensures
        exists|i: int| 0 <= i < log.len() && #[trigger] is_register_of(log[i], kind, key, id),
    decreases log.len(),
{
    let matched = match log.last() {
        Event::Register { kind: k, key: q, description: _, id: _ } => k == kind && q == key,
        _ => false,
    };
    if matched {
        assert(is_register_of(log[log.len() - 1], kind, key, id));
    } else {
        lemma_registered_id_from_log(log.drop_last(), kind, key, id);
        let j = choose|j: int|
            0 <= j < log.drop_last().len() && #[trigger] is_register_of(
                log.drop_last()[j],
                kind,
                key,
                id,
            );
        assert(log[j] == log.drop_last()[j]);
        assert(is_register_of(log[j], kind, key, id));
    }
}

} // verus!

//! The process-wide binding from the facade to one recorder: a
//! write-once state machine with an always-available read path, plus the
//! instrumentation entry points that drive the call-site protocol
//! against the installed backend.

use vstd::prelude::*;
use crate::callsite::{plan_call, CallPlan, CallSite, Registration};
use crate::identifier::Identifier;
use crate::key::Key;
use crate::model::{is_register, op_event, registered_id, Event, MetricKind};
use crate::recorder::{description_view, Recorder};

verus! {

/// The registry's three-valued state.  The slot holding the recorder is
/// meaningful only once the state is `Initialized`; `Initializing` is
/// the brief window in which the winning installer writes the slot.
#[derive(Clone, Copy, PartialEq, Eq, Structural, Debug)]
pub enum RegistryState {
    Uninitialized,
    Initializing,
    Initialized,
}

/// The error returned when a recorder is installed while one already is:
/// the only error the registry ever signals.
#[derive(Clone, Copy, PartialEq, Eq, Structural, Debug)]
pub struct SetRecorderError {}

impl SetRecorderError {
    /// A fixed, human-readable account of the error.
    pub fn description(&self) -> (r: &'static str)
        ensures
            r@ == "attempted to set a recorder after the metrics system was already initialized"@,
    {
        "attempted to set a recorder after the metrics system was already initialized"
    }
}

/// What the always-available read path hands back: the installed
/// recorder, or the shared no-op default when none is installed.
pub enum RecorderHandle<'a, R> {
    Installed(&'a R),
    Noop,
}

/// The process-wide recorder registry.
///
/// Exactly one recorder can ever be installed between resets; installing
/// it succeeds exactly once, every later attempt fails with
/// [`SetRecorderError`].  Once installed, the recorder stays owned here
/// for the rest of the registry's life: a reset makes the registry
/// uninstalled again but deliberately keeps the old backend around
/// rather than reclaiming it, since callers and call-site caches may
/// still hold identifiers it issued.
pub struct Registry<R> {
    state: RegistryState,
    slot: Option<R>,
}

impl<R> Registry<R> {
    /// The state-machine state.
    pub closed spec fn state(&self) -> RegistryState {
        self.state
    }

    /// Whether the slot holds a recorder (it keeps holding one after a
    /// reset: the leaked previous backend).
    pub closed spec fn has_recorder(&self) -> bool {
        self.slot is Some
    }

    /// The recorder in the slot; meaningful only when `has_recorder()`.
    pub closed spec fn installed(&self) -> R {
        self.slot->Some_0
    }

    /// Whether reads are served by an installed recorder: the state
    /// machine has completed an installation that no reset undid.
    pub open spec fn is_initialized(&self) -> bool {
        self.state() is Initialized && self.has_recorder()
    }

    /// A registry with no recorder installed.
    pub fn new() -> (r: Registry<R>)
        ensures
            r.state() is Uninitialized,
            !r.has_recorder(),
    {
        Registry { state: RegistryState::Uninitialized, slot: None }
    }

    /// Installs a recorder: the shared transition of the one-shot
    /// installation entry points.  It succeeds exactly when the state
    /// machine is still uninitialized.
    fn set_recorder_inner(&mut self, recorder: R) -> (r: Result<(), SetRecorderError>)
        ensures
            r is Ok <==> old(self).state() is Uninitialized,
            r is Ok ==> final(self).state() is Initialized && final(self).has_recorder(),
            r is Ok ==> final(self).installed() == recorder,
            r is Err ==> *final(self) == *old(self),
    {
        match self.state {
            RegistryState::Uninitialized => {
                self.state = RegistryState::Initializing;
                self.slot = Some(recorder);
                self.state = RegistryState::Initialized;
                Ok(())
            },
            RegistryState::Initializing => {
                // A racer that observes the installing window waits it
                // out and then reports failure: it never succeeds, even
                // if it arrives after installation completes.
                Err(SetRecorderError {})
            },
            RegistryState::Initialized => Err(SetRecorderError {}),
        }
    }

    /// Sets the recorder.  May succeed only once in the life of the
    /// registry (until a reset): every later call fails with the
    /// already-initialized error, and a failed call changes nothing.
    /// Any metrics recorded before this call are dropped, not deferred.
    pub fn set_recorder(&mut self, recorder: R) -> (r: Result<(), SetRecorderError>)
        ensures
            r is Ok <==> old(self).state() is Uninitialized,
            r is Ok ==> final(self).state() is Initialized && final(self).has_recorder(),
            r is Ok ==> final(self).installed() == recorder,
            r is Err ==> *final(self) == *old(self),
    {
        self.set_recorder_inner(recorder)
    }

    /// Sets the recorder from a box: a convenience wrapper over
    /// [`Registry::set_recorder`].
    pub fn set_boxed_recorder(&mut self, recorder: Box<R>) -> (r: Result<(), SetRecorderError>)
        ensures
            r is Ok <==> old(self).state() is Uninitialized,
            r is Ok ==> final(self).state() is Initialized && final(self).has_recorder(),
            r is Ok ==> final(self).installed() == *recorder,
            r is Err ==> *final(self) == *old(self),
    {
        self.set_recorder_inner(*recorder)
    }

    /// Sets the recorder without protection against a concurrent
    /// installer: the caller must guarantee that no other installation
    /// runs at the same time, so the installing window can never be
    /// observed here.
    pub fn set_recorder_racy(&mut self, recorder: R) -> (r: Result<(), SetRecorderError>)
        requires
            !(old(self).state() is Initializing),
        ensures
            r is Ok <==> old(self).state() is Uninitialized,
            r is Ok ==> final(self).state() is Initialized && final(self).has_recorder(),
            r is Ok ==> final(self).installed() == recorder,
            r is Err ==> *final(self) == *old(self),
    {
        match self.state {
            RegistryState::Uninitialized => {
                self.slot = Some(recorder);
                self.state = RegistryState::Initialized;
                Ok(())
            },
            RegistryState::Initializing => vstd::pervasive::unreached(),
            RegistryState::Initialized => Err(SetRecorderError {}),
        }
    }

    /// Clears the configured recorder, making the registry uninitialized
    /// again.  The previously installed backend is kept, not reclaimed:
    /// callers may still hold identifiers it issued, so re-installation
    /// after a reset deliberately leaks it.  Typically useful only for
    /// testing.
    pub fn clear_recorder(&mut self)
        ensures
            final(self).state() is Uninitialized,
            final(self).has_recorder() == old(self).has_recorder(),
            old(self).has_recorder() ==> final(self).installed() == old(self).installed(),
    {
        self.state = RegistryState::Uninitialized;
    }

    /// The read path that never fails: the installed recorder when there
    /// is one, the shared no-op default otherwise.
    pub fn recorder(&self) -> (r: RecorderHandle<'_, R>)
        ensures
            self.is_initialized() ==> (r matches RecorderHandle::Installed(rec) && *rec
                == self.installed()),
            !self.is_initialized() ==> r is Noop,
    {
        match self.try_recorder() {
            Some(rec) => RecorderHandle::Installed(rec),
            None => RecorderHandle::Noop,
        }
    }

    /// The gating read path: the installed recorder, or nothing when no
    /// installation has completed since the last reset, so that call
    /// sites can skip all registration work in the uninstrumented case.
    pub fn try_recorder(&self) -> (r: Option<&R>)
        ensures
            r is Some <==> self.is_initialized(),
            r matches Some(rec) ==> *rec == self.installed(),
    {
        match self.state {
            RegistryState::Initialized => match &self.slot {
                Some(rec) => Some(rec),
                None => None,
            },
            _ => None,
        }
    }
}

/// Registers a metric of the given kind with the backend.
fn register_in<R: Recorder>(
    rec: &mut R,
    kind: MetricKind,
    key: Key,
    description: Option<&'static str>,
) -> (id: Identifier)
    ensures
        final(rec).log() == old(rec).log().push(
            Event::Register { kind, key: key@, description: description_view(description), id },
        ),
        registered_id(old(rec).log(), kind, key@) matches Some(prev) ==> id == prev,
{
    match kind {
        MetricKind::Counter => rec.register_counter(key, description),
        MetricKind::Gauge => rec.register_gauge(key, description),
        MetricKind::Histogram => rec.register_histogram(key, description),
    }
}

/// Performs the recording operation of the given kind against the
/// backend.
fn operate_in<R: Recorder>(rec: &mut R, kind: MetricKind, id: Identifier, value: u64)
    ensures
        final(rec).log() == old(rec).log().push(op_event(kind, id, value)),
{
    match kind {
        MetricKind::Counter => rec.increment_counter(id, value),
        MetricKind::Gauge => rec.update_gauge(id, value),
        MetricKind::Histogram => rec.record_histogram(id, value),
    }
}

impl<R: Recorder> Registry<R> {
    /// The installed backend's event log; meaningful only when
    /// `is_initialized()`.
    pub open spec fn log(&self) -> Seq<Event> {
        self.installed().log()
    }

    /// What every instrumentation entry point leaves untouched.
    pub open spec fn frame(pre: Registry<R>, post: Registry<R>) -> bool {
        &&& post.state() == pre.state()
        &&& post.has_recorder() == pre.has_recorder()
        &&& post.is_initialized() == pre.is_initialized()
    }

    /// The registration entry points' shared behaviour: when a recorder
    /// is installed, register this call's key of the given kind with
    /// this registration's description and discard the identifier;
    /// otherwise do nothing at all.
    fn register_metric(&mut self, kind: MetricKind, registration: &Registration, values: &Vec<
        String,
    >)
        requires
            values@.len() == registration.labels@.len(),
        ensures
            Self::frame(*old(self), *final(self)),
            !old(self).is_initialized() ==> *final(self) == *old(self),
            old(self).is_initialized() ==> final(self).log().len() == old(self).log().len() + 1
                && final(self).log().drop_last() == old(self).log() && is_register(
                final(self).log().last(),
                kind,
                registration.key_view(values@),
                description_view(registration.description),
            ),
            old(self).is_initialized() ==> (registered_id(
                old(self).log(),
                kind,
                registration.key_view(values@),
            ) matches Some(prev) ==> final(self).log().last()->Register_id == prev),
    {
        match self.state {
            RegistryState::Initialized => {},
            _ => {
                return ;
            },
        }
        let key = registration.build_key(values);
        match &mut self.slot {
            Some(rec) => {
                register_in(rec, kind, key, registration.description);
            },
            None => {},
        }
    }

    /// Registers a counter described by `registration`, with this call's
    /// values for the runtime label slots, if a recorder is installed;
    /// does nothing otherwise.
    pub fn register_counter(&mut self, registration: &Registration, values: &Vec<String>)
        requires
            values@.len() == registration.labels@.len(),
        ensures
            Self::frame(*old(self), *final(self)),
            !old(self).is_initialized() ==> *final(self) == *old(self),
            old(self).is_initialized() ==> final(self).log().len() == old(self).log().len() + 1
                && final(self).log().drop_last() == old(self).log() && is_register(
                final(self).log().last(),
                MetricKind::Counter,
                registration.key_view(values@),
                description_view(registration.description),
            ),
            old(self).is_initialized() ==> (registered_id(
                old(self).log(),
                MetricKind::Counter,
                registration.key_view(values@),
            ) matches Some(prev) ==> final(self).log().last()->Register_id == prev),
    {
        self.register_metric(MetricKind::Counter, registration, values)
    }

    /// Registers a gauge; see [`Registry::register_counter`].
    pub fn register_gauge(&mut self, registration: &Registration, values: &Vec<String>)
        requires
            values@.len() == registration.labels@.len(),
        ensures
            Self::frame(*old(self), *final(self)),
            !old(self).is_initialized() ==> *final(self) == *old(self),
            old(self).is_initialized() ==> final(self).log().len() == old(self).log().len() + 1
                && final(self).log().drop_last() == old(self).log() && is_register(
                final(self).log().last(),
                MetricKind::Gauge,
                registration.key_view(values@),
                description_view(registration.description),
            ),
            old(self).is_initialized() ==> (registered_id(
                old(self).log(),
                MetricKind::Gauge,
                registration.key_view(values@),
            ) matches Some(prev) ==> final(self).log().last()->Register_id == prev),
    {
        self.register_metric(MetricKind::Gauge, registration, values)
    }

    /// Registers a histogram; see [`Registry::register_counter`].
    pub fn register_histogram(&mut self, registration: &Registration, values: &Vec<String>)
        requires
            values@.len() == registration.labels@.len(),
        ensures
            Self::frame(*old(self), *final(self)),
            !old(self).is_initialized() ==> *final(self) == *old(self),
            old(self).is_initialized() ==> final(self).log().len() == old(self).log().len() + 1
                && final(self).log().drop_last() == old(self).log() && is_register(
                final(self).log().last(),
                MetricKind::Histogram,
                registration.key_view(values@),
                description_view(registration.description),
            ),
            old(self).is_initialized() ==> (registered_id(
                old(self).log(),
                MetricKind::Histogram,
                registration.key_view(values@),
            ) matches Some(prev) ==> final(self).log().last()->Register_id == prev),
    {
        self.register_metric(MetricKind::Histogram, registration, values)
    }

    /// What one combined register-and-record call does to the backend
    /// log and to the call site, as decided by [`plan_call`]: nothing
    /// without a recorder; the operation against the cached identifier
    /// on a warm fast path; otherwise a registration of this call's key
    /// followed by the operation against the identifier the registration
    /// returned, which on the fast path is then cached.
    pub open spec fn callsite_effect(
        pre: Registry<R>,
        post: Registry<R>,
        site_pre: CallSite,
        site_post: CallSite,
        values: Seq<String>,
        value: u64,
    ) -> bool {
        match plan_call(
            pre.is_initialized(),
            site_pre.is_fast(),
            site_pre.cached(),
            site_pre.key_view(values),
        ) {
            CallPlan::Skip => post == pre && site_post == site_pre,
            CallPlan::Use(id) => post.log() == pre.log().push(
                op_event(site_pre.kind(), id, value),
            ) && site_post == site_pre,
            CallPlan::Register(kv) => {
                let id = post.log()[pre.log().len() as int]->Register_id;
                &&& post.log() == pre.log().push(
                    Event::Register { kind: site_pre.kind(), key: kv, description: None, id },
                ).push(op_event(site_pre.kind(), id, value))
                &&& (registered_id(pre.log(), site_pre.kind(), kv) matches Some(prev) ==> id
                    == prev)
                &&& site_post.cached() == (if site_pre.is_fast() {
                    Some(id)
                } else {
                    site_pre.cached()
                })
            },
        }
    }

    /// The combined register-and-record protocol shared by the counter,
    /// gauge and histogram entry points.
    fn callsite_op(&mut self, site: &mut CallSite, values: &Vec<String>, value: u64)
        requires
            values@.len() == old(site).labels_spec().len(),
        ensures
            Self::frame(*old(self), *final(self)),
            final(site).kind() == old(site).kind(),
            final(site).name_spec() == old(site).name_spec(),
            final(site).labels_spec() == old(site).labels_spec(),
            Self::callsite_effect(*old(self), *final(self), *old(site), *final(site), values@, value),
    {
        match self.state {
            RegistryState::Initialized => {},
            _ => {
                return ;
            },
        }
        match site.cached_id() {
            Some(id) => {
                match &mut self.slot {
                    Some(rec) => {
                        operate_in(rec, site.kind_of(), id, value);
                    },
                    None => {},
                }
            },
            None => {
                match &mut self.slot {
                    Some(rec) => {
                        let key = site.build_key(values);
                        let id = register_in(rec, site.kind_of(), key, None);
                        if site.fast_path() {
                            site.fill(id);
                        }
                        operate_in(rec, site.kind_of(), id, value);
                    },
                    None => {},
                }
            },
        }
    }

    /// Increments the counter this call site instruments by one, if a
    /// recorder is installed; resolves the identifier through the
    /// site's fast or slow path first.
    pub fn increment(&mut self, site: &mut CallSite, values: &Vec<String>)
        requires
            old(site).kind() == MetricKind::Counter,
            values@.len() == old(site).labels_spec().len(),
        ensures
            Self::frame(*old(self), *final(self)),
            final(site).kind() == old(site).kind(),
            final(site).name_spec() == old(site).name_spec(),
            final(site).labels_spec() == old(site).labels_spec(),
            Self::callsite_effect(*old(self), *final(self), *old(site), *final(site), values@, 1),
    {
        self.callsite_op(site, values, 1)
    }

    /// Increments the counter this call site instruments, if a recorder
    /// is installed.
    pub fn counter(&mut self, site: &mut CallSite, values: &Vec<String>, value: u64)
        requires
            old(site).kind() == MetricKind::Counter,
            values@.len() == old(site).labels_spec().len(),
        ensures
            Self::frame(*old(self), *final(self)),
            final(site).kind() == old(site).kind(),
            final(site).name_spec() == old(site).name_spec(),
            final(site).labels_spec() == old(site).labels_spec(),
            Self::callsite_effect(*old(self), *final(self), *old(site), *final(site), values@, value),
    {
        self.callsite_op(site, values, value)
    }

    /// Updates the gauge this call site instruments to the 64-bit float
    /// whose bit pattern is `bits`, if a recorder is installed.
    pub fn gauge(&mut self, site: &mut CallSite, values: &Vec<String>, bits: u64)
        requires
            old(site).kind() == MetricKind::Gauge,
            values@.len() == old(site).labels_spec().len(),
        ensures
            Self::frame(*old(self), *final(self)),
            final(site).kind() == old(site).kind(),
            final(site).name_spec() == old(site).name_spec(),
            final(site).labels_spec() == old(site).labels_spec(),
            Self::callsite_effect(*old(self), *final(self), *old(site), *final(site), values@, bits),
    {
        self.callsite_op(site, values, bits)
    }

    /// Records a value in the histogram this call site instruments, if a
    /// recorder is installed.
    pub fn histogram(&mut self, site: &mut CallSite, values: &Vec<String>, value: u64)
        requires
            old(site).kind() == MetricKind::Histogram,
            values@.len() == old(site).labels_spec().len(),
        ensures
            Self::frame(*old(self), *final(self)),
            final(site).kind() == old(site).kind(),
            final(site).name_spec() == old(site).name_spec(),
            final(site).labels_spec() == old(site).labels_spec(),
            Self::callsite_effect(*old(self), *final(self), *old(site), *final(site), values@, value),
    {
        self.callsite_op(site, values, value)
    }
}

} // verus!

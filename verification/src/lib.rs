//! A metrics instrumentation facade.
//!
//! Application code emits counter, gauge and histogram events through a
//! stable call-site API while the collection backend (the [`Recorder`])
//! stays pluggable and may be absent entirely.  The crate provides:
//!
//! * the metric identity types ([`Key`], [`Label`], [`Identifier`]),
//! * the [`Recorder`] capability that a backend implements, together with
//!   the inert [`NoopRecorder`] and an in-memory [`LogRecorder`],
//! * the process-wide [`Registry`] that binds the facade to exactly one
//!   backend through a write-once state machine, and
//! * the call-site registration and caching protocol ([`CallSite`]),
//!   which resolves a metric identifier once and caches it when every
//!   label value is static, and re-registers on every call otherwise.
//!
//! The facade's global guarantees — exactly one installation ever
//! succeeds, an installed recorder stays visible until a reset, the
//! gating read path reflects installation exactly, and the fast path
//! registers at most once per call site — are stated and proved in
//! [`laws`].
//!
//! [`Recorder`]: recorder::Recorder
//! [`NoopRecorder`]: recorder::NoopRecorder
//! [`LogRecorder`]: log_recorder::LogRecorder
//! [`Key`]: key::Key
//! [`Label`]: key::Label
//! [`Identifier`]: identifier::Identifier
//! [`Registry`]: registry::Registry
//! [`CallSite`]: callsite::CallSite

pub mod callsite;
pub mod identifier;
pub mod key;
pub mod laws;
pub mod log_recorder;
pub mod model;
pub mod recorder;
pub mod registry;

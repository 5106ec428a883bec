//! The facade's global guarantees, proved over the registry state
//! machine and the call-site protocol's decision function.
//!
//! The registry methods pin each single transition exactly (see the
//! `ensures` of [`Registry::set_recorder`], [`Registry::clear_recorder`]
//! and [`Registry::try_recorder`]); the lemmas here compose those
//! transitions over whole histories of calls.
//!
//! [`Registry::set_recorder`]: crate::registry::Registry::set_recorder
//! [`Registry::clear_recorder`]: crate::registry::Registry::clear_recorder
//! [`Registry::try_recorder`]: crate::registry::Registry::try_recorder

use vstd::prelude::*;
use crate::callsite::{plan_call, CallPlan, CallSite};
use crate::identifier::Identifier;
use crate::key::KeyView;
use crate::registry::RegistryState;

verus! {

/// Whether an installation attempt succeeds in this state: exactly when
/// the state machine is still uninitialized.  A racer that observes the
/// installing window, or an already completed installation, fails.
pub open spec fn set_succeeds(s: RegistryState) -> bool {
    s is Uninitialized
}

/// The state after an installation attempt: a successful one completes
/// to `Initialized`, a failed one changes nothing.
pub open spec fn after_set(s: RegistryState) -> RegistryState {
    if s is Uninitialized {
        RegistryState::Initialized
    } else {
        s
    }
}

/// How many of `n` consecutive installation attempts succeed, starting
/// in state `s`.
pub open spec fn set_successes(s: RegistryState, n: nat) -> nat
    decreases n,
{
    if n == 0 {
        0
    } else {
        (if set_succeeds(s) {
            1nat
        } else {
            0nat
        }) + set_successes(after_set(s), (n - 1) as nat)
    }
}

/// Once the machine has left `Uninitialized`, no installation attempt
/// ever succeeds again.
pub proof fn lemma_no_more_successes(s: RegistryState, n: nat)
    requires
        !(s is Uninitialized),
    ensures
        set_successes(s, n) == 0,
    decreases n,
{
    if n > 0 {
        lemma_no_more_successes(after_set(s), (n - 1) as nat);
    }
}

/// Of any number of installation attempts against a fresh registry,
/// exactly one succeeds and all the others fail with the
/// already-installed error: never zero successes, never more than one.
pub proof fn lemma_exactly_one_set_succeeds(s: RegistryState, n: nat)
    requires
        s is Uninitialized,
        n >= 1,
    ensures
        set_successes(s, n) == 1,
{
    lemma_no_more_successes(after_set(s), (n - 1) as nat);
}

/// One call against the registry, as far as the state machine sees it:
/// an installation attempt, a reset, or anything else (the read entry
/// points and every instrumentation call), which leaves the state
/// machine alone.
pub enum RegistryAction {
    SetRecorder,
    ClearRecorder,
    Observe,
}

/// The state machine's transition for one action.
pub open spec fn apply(s: RegistryState, a: RegistryAction) -> RegistryState {
    match a {
        RegistryAction::SetRecorder => after_set(s),
        RegistryAction::ClearRecorder => RegistryState::Uninitialized,
        RegistryAction::Observe => s,
    }
}

/// The state after a whole history of calls.
pub open spec fn run(s: RegistryState, trace: Seq<RegistryAction>) -> RegistryState
    decreases trace.len(),
{
    if trace.len() == 0 {
        s
    } else {
        run(apply(s, trace.first()), trace.drop_first())
    }
}

/// After a successful installation, the registry stays initialized
/// through any history of further calls that contains no reset: every
/// read in that span is served by the recorder installed then.
pub proof fn lemma_installation_persists(s: RegistryState, trace: Seq<RegistryAction>)
    requires
        s is Initialized,
        forall|i: int| 0 <= i < trace.len() ==> !(#[trigger] trace[i] is ClearRecorder),
    ensures
        run(s, trace) is Initialized,
    decreases trace.len(),
{
    if trace.len() > 0 {
        assert(!(trace.first() is ClearRecorder));
        lemma_installation_persists(apply(s, trace.first()), trace.drop_first());
    }
}

/// Whether some installation attempt in the history succeeds, starting
/// in state `s`.
pub open spec fn some_set_succeeds(s: RegistryState, trace: Seq<RegistryAction>) -> bool
    decreases trace.len(),
{
    if trace.len() == 0 {
        false
    } else {
        (trace.first() is SetRecorder && set_succeeds(s)) || some_set_succeeds(
            apply(s, trace.first()),
            trace.drop_first(),
        )
    }
}

/// Since the last reset (or since the beginning of the registry's
/// life), the gating read path yields a recorder exactly when some
/// installation has succeeded in that span: starting uninitialized and
/// resetting nowhere in the span, the machine ends initialized if and
/// only if a set succeeded in it.
pub proof fn lemma_try_recorder_reflects_installation(
    s: RegistryState,
    trace: Seq<RegistryAction>,
)
    requires
        !(s is Initialized),
        forall|i: int| 0 <= i < trace.len() ==> !(#[trigger] trace[i] is ClearRecorder),
    ensures
        run(s, trace) is Initialized <==> some_set_succeeds(s, trace),
    decreases trace.len(),
{
    if trace.len() > 0 {
        assert(!(trace.first() is ClearRecorder));
        let s2 = apply(s, trace.first());
        if s2 is Initialized {
            assert(trace.first() is SetRecorder && set_succeeds(s));
            lemma_installation_persists(s2, trace.drop_first());
        } else {
            lemma_try_recorder_reflects_installation(s2, trace.drop_first());
        }
    }
}

/// A fast-path call site registers at most once: with a recorder
/// installed, its first completed call registers this call's key, and
/// once the returned identifier is cached every later call at that site
/// plans its operation against that same identifier and never registers
/// again.  Without a recorder, both paths plan nothing at all.
pub proof fn lemma_fast_path_registers_once(
    id: Identifier,
    first_key: KeyView,
    later_key: KeyView,
    fast: bool,
    cached: Option<Identifier>,
)
    ensures
        plan_call(true, true, None, first_key) == CallPlan::Register(first_key),
        plan_call(true, true, Some(id), later_key) == CallPlan::Use(id),
        plan_call(false, fast, cached, later_key) == CallPlan::Skip,
{
}

/// A slow-path call site re-registers on every call, each call against
/// the key built from its own values: two calls whose values differ at
/// a runtime label slot produce two distinct keys, and each call's plan
/// registers exactly its own key, so each operation targets the
/// identifier the backend matched to that key.
pub proof fn lemma_slow_path_keys_follow_values(
    site: CallSite,
    values1: Seq<String>,
    values2: Seq<String>,
    j: int,
)
    requires
        values1.len() == site.labels_spec().len(),
        values2.len() == site.labels_spec().len(),
        0 <= j < site.labels_spec().len(),
        site.labels_spec()[j].value is Runtime,
        values1[j]@ != values2[j]@,
    ensures
        !site.is_fast(),
        site.key_view(values1) != site.key_view(values2),
        plan_call(true, site.is_fast(), site.cached(), site.key_view(values1)) == CallPlan::Register(
            site.key_view(values1),
        ),
        plan_call(true, site.is_fast(), site.cached(), site.key_view(values2)) == CallPlan::Register(
            site.key_view(values2),
        ),
{
    assert(!site.is_fast());
    assert(site.key_view(values1).labels[j].value == values1[j]@);
    assert(site.key_view(values2).labels[j].value == values2[j]@);
}

} // verus!

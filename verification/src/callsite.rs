//! Call-site descriptions and the fast-path / slow-path decision.
//!
//! Every instrumentation point is described by a metric kind, an
//! effective name, and an ordered list of label expressions whose values
//! are either static literals or recomputed on every call.  The choice
//! between the fast path (resolve the identifier once, cache it forever)
//! and the slow path (re-register on every call) is made statically,
//! from that description alone: the fast path is allowed exactly when
//! every label value is a literal.

use vstd::prelude::*;
use crate::identifier::{Identifier, OnceIdentifier};
use crate::key::{scoped_name, Key, KeyView, Label, LabelView, resolve_name};
use crate::model::MetricKind;

verus! {

/// A label value expression as the call-site description carries it:
/// either a literal, fixed before the program runs, or a value that is
/// recomputed on every call.
pub enum ValueExpr {
    Literal(String),
    Runtime,
}

/// One label of a call-site description: a static name and a value
/// expression.
pub struct LabelExpr {
    pub name: String,
    pub value: ValueExpr,
}

/// Whether every label value of the description is a static literal.
pub open spec fn all_static(labels: Seq<LabelExpr>) -> bool {
    forall|i: int| 0 <= i < labels.len() ==> labels[i].value is Literal
}

/// The labels of one invocation: literal slots take their literal,
/// runtime slots take this call's value.
pub open spec fn label_views(labels: Seq<LabelExpr>, values: Seq<String>) -> Seq<LabelView> {
    Seq::new(
        labels.len(),
        |i: int|
            LabelView {
                name: labels[i].name@,
                value: match labels[i].value {
                    ValueExpr::Literal(s) => s@,
                    ValueExpr::Runtime => values[i]@,
                },
            },
    )
}

/// Decides the call-site strategy: the fast path may be used only when
/// every label value supplied at the call site is a static literal.
pub fn can_use_fast_path(labels: &Vec<LabelExpr>) -> (r: bool)
    ensures
        r == all_static(labels@),
{
    let mut use_fast_path = true;
    let n = labels.len();
    for i in 0..n
        invariant
            n == labels.len(),
            use_fast_path == (forall|j: int| 0 <= j < i ==> labels@[j].value is Literal),
    {
        match &labels[i].value {
            ValueExpr::Literal(_) => {},
            _ => {
                use_fast_path = false;
            },
        }
    }
    use_fast_path
}

/// Builds this invocation's labels from the description and the values
/// the call supplies for the runtime slots; values at literal slots are
/// ignored in favour of the literal.
pub fn instantiate_labels(labels: &Vec<LabelExpr>, values: &Vec<String>) -> (r: Vec<Label>)
    requires
        values@.len() == labels@.len(),
    ensures
        r@.map_values(|l: Label| l@) == label_views(labels@, values@),
{
    let mut r: Vec<Label> = Vec::new();
    let n = labels.len();
    for i in 0..n
        invariant
            n == labels.len(),
            values@.len() == labels@.len(),
            r@.len() == i,
            forall|j: int| 0 <= j < i ==> r@[j]@ == label_views(labels@, values@)[j],
    {
        let value = match &labels[i].value {
            ValueExpr::Literal(s) => s.clone(),
            ValueExpr::Runtime => values[i].clone(),
        };
        let label = Label::new(labels[i].name.clone(), value);
        r.push(label);
    }
    proof {
        assert(r@.map_values(|l: Label| l@) =~= label_views(labels@, values@));
    }
    r
}

/// What one invocation of a call site does, decided before any backend
/// is touched: nothing when no recorder is installed; an operation
/// against the cached identifier when the fast path already resolved
/// one; otherwise a fresh registration of this call's key followed by
/// the operation against the identifier the registration returned.
pub enum CallPlan {
    Skip,
    Use(Identifier),
    Register(KeyView),
}

/// The call-site protocol's decision for one invocation.
pub open spec fn plan_call(
    installed: bool,
    fast: bool,
    cached: Option<Identifier>,
    key: KeyView,
) -> CallPlan {
    if !installed {
        CallPlan::Skip
    } else if fast && cached is Some {
        CallPlan::Use(cached->Some_0)
    } else {
        CallPlan::Register(key)
    }
}

/// A description of a registration-only instrumentation point: the
/// effective key name, an optional static description, and the labels.
pub struct Registration {
    pub name: String,
    pub description: Option<&'static str>,
    pub labels: Vec<LabelExpr>,
}

impl Registration {
    /// The key this registration resolves to for one call's values.
    pub open spec fn key_view(&self, values: Seq<String>) -> KeyView {
        KeyView { name: self.name@, labels: label_views(self.labels@, values) }
    }

    /// Describes a registration under a plain name.
    pub fn new(name: String, description: Option<&'static str>, labels: Vec<LabelExpr>) -> (r:
        Registration)
        ensures
            r.name@ == name@,
            r.description == description,
            r.labels@ == labels@,
    {
        Registration { name, description, labels }
    }

    /// Describes a registration whose name joins a static scope and a
    /// short name.
    pub fn scoped(
        scope: &str,
        name: &str,
        description: Option<&'static str>,
        labels: Vec<LabelExpr>,
    ) -> (r: Registration)
        ensures
            r.name@ == scoped_name(scope@, name@),
            r.description == description,
            r.labels@ == labels@,
    {
        Registration { name: resolve_name(scope, name), description, labels }
    }

    /// Builds this call's key.
    pub fn build_key(&self, values: &Vec<String>) -> (k: Key)
        requires
            values@.len() == self.labels@.len(),
        ensures
            k@ == self.key_view(values@),
    {
        Key::new(self.name.clone(), instantiate_labels(&self.labels, values))
    }
}

/// One instrumentation point that both registers and records: a metric
/// kind, an effective key name, the label expressions, and the private
/// cache cell of the fast path.
///
/// The cache cell may only ever be filled on a fast-path site: if any
/// label value varies per call, no cached identifier exists and every
/// call re-registers, relying on backend-side deduplication.
pub struct CallSite {
    kind: MetricKind,
    name: String,
    labels: Vec<LabelExpr>,
    fast: bool,
    cache: OnceIdentifier,
}

impl CallSite {
    #[verifier::type_invariant]
    spec fn wf(self) -> bool {
        &&& self.fast == all_static(self.labels@)
        &&& self.cache.stored() is Some ==> self.fast
    }

    /// The metric kind this call site instruments.
    pub closed spec fn kind(&self) -> MetricKind {
        self.kind
    }

    /// The effective key name.
    pub closed spec fn name_spec(&self) -> Seq<char> {
        self.name@
    }

    /// The label expressions of the description.
    pub closed spec fn labels_spec(&self) -> Seq<LabelExpr> {
        self.labels@
    }

    /// The cached identifier, if the fast path has filled it.
    pub closed spec fn cached(&self) -> Option<Identifier> {
        self.cache.stored()
    }

    /// Whether this site takes the fast path.
    pub open spec fn is_fast(&self) -> bool {
        all_static(self.labels_spec())
    }

    /// The key this site resolves to for one call's values.
    pub open spec fn key_view(&self, values: Seq<String>) -> KeyView {
        KeyView { name: self.name_spec(), labels: label_views(self.labels_spec(), values) }
    }

    /// Describes a call site under a plain name, its cache cell empty.
    pub fn new(kind: MetricKind, name: String, labels: Vec<LabelExpr>) -> (r: CallSite)
        ensures
            r.kind() == kind,
            r.name_spec() == name@,
            r.labels_spec() == labels@,
            r.cached() is None,
    {
        let fast = can_use_fast_path(&labels);
        CallSite { kind, name, labels, fast, cache: OnceIdentifier::new() }
    }

    /// Describes a call site whose name joins a static scope and a short
    /// name; the derivation happens here, once.
    pub fn scoped(kind: MetricKind, scope: &str, name: &str, labels: Vec<LabelExpr>) -> (r:
        CallSite)
        ensures
            r.kind() == kind,
            r.name_spec() == scoped_name(scope@, name@),
            r.labels_spec() == labels@,
            r.cached() is None,
    {
        CallSite::new(kind, resolve_name(scope, name), labels)
    }

    /// How many label values one call must supply.
    pub fn label_count(&self) -> (n: usize)
        ensures
            n == self.labels_spec().len(),
    {
        self.labels.len()
    }

    /// The metric kind this call site instruments.
    pub fn kind_of(&self) -> (k: MetricKind)
        ensures
            k == self.kind(),
    {
        self.kind
    }

    /// Whether this site takes the fast path.
    pub fn fast_path(&self) -> (b: bool)
        ensures
            b == self.is_fast(),
    {
        proof {
            use_type_invariant(&*self);
        }
        self.fast
    }

    /// Reads the cache cell.
    pub fn cached_id(&self) -> (r: Option<Identifier>)
        ensures
            r == self.cached(),
            r is Some ==> self.is_fast(),
    {
        proof {
            use_type_invariant(&*self);
        }
        self.cache.get()
    }

    /// Builds this call's key.
    pub fn build_key(&self, values: &Vec<String>) -> (k: Key)
        requires
            values@.len() == self.labels_spec().len(),
        ensures
            k@ == self.key_view(values@),
    {
        Key::new(self.name.clone(), instantiate_labels(&self.labels, values))
    }

    /// Fills the fast-path cache cell; the first filled value wins and
    /// is never replaced.  The description itself never changes.
    pub fn fill(&mut self, id: Identifier)
        requires
            old(self).is_fast(),
        ensures
            final(self).kind() == old(self).kind(),
            final(self).name_spec() == old(self).name_spec(),
            final(self).labels_spec() == old(self).labels_spec(),
            final(self).cached() == if old(self).cached() is Some {
                old(self).cached()
            } else {
                Some(id)
            },
    {
        proof {
            use_type_invariant(&*self);
        }
        if self.cache.get().is_none() {
            self.cache = OnceIdentifier::filled(id);
        }
    }
}

} // verus!

//! Metric identity: a name plus an ordered list of label key/value pairs.

use vstd::prelude::*;

verus! {

/// The mathematical value of a [`Label`]: a label name and a label value.
pub struct LabelView {
    pub name: Seq<char>,
    pub value: Seq<char>,
}

/// The mathematical value of a [`Key`]: an effective metric name and the
/// ordered sequence of its labels.  Label order is part of the identity.
pub struct KeyView {
    pub name: Seq<char>,
    pub labels: Seq<LabelView>,
}

/// One label of a metric: a name/value pair of strings.
pub struct Label {
    name: String,
    value: String,
}

impl View for Label {
    type V = LabelView;

    closed spec fn view(&self) -> LabelView {
        LabelView { name: self.name@, value: self.value@ }
    }
}

impl Label {
    /// Creates a label from its name and value.
    pub fn new(name: String, value: String) -> (r: Label)
        ensures
            r@ == (LabelView { name: name@, value: value@ }),
    {
        Label { name, value }
    }

    /// The label name.
    pub fn name(&self) -> (r: &String)
        ensures
            r@ == self@.name,
    {
        &self.name
    }

    /// The label value.
    pub fn value(&self) -> (r: &String)
        ensures
            r@ == self@.value,
    {
        &self.value
    }
}

/// The identity of a metric: an effective name, optionally derived from a
/// static scope at construction time, plus ordered labels.  Two keys are
/// equal exactly when their names and their label sequences (in order)
/// are equal.  A key is immutable once constructed.
pub struct Key {
    name: String,
    labels: Vec<Label>,
}

impl View for Key {
    type V = KeyView;

    closed spec fn view(&self) -> KeyView {
        KeyView { name: self.name@, labels: self.labels@.map_values(|l: Label| l@) }
    }
}

/// The effective name of a key built from a static scope and a short
/// name: the two joined by the fixed `'.'` separator.
pub open spec fn scoped_name(scope: Seq<char>, name: Seq<char>) -> Seq<char> {
    scope + seq!['.'] + name
}

/// Relies on `alloc::string::String::push_str`: appends the given string
/// slice onto the end of the string.
#[verifier::external_body]
fn push_str(dest: &mut String, s: &str)
    ensures
        final(dest)@ == old(dest)@ + s@,
{
    dest.push_str(s)
}

/// Joins a static scope and a short name with the fixed `'.'`
/// separator, yielding the effective metric name.
pub fn resolve_name(scope: &str, name: &str) -> (r: String)
    ensures
        r@ == scoped_name(scope@, name@),
{
    let mut full = String::new();
    push_str(&mut full, scope);
    push_str(&mut full, ".");
    push_str(&mut full, name);
    proof {
        reveal_strlit(".");
        assert(full@ =~= scoped_name(scope@, name@));
    }
    full
}

impl Key {
    /// Creates a key from a name and its ordered labels.
    pub fn new(name: String, labels: Vec<Label>) -> (r: Key)
        ensures
            r@ == (KeyView { name: name@, labels: labels@.map_values(|l: Label| l@) }),
    {
        Key { name, labels }
    }

    /// Creates a key with no labels.
    pub fn from_name(name: String) -> (r: Key)
        ensures
            r@.name == name@,
            r@.labels == Seq::<LabelView>::empty(),
    {
        let k = Key { name, labels: Vec::new() };
        proof {
            assert(k@.labels =~= Seq::<LabelView>::empty());
        }
        k
    }

    /// Creates a key whose effective name joins a static scope and a
    /// short name with the fixed separator; the derivation happens here,
    /// at construction time, never at lookup time.
    pub fn scoped(scope: &str, name: &str, labels: Vec<Label>) -> (r: Key)
        ensures
            r@.name == scoped_name(scope@, name@),
            r@.labels == labels@.map_values(|l: Label| l@),
    {
        Key { name: resolve_name(scope, name), labels }
    }

    /// The effective name.
    pub fn name(&self) -> (r: &String)
        ensures
            r@ == self@.name,
    {
        &self.name
    }

    /// The ordered labels.
    pub fn labels(&self) -> (r: &Vec<Label>)
        ensures
            r@.map_values(|l: Label| l@) == self@.labels,
    {
        &self.labels
    }

    /// Decides key equality: names equal and label sequences equal, in
    /// order.
    pub fn key_eq(&self, other: &Key) -> (r: bool)
        ensures
            r == (self@ == other@),
    {
        if !self.name.eq(&other.name) {
            return false;
        }
        if self.labels.len() != other.labels.len() {
            proof {
                assert(self@.labels.len() != other@.labels.len());
            }
            return false;
        }
        let n = self.labels.len();
        for i in 0..n
            invariant
                n == self.labels.len(),
                n == other.labels.len(),
                self@.name == other@.name,
                forall|j: int| 0 <= j < i ==> self@.labels[j] == other@.labels[j],
        {
            let a = &self.labels[i];
            let b = &other.labels[i];
            if !a.name.eq(&b.name) || !a.value.eq(&b.value) {
                proof {
                    assert(self@.labels[i as int] != other@.labels[i as int]);
                }
                return false;
            }
            proof {
                assert(self@.labels[i as int] == other@.labels[i as int]);
            }
        }
        proof {
            assert(self@.labels =~= other@.labels);
        }
        true
    }
}

} // verus!

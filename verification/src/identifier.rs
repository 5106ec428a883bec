//! Opaque metric identifiers and the call-site cache cell that stores one.

use vstd::prelude::*;

verus! {

/// An opaque, cheaply copyable handle returned by registration and used
/// for all subsequent operations on a metric.
///
/// The zero value denotes "unregistered": it is what the no-op recorder
/// hands out, and every backend must tolerate it.
#[derive(Clone, Copy, PartialEq, Eq, Structural, Debug)]
pub struct Identifier(pub u64);

impl Identifier {
    /// The identifier that stands for "unregistered / no-op".
    pub open spec fn unregistered() -> Identifier {
        Identifier(0)
    }
}

impl Default for Identifier {
    /// The default identifier is the unregistered one.
    fn default() -> (r: Identifier)
        ensures
            r == Identifier::unregistered(),
    {
        Identifier(0)
    }
}

/// A lazily filled, write-at-most-once cell associated with one
/// instrumentation point, holding an [`Identifier`] once computed.
///
/// The first successful write wins; any later write is discarded, so all
/// readers observe a single, stable identifier for the life of the cell.
pub struct OnceIdentifier {
    slot: Option<Identifier>,
}

impl OnceIdentifier {
    /// The stored identifier, if the cell has been filled.
    pub closed spec fn stored(&self) -> Option<Identifier> {
        self.slot
    }

    /// Creates an empty cell.
    pub fn new() -> (r: OnceIdentifier)
        ensures
            r.stored() is None,
    {
        OnceIdentifier { slot: None }
    }

    /// Reads the cell without writing it.
    pub fn get(&self) -> (r: Option<Identifier>)
        ensures
            r == self.stored(),
    {
        self.slot
    }

    /// Creates a cell already holding an identifier, as a fast-path
    /// call site leaves it after its first completed registration.
    pub fn filled(id: Identifier) -> (r: OnceIdentifier)
        ensures
            r.stored() == Some(id),
    {
        OnceIdentifier { slot: Some(id) }
    }

    /// Fills the cell if it is still empty; a value offered to an already
    /// filled cell is discarded, as a losing racer's identifier would be.
    pub fn fill(&mut self, id: Identifier)
        ensures
            final(self).stored() == if old(self).stored() is Some {
                old(self).stored()
            } else {
                Some(id)
            },
    {
        if self.slot.is_none() {
            self.slot = Some(id);
        }
    }
}

} // verus!

//! The key lifecycle manager: one key pair per circuit shape, derived at
//! most once and kept for the life of the process.
//!
//! Deriving a key pair is expensive and is done outside this library. The
//! manager decides who derives: the first request for a shape is told to
//! derive, every request that comes while that derivation is in flight is
//! told to wait, and every later one gets the outcome. A failed derivation
//! is a fault of the shape and is never tried again.

use vstd::prelude::*;

verus! {

/// What the manager holds for a shape. `K` is the key pair as the caller
/// keeps it; the manager never looks into it.
pub enum KeySlot<K> {
    /// A derivation was handed out and has not come back.
    InFlight,
    /// The derived key pair.
    Ready(K),
    /// The derivation failed: the shape is inconsistent.
    Failed,
}

/// What a request for the keys of a shape is told.
#[derive(Clone, Copy, Debug, PartialEq, Eq, Structural)]
pub enum KeyDecision {
    /// Derive the key pair and hand it back with `complete`.
    Derive,
    /// Another request is deriving the key pair: wait and ask again.
    Wait,
    /// The key pair is there: take it with `keys`.
    Ready,
    /// The derivation failed before; it is not tried again.
    Failed,
}

/// The slot of one shape.
pub struct KeyEntry<K> {
    shape: usize,
    slot: KeySlot<K>,
}

/// The key pairs by circuit shape, which is the number of sub-proofs.
pub struct KeyManager<K> {
    entries: Vec<KeyEntry<K>>,
}

impl<K> KeyManager<K> {
    /// The shapes held, in the order in which they were first asked for.
    closed spec fn shapes(&self) -> Seq<usize> {
        Seq::new(self.entries@.len(), |i: int| self.entries@[i].shape)
    }

    /// Validity: every shape held occurs once.
    pub closed spec fn wf(&self) -> bool {
        self.shapes().no_duplicates()
    }

    /// What the manager holds for `shape`, if anything.
    pub closed spec fn slot(&self, shape: usize) -> Option<KeySlot<K>> {
        if self.shapes().contains(shape) {
            Some(self.entries@[self.shapes().index_of(shape)].slot)
        } else {
            None
        }
    }

    /// A manager that holds nothing.
    pub fn new() -> (r: KeyManager<K>)
        ensures
            r.wf(),
            forall|shape: usize| r.slot(shape) is None,
    {
        KeyManager { entries: Vec::new() }
    }

    /// The position of `shape` among the shapes held.
    fn find(&self, shape: usize) -> (r: Option<usize>)
        requires
            self.wf(),
        ensures
            r is None <==> !self.shapes().contains(shape),
            r matches Some(i) ==> i < self.entries@.len() && self.entries@[i as int].shape == shape
                && self.shapes().index_of(shape) == i,
    {
        let mut i: usize = 0;
        while i < self.entries.len()
            invariant
                self.wf(),
                i <= self.entries@.len(),
                forall|j: int| 0 <= j < i ==> self.shapes()[j] != shape,
            decreases self.entries@.len() - i,
        {
            if self.entries[i].shape == shape {
                assert(self.shapes()[i as int] == shape);
                return Some(i);
            }
            i += 1;
        }
        None
    }

    /// Asks for the keys of `shape`. A shape that the manager has not seen
    /// is marked as in flight and the caller is told to derive; for every
    /// other shape the caller is told what the manager holds, and nothing
    /// changes. So a derivation is handed out at most once per shape.
    pub fn request(&mut self, shape: usize) -> (decision: KeyDecision)
        requires
            old(self).wf(),
        ensures
            final(self).wf(),
            decision is Derive <==> old(self).slot(shape) is None,
            match old(self).slot(shape) {
                None => final(self).slot(shape) == Some(KeySlot::<K>::InFlight),
                Some(held) => {
                    &&& final(self).slot(shape) == Some(held)
                    &&& decision == match held {
                        KeySlot::InFlight => KeyDecision::Wait,
                        KeySlot::Ready(_) => KeyDecision::Ready,
                        KeySlot::Failed => KeyDecision::Failed,
                    }
                },
            },
            forall|other: usize|
                other != shape ==> final(self).slot(other) == old(self).slot(other),
    {
        match self.find(shape) {
            Some(i) => match &self.entries[i].slot {
                KeySlot::InFlight => KeyDecision::Wait,
                KeySlot::Ready(_) => KeyDecision::Ready,
                KeySlot::Failed => KeyDecision::Failed,
            },
            None => {
                let ghost before = *self;
                self.entries.push(KeyEntry { shape, slot: KeySlot::InFlight });
                proof {
                    let last = before.entries@.len() as int;
                    assert(self.shapes() =~= before.shapes().push(shape));
                    assert(self.shapes()[last] == shape);
                    assert forall|other: usize| other != shape implies self.slot(other)
                        == before.slot(other) by {
                        if before.shapes().contains(other) {
                            let k = before.shapes().index_of(other);
                            assert(self.shapes()[k] == other);
                        }
                    }
                }
                KeyDecision::Derive
            },
        }
    }

    /// Hands back the outcome of the derivation for `shape`: the key pair,
    /// or nothing where the derivation failed. The outcome is taken only
    /// while the derivation is in flight; the result says whether it was.
    pub fn complete(&mut self, shape: usize, outcome: Option<K>) -> (taken: bool)
        requires
            old(self).wf(),
        ensures
            final(self).wf(),
            taken <==> old(self).slot(shape) == Some(KeySlot::<K>::InFlight),
            final(self).slot(shape) == if taken {
                Some(
                    match outcome {
                        Some(pair) => KeySlot::Ready(pair),
                        None => KeySlot::Failed,
                    },
                )
            } else {
                old(self).slot(shape)
            },
            forall|other: usize|
                other != shape ==> final(self).slot(other) == old(self).slot(other),
    {
        match self.find(shape) {
            Some(i) => {
                let in_flight = match &self.entries[i].slot {
                    KeySlot::InFlight => true,
                    _ => false,
                };
                if in_flight {
                    let ghost before = *self;
                    let slot = match outcome {
                        Some(pair) => KeySlot::Ready(pair),
                        None => KeySlot::Failed,
                    };
                    self.entries[i] = KeyEntry { shape, slot };
                    proof {
                        assert(self.shapes() =~= before.shapes());
                    }
                    true
                } else {
                    false
                }
            },
            None => false,
        }
    }

    /// The key pair of `shape`, where it has been derived.
    pub fn keys(&self, shape: usize) -> (r: Option<&K>)
        requires
            self.wf(),
        ensures
            match self.slot(shape) {
                Some(KeySlot::Ready(pair)) => r == Some(&pair),
                _ => r is None,
            },
    {
        match self.find(shape) {
            Some(i) => match &self.entries[i].slot {
                KeySlot::Ready(pair) => Some(pair),
                _ => None,
            },
            None => None,
        }
    }
}

} // verus!

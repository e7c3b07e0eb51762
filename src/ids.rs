//! Instance ids: handed out in increasing order, never twice.
use vstd::prelude::*;

verus! {

/// A source of instance ids, starting at 1.
pub struct InstanceIds {
    next: u64,
    issued: Ghost<Set<u64>>,
}

impl InstanceIds {
    #[verifier::type_invariant]
    spec fn inv(self) -> bool {
        &&& self.next >= 1
        &&& forall|i: u64| #[trigger] self.issued@.contains(i) ==> i < self.next
    }

    /// The id that the next allocation hands out.
    pub closed spec fn next_id(self) -> u64 {
        self.next
    }

    /// The ids handed out so far.
    pub closed spec fn issued(self) -> Set<u64> {
        self.issued@
    }

    /// A source that has handed out nothing and starts at 1.
    pub fn new() -> (r: InstanceIds)
        ensures
            r.next_id() == 1,
            r.issued() == Set::<u64>::empty(),
    {
        InstanceIds { next: 1, issued: Ghost(Set::empty()) }
    }

    /// Hands out the next id, which was never handed out before; `None` once the
    /// ids are exhausted.
    pub fn allocate(&mut self) -> (r: Option<u64>)
        ensures
            match r {
                Some(id) => {
                    &&& id == old(self).next_id()
                    &&& id >= 1
                    &&& forall|i: u64| #[trigger] old(self).issued().contains(i) ==> i < id
                    &&& !old(self).issued().contains(id)
                    &&& final(self).issued() == old(self).issued().insert(id)
                    &&& final(self).next_id() == id + 1
                },
                None => old(self).next_id() == u64::MAX && final(self).issued() == old(
                    self,
                ).issued() && final(self).next_id() == old(self).next_id(),
            },
    {
        proof {
            use_type_invariant(&*self);
        }
        if self.next == u64::MAX {
            return None;
        }
        let id = self.next;
        self.next = id + 1;
        self.issued = Ghost(self.issued@.insert(id));
        Some(id)
    }
}

} // verus!

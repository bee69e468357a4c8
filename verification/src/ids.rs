//! Process-unique primary keys.
//!
//! Wall-clock time alone cannot guarantee uniqueness: two calls within one
//! clock tick would collide. The generator therefore hands out values from a
//! monotonic counter; a caller may fold a clock reading into the starting
//! value, but uniqueness rests on the counter alone. The generator remembers
//! (in ghost state) every id it has issued, and its invariant makes the
//! issued ids strictly increasing, hence pairwise distinct.

use vstd::prelude::*;

verus! {

/// Produces ids unique among all ids ever issued by this generator.
pub struct IdGenerator {
    next: u64,
    issued: Ghost<Seq<u64>>,
}

impl IdGenerator {
    /// The value the next call to `generate_id` will return.
    pub closed spec fn spec_next(&self) -> u64 {
        self.next
    }

    /// Every id issued so far, in order.
    pub closed spec fn issued_ids(&self) -> Seq<u64> {
        self.issued@
    }

    /// Issued ids are strictly increasing and all lie below `next`, so a
    /// fresh id can never repeat an issued one.
    pub closed spec fn wf(&self) -> bool {
        &&& forall|i: int| 0 <= i < self.issued@.len() ==> self.issued@[i] < self.next
        &&& forall|i: int, j: int|
            0 <= i < j < self.issued@.len() ==> self.issued@[i] < self.issued@[j]
    }

    /// A fresh generator whose first id will be `first_id`. A caller that
    /// wants clock-flavoured ids folds a clock reading into `first_id`.
    pub fn new(first_id: u64) -> (g: IdGenerator)
        ensures
            g.wf(),
            g.spec_next() == first_id,
            g.issued_ids() == Seq::<u64>::empty(),
    {
        IdGenerator { next: first_id, issued: Ghost(Seq::empty()) }
    }

    /// Whether another id can still be issued.
    pub fn has_capacity(&self) -> (r: bool)
        ensures
            r == (self.spec_next() < u64::MAX),
    {
        self.next < u64::MAX
    }

    /// Issues the next id: unique among all ids this generator ever issued.
    pub fn generate_id(&mut self) -> (id: u64)
        requires
            old(self).wf(),
            old(self).spec_next() < u64::MAX,
        ensures
            final(self).wf(),
            id == old(self).spec_next(),
            final(self).spec_next() == old(self).spec_next() + 1,
            final(self).issued_ids() == old(self).issued_ids().push(id),
            forall|i: int| 0 <= i < old(self).issued_ids().len()
                ==> old(self).issued_ids()[i] != id,
    {
        let id = self.next;
        self.next = self.next + 1;
        proof {
            self.issued@ = self.issued@.push(id);
        }
        id
    }

    /// All ids a well-formed generator has issued are pairwise distinct,
    /// however many were requested and however the generator was seeded.
    pub proof fn lemma_issued_ids_distinct(&self)
        requires
            self.wf(),
        ensures
            forall|i: int, j: int|
                0 <= i < self.issued_ids().len() && 0 <= j < self.issued_ids().len() && i != j
                    ==> self.issued_ids()[i] != self.issued_ids()[j],
    {
    }
}

} // verus!

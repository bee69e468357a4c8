//! The entity table: a primary-key-indexed collection of entity records.
//!
//! The table enforces key uniqueness on insert and existence on update, and
//! offers read-only lookup and snapshot iteration. Its view is the sequence
//! of stored rows in insertion order; `entity::spec_get` gives the
//! key-indexed reading of that sequence.

use crate::entity::{
    has_id, ids_distinct, lemma_row_index_unique, row_index, spec_get, GameEntity,
};
use vstd::pervasive::VecAdditionalExecFns;
use vstd::prelude::*;

verus! {

/// The errors the raw table operations report. `DuplicateKey` rejects an
/// insert under a key already present; `NotFound` rejects an update of a key
/// not present.
#[derive(Clone, Copy, Debug, Eq, PartialEq, Structural)]
pub enum TableError {
    DuplicateKey,
    NotFound,
}

/// A primary-key-indexed table of entities, the sole source of truth for
/// entity state. Rows are kept in insertion order; no two rows share an id.
pub struct EntityTable {
    rows: Vec<GameEntity>,
}

impl View for EntityTable {
    type V = Seq<GameEntity>;

    closed spec fn view(&self) -> Seq<GameEntity> {
        self.rows@
    }
}

impl EntityTable {
    /// Primary-key uniqueness: constructors establish it and every operation
    /// preserves it.
    pub open spec fn wf(&self) -> bool {
        ids_distinct(self@)
    }

    /// An empty table.
    pub fn new() -> (t: EntityTable)
        ensures
            t@ == Seq::<GameEntity>::empty(),
            t.wf(),
    {
        EntityTable { rows: Vec::new() }
    }

    /// How many entities the table currently holds.
    pub fn len(&self) -> (n: usize)
        ensures
            n == self@.len(),
    {
        self.rows.len()
    }

    /// The index of the row carrying `id`, if any. Linear scan over the rows.
    fn find(&self, id: u64) -> (r: Option<usize>)
        requires
            self.wf(),
        ensures
            match r {
                Some(i) => has_id(self@, id) && i == row_index(self@, id) && i < self@.len(),
                None => !has_id(self@, id),
            },
    {
        let n = self.rows.len();
        let mut i: usize = 0;
        while i < n
            invariant
                n == self@.len(),
                0 <= i <= n,
                self.wf(),
                forall|j: int| 0 <= j < i ==> self@[j].id != id,
            decreases n - i,
        {
            if self.rows[i].id == id {
                proof {
                    lemma_row_index_unique(self@, id, i as int);
                }
                return Some(i);
            }
            i = i + 1;
        }
        None
    }

    /// A copy of the record stored under `id`, if present; no side effects.
    pub fn get(&self, id: u64) -> (r: Option<GameEntity>)
        requires
            self.wf(),
        ensures
            r == spec_get(self@, id),
    {
        match self.find(id) {
            Some(i) => Some(self.rows[i]),
            None => None,
        }
    }

    /// Adds `e` unless its key is already taken; on `DuplicateKey` the table
    /// is unchanged.
    pub fn insert(&mut self, e: GameEntity) -> (r: Result<(), TableError>)
        requires
            old(self).wf(),
        ensures
            final(self).wf(),
            match r {
                Ok(()) => !has_id(old(self)@, e.id) && final(self)@ == old(self)@.push(e),
                Err(err) => err == TableError::DuplicateKey && has_id(old(self)@, e.id)
                    && final(self)@ == old(self)@,
            },
    {
        match self.find(e.id) {
            Some(_) => Err(TableError::DuplicateKey),
            None => {
                self.rows.push(e);
                proof {
                    assert forall|i: int, j: int|
                        0 <= i < self@.len() && 0 <= j < self@.len() && i != j
                        implies self@[i].id != self@[j].id by {
                        if i < old(self)@.len() && j < old(self)@.len() {
                            assert(old(self)@[i].id != old(self)@[j].id);
                        }
                    }
                }
                Ok(())
            },
        }
    }

    /// Replaces the record stored under `id` with `e`; on `NotFound` the
    /// table is unchanged. The caller keeps the key stable (`e.id == id`) and
    /// is responsible for having copied forward the immutable fields.
    pub fn update(&mut self, id: u64, e: GameEntity) -> (r: Result<(), TableError>)
        requires
            old(self).wf(),
            e.id == id,
        ensures
            final(self).wf(),
            match r {
                Ok(()) => has_id(old(self)@, id)
                    && final(self)@ == old(self)@.update(row_index(old(self)@, id), e),
                Err(err) => err == TableError::NotFound && !has_id(old(self)@, id)
                    && final(self)@ == old(self)@,
            },
    {
        match self.find(id) {
            None => Err(TableError::NotFound),
            Some(i) => {
                self.rows.set(i, e);
                proof {
                    assert forall|p: int, q: int|
                        0 <= p < self@.len() && 0 <= q < self@.len() && p != q
                        implies self@[p].id != self@[q].id by {
                        assert(old(self)@[p].id != old(self)@[q].id);
                        assert(old(self)@[i as int].id == id);
                    }
                }
                Ok(())
            },
        }
    }

    /// A snapshot of all current rows, in insertion order.
    pub fn iterate(&self) -> (r: Vec<GameEntity>)
        ensures
            r@ == self@,
    {
        let n = self.rows.len();
        let mut out: Vec<GameEntity> = Vec::new();
        let mut i: usize = 0;
        while i < n
            invariant
                n == self@.len(),
                0 <= i <= n,
                out@ == self@.subrange(0, i as int),
            decreases n - i,
        {
            out.push(self.rows[i]);
            proof {
                assert(out@ =~= self@.subrange(0, i + 1 as int));
            }
            i = i + 1;
        }
        proof {
            assert(out@ =~= self@);
        }
        out
    }

    /// A working copy of the whole table, for a transaction's write buffer.
    pub fn snapshot(&self) -> (r: EntityTable)
        ensures
            r@ == self@,
    {
        EntityTable { rows: self.iterate() }
    }
}

} // verus!

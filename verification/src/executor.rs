//! The reducer executor and the reducer logic it runs.
//!
//! A reducer is a named, transactional unit of work invoked with a caller
//! identity and a timestamp. The executor runs each request against a
//! write buffer (a snapshot of the live table) and installs the buffer only
//! on commit, so an aborted call leaves the live table exactly as it was.
//! Because `run` takes the executor exclusively, concurrent invocations are
//! serialized and no two committed creations can share an id.

use crate::entity::{
    has_id, ids_distinct, row_index, with_position, GameEntity, Identity, Timestamp,
};
use crate::ids::IdGenerator;
use crate::table::EntityTable;
use vstd::prelude::*;

verus! {

/// What a reducer sees of its transaction: the caller and the transaction
/// timestamp, both supplied by the hosting boundary.
#[derive(Clone, Copy, Debug, Eq, PartialEq, Structural)]
pub struct ReducerContext {
    pub sender: Identity,
    pub timestamp: Timestamp,
}

/// A reducer invocation, as a tagged variant rather than dynamic dispatch.
/// `CreateEntityThenFail` inserts like `CreateEntity` and then signals an
/// unexpected internal failure, so the transaction always aborts; it models
/// a reducer that fails after a table mutation.
#[derive(Clone, Copy, Debug, Eq, PartialEq, Structural)]
pub enum ReducerRequest {
    CreateEntity { position_x: u32, position_y: u32, position_z: u32 },
    UpdateEntityPosition { entity_id: u64, position_x: u32, position_y: u32, position_z: u32 },
    CreateEntityThenFail { position_x: u32, position_y: u32, position_z: u32 },
}

/// The business result a committed reducer returns.
#[derive(Clone, Copy, Debug, Eq, PartialEq, Structural)]
pub enum ReducerValue {
    EntityId(u64),
    Updated(bool),
}

/// The two terminal outcomes of a reducer transaction: the mutations persist
/// (`Committed`, with the reducer's result), or none of them do (`Aborted`).
#[derive(Clone, Copy, Debug, Eq, PartialEq, Structural)]
pub enum ReducerOutcome {
    Committed(ReducerValue),
    Aborted,
}

/// The entity a creation inserts: a fresh id, the given position, and the
/// caller and timestamp of the transaction.
pub open spec fn created_entity(id: u64, x: u32, y: u32, z: u32, ctx: ReducerContext) -> GameEntity {
    GameEntity {
        id,
        position_x: x,
        position_y: y,
        position_z: z,
        owner: ctx.sender,
        created_at: ctx.timestamp,
    }
}

/// Creates a new entity owned by the caller: draws a fresh id, inserts a
/// record with the given position, the caller as owner and the transaction
/// timestamp, and returns the id. A duplicate key cannot arise from a
/// well-formed generator, but if the insert reports one the reducer signals
/// an abort and leaves the table unchanged.
pub fn create_entity(
    ctx: &ReducerContext,
    db: &mut EntityTable,
    ids: &mut IdGenerator,
    position_x: u32,
    position_y: u32,
    position_z: u32,
) -> (r: Result<u64, crate::table::TableError>)
    requires
        old(db).wf(),
        old(ids).wf(),
        old(ids).spec_next() < u64::MAX,
    ensures
        final(db).wf(),
        final(ids).wf(),
        final(ids).spec_next() == old(ids).spec_next() + 1,
        final(ids).issued_ids() == old(ids).issued_ids().push(old(ids).spec_next()),
        match r {
            Ok(id) => {
                &&& id == old(ids).spec_next()
                &&& !has_id(old(db)@, id)
                &&& final(db)@ == old(db)@.push(
                    created_entity(id, position_x, position_y, position_z, *ctx),
                )
            },
            Err(err) => {
                &&& err == crate::table::TableError::DuplicateKey
                &&& has_id(old(db)@, old(ids).spec_next())
                &&& final(db)@ == old(db)@
            },
        },
{
    let entity_id = ids.generate_id();
    let record = GameEntity {
        id: entity_id,
        position_x,
        position_y,
        position_z,
        owner: ctx.sender,
        created_at: ctx.timestamp,
    };
    match db.insert(record) {
        Ok(()) => Ok(entity_id),
        Err(err) => Err(err),
    }
}

/// Updates an entity's position, preserving `id`, `owner` and `created_at`.
/// A missing entity and a caller other than the owner are both normal
/// business outcomes: the call returns `false` and the table is unchanged.
/// Only the owner's call returns `true` and replaces the position.
pub fn update_entity_position(
    ctx: &ReducerContext,
    db: &mut EntityTable,
    entity_id: u64,
    position_x: u32,
    position_y: u32,
    position_z: u32,
) -> (r: bool)
    requires
        old(db).wf(),
    ensures
        final(db).wf(),
        !has_id(old(db)@, entity_id) ==> !r && final(db)@ == old(db)@,
        has_id(old(db)@, entity_id) && old(db)@[row_index(old(db)@, entity_id)].owner
            != ctx.sender ==> !r && final(db)@ == old(db)@,
        has_id(old(db)@, entity_id) && old(db)@[row_index(old(db)@, entity_id)].owner
            == ctx.sender ==> r && final(db)@ == old(db)@.update(
            row_index(old(db)@, entity_id),
            with_position(
                old(db)@[row_index(old(db)@, entity_id)],
                position_x,
                position_y,
                position_z,
            ),
        ),
{
    let entity = match db.get(entity_id) {
        Some(entity) => entity,
        None => {
            return false;
        },
    };
    if entity.owner != ctx.sender {
        return false;
    }
    let updated = GameEntity {
        id: entity_id,
        position_x,
        position_y,
        position_z,
        owner: entity.owner,
        created_at: entity.created_at,
    };
    match db.update(entity_id, updated) {
        Ok(()) => true,
        Err(_) => {
            proof {
                assert(false);
            }
            true
        },
    }
}

/// The read-only query surface: a snapshot of all current entities, in the
/// table's insertion order.
pub fn get_all_entities(db: &EntityTable) -> (r: Vec<GameEntity>)
    ensures
        r@ == db@,
{
    db.iterate()
}

/// Runs reducers one at a time against the live table, committing or
/// rolling back each call as a whole. It owns the only mutable handle to
/// the table, so reducer logic can never mutate outside a transaction.
pub struct ReducerExecutor {
    store: EntityTable,
    ids: IdGenerator,
    created: Ghost<Seq<u64>>,
}

impl ReducerExecutor {
    /// The committed contents of the live table.
    pub closed spec fn entities(&self) -> Seq<GameEntity> {
        self.store@
    }

    /// The id every committed creation has returned, in commit order.
    pub closed spec fn created_ids(&self) -> Seq<u64> {
        self.created@
    }

    /// The id the next creation will return.
    pub closed spec fn next_id(&self) -> u64 {
        self.ids.spec_next()
    }

    /// The executor's invariant: the table and generator are well formed,
    /// every stored id and every returned id lies below the generator's next
    /// id, and the returned ids are strictly increasing.
    pub closed spec fn wf(&self) -> bool {
        &&& self.store.wf()
        &&& self.ids.wf()
        &&& forall|i: int| 0 <= i < self.store@.len() ==> self.store@[i].id < self.ids.spec_next()
        &&& forall|i: int| 0 <= i < self.created@.len() ==> self.created@[i] < self.ids.spec_next()
        &&& forall|i: int, j: int|
            0 <= i < j < self.created@.len() ==> self.created@[i] < self.created@[j]
    }

    /// A fresh executor over an empty table; its first entity id will be
    /// `first_id`.
    pub fn new(first_id: u64) -> (e: ReducerExecutor)
        ensures
            e.wf(),
            e.entities() == Seq::<GameEntity>::empty(),
            e.created_ids() == Seq::<u64>::empty(),
            e.next_id() == first_id,
    {
        ReducerExecutor {
            store: EntityTable::new(),
            ids: IdGenerator::new(first_id),
            created: Ghost(Seq::empty()),
        }
    }

    /// Read access to the live table, for queries between transactions.
    pub fn db(&self) -> (r: &EntityTable)
        ensures
            r@ == self.entities(),
            self.wf() ==> r.wf(),
    {
        &self.store
    }

    /// Executes one reducer transaction. The request's mutations are made in
    /// a write buffer and installed only on commit, so an aborted call
    /// leaves the table exactly as it was. A creation commits and returns a
    /// fresh id whenever the id space is not exhausted; an update always
    /// commits, with the business boolean of `update_entity_position`; the
    /// failing variant always aborts.
    pub fn run(&mut self, req: ReducerRequest, sender: Identity, timestamp: Timestamp) -> (r:
        ReducerOutcome)
        requires
            old(self).wf(),
        ensures
            final(self).wf(),
            r == ReducerOutcome::Aborted ==> final(self).entities() == old(self).entities(),
            match req {
                ReducerRequest::CreateEntity { position_x, position_y, position_z } => {
                    if old(self).next_id() < u64::MAX {
                        &&& r == ReducerOutcome::Committed(
                            ReducerValue::EntityId(old(self).next_id()),
                        )
                        &&& final(self).entities() == old(self).entities().push(
                            created_entity(
                                old(self).next_id(),
                                position_x,
                                position_y,
                                position_z,
                                ReducerContext { sender, timestamp },
                            ),
                        )
                        &&& !has_id(old(self).entities(), old(self).next_id())
                        &&& final(self).created_ids() == old(self).created_ids().push(
                            old(self).next_id(),
                        )
                        &&& final(self).next_id() == old(self).next_id() + 1
                    } else {
                        &&& r == ReducerOutcome::Aborted
                        &&& final(self).entities() == old(self).entities()
                        &&& final(self).created_ids() == old(self).created_ids()
                        &&& final(self).next_id() == old(self).next_id()
                    }
                },
                ReducerRequest::UpdateEntityPosition {
                    entity_id,
                    position_x,
                    position_y,
                    position_z,
                } => {
                    &&& final(self).created_ids() == old(self).created_ids()
                    &&& final(self).next_id() == old(self).next_id()
                    &&& if has_id(old(self).entities(), entity_id) && old(self).entities()[
                        row_index(old(self).entities(), entity_id)
                    ].owner == sender {
                        &&& r == ReducerOutcome::Committed(ReducerValue::Updated(true))
                        &&& final(self).entities() == old(self).entities().update(
                            row_index(old(self).entities(), entity_id),
                            with_position(
                                old(self).entities()[row_index(old(self).entities(), entity_id)],
                                position_x,
                                position_y,
                                position_z,
                            ),
                        )
                    } else {
                        &&& r == ReducerOutcome::Committed(ReducerValue::Updated(false))
                        &&& final(self).entities() == old(self).entities()
                    }
                },
                ReducerRequest::CreateEntityThenFail { .. } => {
                    &&& r == ReducerOutcome::Aborted
                    &&& final(self).entities() == old(self).entities()
                    &&& final(self).created_ids() == old(self).created_ids()
                    &&& final(self).next_id() == if old(self).next_id() < u64::MAX {
                        (old(self).next_id() + 1) as u64
                    } else {
                        old(self).next_id()
                    }
                },
            },
    {
        let ctx = ReducerContext { sender, timestamp };
        match req {
            ReducerRequest::CreateEntity { position_x, position_y, position_z } => {
                if !self.ids.has_capacity() {
                    return ReducerOutcome::Aborted;
                }
                let mut work = self.store.snapshot();
                let res = create_entity(
                    &ctx,
                    &mut work,
                    &mut self.ids,
                    position_x,
                    position_y,
                    position_z,
                );
                match res {
                    Ok(id) => {
                        self.store = work;
                        proof {
                            self.created@ = self.created@.push(id);
                        }
                        ReducerOutcome::Committed(ReducerValue::EntityId(id))
                    },
                    Err(_) => {
                        proof {
                            assert(false);
                        }
                        ReducerOutcome::Aborted
                    },
                }
            },
            ReducerRequest::UpdateEntityPosition {
                entity_id,
                position_x,
                position_y,
                position_z,
            } => {
                let mut work = self.store.snapshot();
                let ok = update_entity_position(
                    &ctx,
                    &mut work,
                    entity_id,
                    position_x,
                    position_y,
                    position_z,
                );
                self.store = work;
                ReducerOutcome::Committed(ReducerValue::Updated(ok))
            },
            ReducerRequest::CreateEntityThenFail { position_x, position_y, position_z } => {
                if !self.ids.has_capacity() {
                    return ReducerOutcome::Aborted;
                }
                let mut work = self.store.snapshot();
                let _ = create_entity(
                    &ctx,
                    &mut work,
                    &mut self.ids,
                    position_x,
                    position_y,
                    position_z,
                );
                // The simulated internal failure: the write buffer is
                // discarded instead of installed, and the call aborts.
                ReducerOutcome::Aborted
            },
        }
    }

    /// A well-formed executor's table never holds two entities sharing an
    /// id, however many creations ran.
    pub proof fn lemma_entity_ids_distinct(&self)
        requires
            self.wf(),
        ensures
            ids_distinct(self.entities()),
    {
    }

    /// The ids returned by a well-formed executor's committed creations are
    /// pairwise distinct, whatever the requests' timestamps were and in
    /// whatever order the transactions were serialized.
    pub proof fn lemma_created_ids_distinct(&self)
        requires
            self.wf(),
        ensures
            forall|i: int, j: int|
                0 <= i < self.created_ids().len() && 0 <= j < self.created_ids().len() && i != j
                    ==> self.created_ids()[i] != self.created_ids()[j],
    {
    }
}

/// Brings the module's state up: an executor over an empty table whose first
/// entity id is 1.
pub fn init() -> (e: ReducerExecutor)
    ensures
        e.wf(),
        e.entities() == Seq::<GameEntity>::empty(),
        e.created_ids() == Seq::<u64>::empty(),
        e.next_id() == 1,
{
    ReducerExecutor::new(1)
}

} // verus!

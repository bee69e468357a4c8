//! The entity record and the opaque boundary values it carries.
//!
//! The hosting environment supplies a caller identity (used only for
//! equality-based ownership checks) and a creation timestamp (used only as a
//! marker); the store treats both as opaque plain values. Coordinates are
//! carried as 32-bit patterns so that the table itself never computes on
//! them; the boundary that owns the numeric interpretation converts in and
//! out.

use vstd::prelude::*;

verus! {

/// An opaque caller identity, compared only for equality.
#[derive(Clone, Copy, Debug, Eq, Hash, PartialEq, Structural)]
pub struct Identity {
    pub value: u64,
}

/// An opaque creation timestamp, in microseconds since some fixed epoch.
#[derive(Clone, Copy, Debug, Eq, Hash, PartialEq, Structural)]
pub struct Timestamp {
    pub micros: u64,
}

/// One game object's authoritative state. `id` is the primary key and is
/// immutable after creation, as are `owner` and `created_at`; only the
/// position fields may change. Each position field holds the bit pattern of
/// one coordinate.
#[derive(Clone, Copy, Debug, Eq, PartialEq, Structural)]
pub struct GameEntity {
    pub id: u64,
    pub position_x: u32,
    pub position_y: u32,
    pub position_z: u32,
    pub owner: Identity,
    pub created_at: Timestamp,
}

/// No two rows share a primary key.
pub open spec fn ids_distinct(s: Seq<GameEntity>) -> bool {
    forall|i: int, j: int|
        0 <= i < s.len() && 0 <= j < s.len() && i != j ==> s[i].id != s[j].id
}

/// Some row carries the key `id`.
pub open spec fn has_id(s: Seq<GameEntity>, id: u64) -> bool {
    exists|i: int| 0 <= i < s.len() && s[i].id == id
}

/// The index of the row carrying the key `id`; meaningful only when
/// `has_id(s, id)` holds, and unique when `ids_distinct(s)` holds.
pub open spec fn row_index(s: Seq<GameEntity>, id: u64) -> int {
    choose|i: int| 0 <= i < s.len() && s[i].id == id
}

/// The row stored under the key `id`, if any.
pub open spec fn spec_get(s: Seq<GameEntity>, id: u64) -> Option<GameEntity> {
    if has_id(s, id) {
        Some(s[row_index(s, id)])
    } else {
        None
    }
}

/// `e` with its position replaced and every other field kept.
pub open spec fn with_position(e: GameEntity, x: u32, y: u32, z: u32) -> GameEntity {
    GameEntity { position_x: x, position_y: y, position_z: z, ..e }
}

/// In a table without duplicate keys, a row that carries `id` is the one
/// `row_index` picks.
pub proof fn lemma_row_index_unique(s: Seq<GameEntity>, id: u64, i: int)
    requires
        ids_distinct(s),
        0 <= i < s.len(),
        s[i].id == id,
    ensures
        has_id(s, id),
        row_index(s, id) == i,
{
    assert(has_id(s, id));
    let j = row_index(s, id);
    assert(0 <= j < s.len() && s[j].id == id);
}

} // verus!

//! An in-process transactional entity store for a game-state backend.
//!
//! The crate provides a primary-key-indexed entity table, a process-unique
//! id generator, and a reducer executor that runs state-changing transactions
//! (reducers) atomically: each call either commits all of its table mutations
//! or discards them entirely.

pub mod entity;
pub mod executor;
pub mod ids;
pub mod person;
pub mod table;

pub use entity::{GameEntity, Identity, Timestamp};
pub use executor::{
    create_entity, get_all_entities, init, update_entity_position, ReducerContext,
    ReducerExecutor, ReducerOutcome, ReducerRequest, ReducerValue,
};
pub use ids::IdGenerator;
pub use person::{add, say_hello, Person, PersonTable};
pub use table::{EntityTable, TableError};

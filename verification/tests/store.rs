use entity_store::{
    create_entity, get_all_entities, init, update_entity_position, EntityTable, GameEntity,
    IdGenerator, Identity, ReducerContext, ReducerExecutor, ReducerOutcome, ReducerRequest,
    ReducerValue, TableError, Timestamp,
};

fn entity(id: u64, x: u32, y: u32, z: u32, owner: u64, at: u64) -> GameEntity {
    GameEntity {
        id,
        position_x: x,
        position_y: y,
        position_z: z,
        owner: Identity { value: owner },
        created_at: Timestamp { micros: at },
    }
}

#[test]
fn create_then_query_yields_one_owned_entity() {
    let mut exec = init();
    let a = Identity { value: 7 };
    let outcome = exec.run(
        ReducerRequest::CreateEntity {
            position_x: (1.0f32).to_bits(),
            position_y: (2.0f32).to_bits(),
            position_z: (3.0f32).to_bits(),
        },
        a,
        Timestamp { micros: 100 },
    );
    assert_eq!(outcome, ReducerOutcome::Committed(ReducerValue::EntityId(1)));
    let all = get_all_entities(exec.db());
    assert_eq!(all.len(), 1);
    assert_eq!(all[0].id, 1);
    assert_eq!(f32::from_bits(all[0].position_x), 1.0);
    assert_eq!(f32::from_bits(all[0].position_y), 2.0);
    assert_eq!(f32::from_bits(all[0].position_z), 3.0);
    assert_eq!(all[0].owner, a);
    assert_eq!(all[0].created_at, Timestamp { micros: 100 });
}

#[test]
fn created_ids_distinct_even_with_identical_timestamps() {
    let mut exec = init();
    let a = Identity { value: 1 };
    let req = ReducerRequest::CreateEntity { position_x: 0, position_y: 0, position_z: 0 };
    let stamp = Timestamp { micros: 42 };
    let first = exec.run(req, a, stamp);
    let second = exec.run(req, a, stamp);
    let (id1, id2) = match (first, second) {
        (
            ReducerOutcome::Committed(ReducerValue::EntityId(i)),
            ReducerOutcome::Committed(ReducerValue::EntityId(j)),
        ) => (i, j),
        other => panic!("both creations must commit, got {:?}", other),
    };
    assert_ne!(id1, id2);
    let all = get_all_entities(exec.db());
    assert_eq!(all.len(), 2);
    assert_ne!(all[0].id, all[1].id);
}

#[test]
fn update_by_non_owner_returns_false_and_changes_nothing() {
    let mut exec = init();
    let owner = Identity { value: 1 };
    let stranger = Identity { value: 2 };
    exec.run(
        ReducerRequest::CreateEntity { position_x: 10, position_y: 20, position_z: 30 },
        owner,
        Timestamp { micros: 5 },
    );
    let outcome = exec.run(
        ReducerRequest::UpdateEntityPosition {
            entity_id: 1,
            position_x: 99,
            position_y: 99,
            position_z: 99,
        },
        stranger,
        Timestamp { micros: 6 },
    );
    assert_eq!(outcome, ReducerOutcome::Committed(ReducerValue::Updated(false)));
    let all = get_all_entities(exec.db());
    assert_eq!(all, vec![entity(1, 10, 20, 30, 1, 5)]);
}

#[test]
fn update_of_missing_entity_returns_false_and_keeps_size() {
    let mut exec = init();
    let a = Identity { value: 1 };
    exec.run(
        ReducerRequest::CreateEntity { position_x: 1, position_y: 1, position_z: 1 },
        a,
        Timestamp { micros: 1 },
    );
    let before = get_all_entities(exec.db());
    let outcome = exec.run(
        ReducerRequest::UpdateEntityPosition {
            entity_id: 999,
            position_x: 5,
            position_y: 5,
            position_z: 5,
        },
        a,
        Timestamp { micros: 2 },
    );
    assert_eq!(outcome, ReducerOutcome::Committed(ReducerValue::Updated(false)));
    let after = get_all_entities(exec.db());
    assert_eq!(after.len(), before.len());
    assert_eq!(after, before);
}

#[test]
fn update_by_owner_replaces_position_and_keeps_immutable_fields() {
    let mut exec = init();
    let a = Identity { value: 3 };
    exec.run(
        ReducerRequest::CreateEntity { position_x: 1, position_y: 2, position_z: 3 },
        a,
        Timestamp { micros: 50 },
    );
    let nine = (9.0f32).to_bits();
    let outcome = exec.run(
        ReducerRequest::UpdateEntityPosition {
            entity_id: 1,
            position_x: nine,
            position_y: nine,
            position_z: nine,
        },
        a,
        Timestamp { micros: 60 },
    );
    assert_eq!(outcome, ReducerOutcome::Committed(ReducerValue::Updated(true)));
    let all = get_all_entities(exec.db());
    assert_eq!(all.len(), 1);
    assert_eq!(all[0].id, 1);
    assert_eq!(all[0].owner, a);
    assert_eq!(all[0].created_at, Timestamp { micros: 50 });
    assert_eq!(f32::from_bits(all[0].position_x), 9.0);
    assert_eq!(f32::from_bits(all[0].position_y), 9.0);
    assert_eq!(f32::from_bits(all[0].position_z), 9.0);
}

#[test]
fn aborted_reducer_leaves_table_identical() {
    let mut exec = init();
    let a = Identity { value: 4 };
    exec.run(
        ReducerRequest::CreateEntity { position_x: 7, position_y: 8, position_z: 9 },
        a,
        Timestamp { micros: 10 },
    );
    let before = get_all_entities(exec.db());
    let outcome = exec.run(
        ReducerRequest::CreateEntityThenFail { position_x: 1, position_y: 1, position_z: 1 },
        a,
        Timestamp { micros: 11 },
    );
    assert_eq!(outcome, ReducerOutcome::Aborted);
    let after = get_all_entities(exec.db());
    assert_eq!(after, before);
}

#[test]
fn creation_aborts_once_the_id_space_is_exhausted() {
    let mut exec = ReducerExecutor::new(u64::MAX);
    let a = Identity { value: 1 };
    let outcome = exec.run(
        ReducerRequest::CreateEntity { position_x: 0, position_y: 0, position_z: 0 },
        a,
        Timestamp { micros: 0 },
    );
    assert_eq!(outcome, ReducerOutcome::Aborted);
    assert_eq!(get_all_entities(exec.db()).len(), 0);
}

#[test]
fn table_insert_rejects_duplicate_key() {
    let mut table = EntityTable::new();
    assert_eq!(table.insert(entity(5, 0, 0, 0, 1, 1)), Ok(()));
    assert_eq!(
        table.insert(entity(5, 9, 9, 9, 2, 2)),
        Err(TableError::DuplicateKey)
    );
    assert_eq!(table.len(), 1);
    assert_eq!(table.get(5), Some(entity(5, 0, 0, 0, 1, 1)));
}

#[test]
fn table_update_rejects_missing_key() {
    let mut table = EntityTable::new();
    assert_eq!(
        table.update(5, entity(5, 1, 1, 1, 1, 1)),
        Err(TableError::NotFound)
    );
    assert_eq!(table.len(), 0);
}

#[test]
fn table_get_and_iterate_report_stored_rows() {
    let mut table = EntityTable::new();
    let first = entity(1, 10, 11, 12, 1, 1);
    let second = entity(2, 20, 21, 22, 2, 2);
    assert_eq!(table.insert(first), Ok(()));
    assert_eq!(table.insert(second), Ok(()));
    assert_eq!(table.get(1), Some(first));
    assert_eq!(table.get(2), Some(second));
    assert_eq!(table.get(3), None);
    assert_eq!(table.iterate(), vec![first, second]);
}

#[test]
fn update_touches_only_the_addressed_entity() {
    let mut exec = init();
    let a = Identity { value: 1 };
    let b = Identity { value: 2 };
    exec.run(
        ReducerRequest::CreateEntity { position_x: 1, position_y: 1, position_z: 1 },
        a,
        Timestamp { micros: 1 },
    );
    exec.run(
        ReducerRequest::CreateEntity { position_x: 2, position_y: 2, position_z: 2 },
        b,
        Timestamp { micros: 2 },
    );
    let outcome = exec.run(
        ReducerRequest::UpdateEntityPosition {
            entity_id: 2,
            position_x: 8,
            position_y: 8,
            position_z: 8,
        },
        b,
        Timestamp { micros: 3 },
    );
    assert_eq!(outcome, ReducerOutcome::Committed(ReducerValue::Updated(true)));
    let all = get_all_entities(exec.db());
    assert_eq!(all, vec![entity(1, 1, 1, 1, 1, 1), entity(2, 8, 8, 8, 2, 2)]);
}

#[test]
fn generate_id_counts_up_from_the_seed() {
    let mut gen = IdGenerator::new(5);
    assert!(gen.has_capacity());
    let a = gen.generate_id();
    let b = gen.generate_id();
    let c = gen.generate_id();
    assert_eq!((a, b, c), (5, 6, 7));
    assert_ne!(a, b);
    assert_ne!(b, c);
    assert_ne!(a, c);
}

#[test]
fn generator_at_the_last_id_reports_no_capacity() {
    let gen = IdGenerator::new(u64::MAX);
    assert!(!gen.has_capacity());
}

#[test]
fn reducer_bodies_work_against_a_plain_table() {
    let mut table = EntityTable::new();
    let mut gen = IdGenerator::new(1);
    let ctx = ReducerContext {
        sender: Identity { value: 9 },
        timestamp: Timestamp { micros: 77 },
    };
    let created = create_entity(&ctx, &mut table, &mut gen, 3, 4, 5);
    assert_eq!(created, Ok(1));
    assert!(update_entity_position(&ctx, &mut table, 1, 6, 7, 8));
    let other = ReducerContext {
        sender: Identity { value: 10 },
        timestamp: Timestamp { micros: 78 },
    };
    assert!(!update_entity_position(&other, &mut table, 1, 0, 0, 0));
    assert_eq!(table.get(1), Some(entity(1, 6, 7, 8, 9, 77)));
}

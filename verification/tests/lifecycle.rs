use isar_instance::error::IsarError;
use isar_instance::instance::{BeginTxn, SQLiteInstance};
use isar_instance::key::instance_key;
use isar_instance::registry::InstanceRegistry;
use isar_instance::schema::{CollectionSchema, DataType, IndexSchema, IsarSchema, PropertySchema};
use isar_instance::txn::{Connection, SQLiteTxn};
use std::sync::Arc;

const TEST_COLLECTION: u64 = 7001;

/// A stand-in for the storage engine: it gives out handles and keeps the
/// documents that committed transactions wrote.
struct Engine {
    opened: Vec<String>,
    migrations: usize,
    stored: Vec<(i64, Option<String>, Option<String>)>,
    pending: Vec<(i64, Option<String>, Option<String>)>,
}

impl Engine {
    fn new() -> Engine {
        Engine { opened: Vec::new(), migrations: 0, stored: Vec::new(), pending: Vec::new() }
    }

    fn open(&mut self, path: &str) -> Connection {
        self.opened.push(path.to_string());
        Connection::new(self.opened.len() as u64)
    }

    fn migrate(&mut self) -> Result<(), IsarError> {
        self.migrations += 1;
        Ok(())
    }

    fn write(&mut self, id: i64, prop1: Option<&str>, prop2: Option<&str>) {
        self.pending.push((id, prop1.map(|s| s.to_string()), prop2.map(|s| s.to_string())));
    }

    fn commit(&mut self) -> Result<(), IsarError> {
        self.stored.append(&mut self.pending);
        Ok(())
    }

    fn rollback(&mut self) -> Result<(), IsarError> {
        self.pending.clear();
        Ok(())
    }

    fn prop2_not_null(&self) -> Vec<(i64, Option<String>, Option<String>)> {
        self.stored.iter().filter(|d| d.2.is_some()).cloned().collect()
    }
}

fn test_schema() -> IsarSchema {
    IsarSchema::new(vec![CollectionSchema::new(
        TEST_COLLECTION,
        "Test",
        vec![
            PropertySchema::new("prop1", DataType::String, None),
            PropertySchema::new("prop2", DataType::String, None),
        ],
        vec![IndexSchema::new("myindex", vec!["prop1".to_string()], false)],
        false,
    )])
}

fn malformed_schema() -> IsarSchema {
    IsarSchema::new(vec![
        CollectionSchema::new(1, "Twice", vec![], vec![], false),
        CollectionSchema::new(2, "Twice", vec![], vec![], false),
    ])
}

fn open(
    registry: &mut InstanceRegistry,
    engine: &mut Engine,
    name: &str,
    dir: Option<&str>,
    schema: &IsarSchema,
    schema_hash: u64,
) -> Result<Arc<SQLiteInstance>, IsarError> {
    if let Some(instance) = registry.get(name, schema_hash)? {
        return Ok(instance);
    }
    let path = SQLiteInstance::storage_path(name, dir, schema)?;
    let _first = engine.open(&path);
    let migration = engine.migrate();
    SQLiteInstance::open(registry, name, dir, schema, schema_hash, migration)
}

fn begin(instance: &SQLiteInstance, engine: &mut Engine, write: bool) -> SQLiteTxn {
    match instance.begin_txn(write) {
        BeginTxn::Idle { connection, write } => SQLiteTxn::new(connection, write, Ok(())).unwrap(),
        BeginTxn::Open { path, write } => {
            let connection = engine.open(&path);
            SQLiteTxn::new(connection, write, Ok(())).unwrap()
        }
    }
}

#[test]
fn test_exec() {
    let schema = test_schema();
    let mut registry = InstanceRegistry::new();
    let mut engine = Engine::new();
    let instance = open(
        &mut registry,
        &mut engine,
        "test",
        Some("/Users/simon/Documents/GitHub/isar/packages/isar_core"),
        &schema,
        42,
    )
    .unwrap();
    assert_eq!(
        instance.path().as_str(),
        "/Users/simon/Documents/GitHub/isar/packages/isar_core/test.sqlite"
    );

    let col_id = instance.collection_id(0).unwrap();
    let mut txn = begin(&instance, &mut engine, true);
    {
        let insert = instance.insert(&mut txn, col_id, 2).unwrap();
        assert_eq!(insert.count, 2);
        assert_eq!(insert.collection.name, "Test");
        assert!(insert.txn.is_write());
        engine.write(997, Some("val1"), Some("vala"));
        engine.write(998, Some("val2"), Some("valb"));
    }
    let committed = engine.commit();
    instance.commit_txn(txn, committed).unwrap();

    let txn = begin(&instance, &mut engine, false);
    assert!(!txn.is_write());
    let qb = instance.query(col_id).unwrap();
    assert_eq!(qb.collection.properties[1].name, "prop2");
    let found = engine.prop2_not_null();
    assert_eq!(found.len(), 2);
    assert_eq!(found[0].0, 997);
    assert_eq!(found[0].1.as_deref(), Some("val1"));
    assert_eq!(found[0].2.as_deref(), Some("vala"));
    assert_eq!(found[1].0, 998);
    assert_eq!(found[1].1.as_deref(), Some("val2"));
    assert_eq!(found[1].2.as_deref(), Some("valb"));
    println!("{:?}", found[0].0);
    println!("{:?}", found[0].2);
    println!("{:?}", found[1].0);
    println!("{:?}", found[1].2);
    instance.abort_txn(txn, Ok(()));
}

#[test]
fn aborted_write_is_not_observed() {
    let schema = test_schema();
    let mut registry = InstanceRegistry::new();
    let mut engine = Engine::new();
    let instance = open(&mut registry, &mut engine, "test", Some("/data"), &schema, 42).unwrap();
    let col_id = instance.collection_id(0).unwrap();
    let mut txn = begin(&instance, &mut engine, true);
    assert!(instance.insert(&mut txn, col_id, 1).is_ok());
    engine.write(1, Some("a"), Some("b"));
    let rolled_back = engine.rollback();
    instance.abort_txn(txn, rolled_back);
    let txn = begin(&instance, &mut engine, false);
    assert!(instance.query(col_id).is_ok());
    assert!(engine.prop2_not_null().is_empty());
    instance.abort_txn(txn, Ok(()));
}

#[test]
fn reopen_with_same_fingerprint_shares_the_instance() {
    let schema = test_schema();
    let mut registry = InstanceRegistry::new();
    let mut engine = Engine::new();
    let first = open(&mut registry, &mut engine, "db", Some("/data"), &schema, 42).unwrap();
    assert_eq!(engine.migrations, 1);
    let second = open(&mut registry, &mut engine, "db", Some("/data"), &schema, 42).unwrap();
    assert!(Arc::ptr_eq(&first, &second));
    assert_eq!(engine.migrations, 1);
    assert_eq!(second.schema_hash(), 42);
    // Neither the directory nor a failed migration matters once the name is open.
    let third = registry
        .get_or_open_instance("db",
            None,
            &malformed_schema(),
            42,
            Err(IsarError::MigrationError { message: "bad".to_string() }),
        )
        .unwrap();
    assert!(Arc::ptr_eq(&first, &third));
}

#[test]
fn reopen_with_other_fingerprint_is_a_mismatch() {
    let schema = test_schema();
    let mut registry = InstanceRegistry::new();
    let mut engine = Engine::new();
    let first = open(&mut registry, &mut engine, "db", Some("/data"), &schema, 42).unwrap();
    let second = open(&mut registry, &mut engine, "db", Some("/data"), &schema, 43);
    assert!(matches!(second, Err(IsarError::SchemaMismatch { existing: 42, requested: 43 })));
    assert!(second.unwrap_err().is_schema_mismatch());
    assert_eq!(engine.migrations, 1);
    // The first instance is still the one that the name resolves to, and it works.
    let again = registry.get("db", 42).unwrap().unwrap();
    assert!(Arc::ptr_eq(&first, &again));
    let txn = begin(&first, &mut engine, true);
    assert!(first.commit_txn(txn, Ok(())).is_ok());
}

#[test]
fn other_names_are_other_instances() {
    let schema = test_schema();
    let mut registry = InstanceRegistry::new();
    let mut engine = Engine::new();
    let a = open(&mut registry, &mut engine, "a", Some("/data"), &schema, 42).unwrap();
    let b = open(&mut registry, &mut engine, "b", Some("/data"), &schema, 43).unwrap();
    assert!(!Arc::ptr_eq(&a, &b));
    assert_eq!(a.path().as_str(), "/data/a.sqlite");
    assert_eq!(b.path().as_str(), "/data/b.sqlite");
    assert_eq!(b.schema_hash(), 43);
    assert!(matches!(registry.get("c", 42), Ok(None)));
}

#[test]
fn open_without_directory_is_illegal() {
    let schema = test_schema();
    let mut registry = InstanceRegistry::new();
    let ok = registry.get_or_open_instance("test", None, &schema, 42, Ok(()));
    match ok {
        Err(IsarError::IllegalArg { message }) => {
            assert_eq!(message, "Please provide a valid directory.")
        }
        other => panic!("{:?}", other),
    }
    let bad = registry.get_or_open_instance("test", None, &malformed_schema(), 42, Ok(()));
    assert!(bad.unwrap_err().is_illegal_arg());
    assert!(matches!(registry.get("test", 42), Ok(None)));
    assert!(SQLiteInstance::storage_path("test", None, &schema).unwrap_err().is_illegal_arg());
    assert!(SQLiteInstance::open_instance("test", None, &malformed_schema(), 42, Ok(()))
        .unwrap_err()
        .is_illegal_arg());
}

#[test]
fn failed_validation_or_migration_registers_nothing() {
    let schema = test_schema();
    let mut registry = InstanceRegistry::new();
    let r = registry.get_or_open_instance("test",
        Some("/data"),
        &malformed_schema(),
        42,
        Err(IsarError::MigrationError { message: "late".to_string() }),
    );
    assert!(matches!(r, Err(IsarError::SchemaError { .. })));
    let r = registry.get_or_open_instance("test",
        Some("/data"),
        &schema,
        42,
        Err(IsarError::MigrationError { message: "late".to_string() }),
    );
    match r {
        Err(IsarError::MigrationError { message }) => assert_eq!(message, "late"),
        other => panic!("{:?}", other),
    }
    assert!(matches!(registry.get("test", 42), Ok(None)));
    let r = SQLiteInstance::storage_path("test", Some("/data"), &malformed_schema());
    assert!(matches!(r, Err(IsarError::SchemaError { .. })));
    let r = SQLiteInstance::open_instance(
        "test",
        Some("/data"),
        &schema,
        42,
        Err(IsarError::DbError { code: 14, message: "cannot open".to_string() }),
    );
    match r {
        Err(IsarError::DbError { code, message }) => {
            assert_eq!(code, 14);
            assert_eq!(message, "cannot open");
        }
        other => panic!("{:?}", other),
    }
}

#[test]
fn storage_path_joins_directory_name_and_extension() {
    let schema = test_schema();
    assert_eq!(
        SQLiteInstance::storage_path("test", Some("/data"), &schema).unwrap(),
        "/data/test.sqlite"
    );
    assert_eq!(SQLiteInstance::storage_path("", Some(""), &schema).unwrap(), "/.sqlite");
}

#[test]
fn unknown_collection_id_is_illegal() {
    let schema = test_schema();
    let instance =
        SQLiteInstance::open_instance("test", Some("/data"), &schema, 42, Ok(())).unwrap();
    match instance.query(TEST_COLLECTION + 1) {
        Err(IsarError::IllegalArg { message }) => assert_eq!(message, "Invalid collection id."),
        other => panic!("{:?}", other),
    }
    let mut txn = SQLiteTxn::new(Connection::new(1), true, Ok(())).unwrap();
    match instance.insert(&mut txn, 0, 3) {
        Err(IsarError::IllegalArg { message }) => assert_eq!(message, "Invalid collection id."),
        other => panic!("{:?}", other),
    }
    assert!(instance.query(TEST_COLLECTION).is_ok());
    assert!(instance.insert(&mut txn, TEST_COLLECTION, 3).is_ok());
    assert_eq!(txn.handle(), 1);
}

#[test]
fn collection_id_by_position() {
    let schema = IsarSchema::new(vec![
        CollectionSchema::new(30, "C", vec![], vec![], false),
        CollectionSchema::new(10, "A", vec![], vec![], false),
        CollectionSchema::new(20, "B", vec![], vec![], true),
    ]);
    let instance =
        SQLiteInstance::open_instance("test", Some("/data"), &schema, 1, Ok(())).unwrap();
    assert_eq!(instance.collection_id(0), Some(30));
    assert_eq!(instance.collection_id(1), Some(10));
    assert_eq!(instance.collection_id(2), Some(20));
    assert_eq!(instance.collection_id(3), None);
    assert_eq!(instance.collection_id(usize::MAX), None);
    let empty =
        SQLiteInstance::open_instance("e", Some("/data"), &IsarSchema::new(vec![]), 1, Ok(()))
            .unwrap();
    assert_eq!(empty.collection_id(0), None);
}

#[test]
fn unnamed_properties_are_dropped_in_order() {
    let schema = IsarSchema::new(vec![
        CollectionSchema::new(
            1,
            "Person",
            vec![
                PropertySchema::unnamed(DataType::Object, Some(2)),
                PropertySchema::new("name", DataType::String, None),
                PropertySchema::unnamed(DataType::ObjectList, Some(2)),
                PropertySchema::new("age", DataType::Long, None),
                PropertySchema::new("pet", DataType::Object, Some(2)),
                PropertySchema::unnamed(DataType::Object, None),
            ],
            vec![],
            false,
        ),
        CollectionSchema::new(2, "Pet", vec![PropertySchema::unnamed(DataType::Object, Some(1))], vec![], false),
    ]);
    let (collections, ids) = SQLiteInstance::get_collections(&schema);
    assert_eq!(ids, vec![1, 2]);
    assert_eq!(collections.len(), 2);
    let person = collections.get(1).unwrap();
    assert_eq!(person.name, "Person");
    assert_eq!(person.properties.len(), 3);
    assert_eq!(person.properties[0].name, "name");
    assert_eq!(person.properties[0].data_type, DataType::String);
    assert_eq!(person.properties[0].target_id, None);
    assert_eq!(person.properties[1].name, "age");
    assert_eq!(person.properties[1].data_type, DataType::Long);
    assert_eq!(person.properties[2].name, "pet");
    assert_eq!(person.properties[2].data_type, DataType::Object);
    assert_eq!(person.properties[2].target_id, Some(2));
    let pet = collections.get(2).unwrap();
    assert_eq!(pet.name, "Pet");
    assert!(pet.properties.is_empty());
}

#[test]
fn later_declaration_with_same_id_stands() {
    let schema = IsarSchema::new(vec![
        CollectionSchema::new(9, "First", vec![], vec![], false),
        CollectionSchema::new(9, "Second", vec![], vec![], false),
    ]);
    let instance =
        SQLiteInstance::open_instance("test", Some("/data"), &schema, 1, Ok(())).unwrap();
    assert_eq!(instance.collection_id(0), Some(9));
    assert_eq!(instance.collection_id(1), Some(9));
    assert_eq!(instance.query(9).unwrap().collection.name, "Second");
    assert_eq!(instance.query(9).unwrap().all_collections.len(), 1);
}

#[test]
fn idle_connection_is_used_again() {
    let schema = test_schema();
    let instance =
        SQLiteInstance::open_instance("test", Some("/data"), &schema, 42, Ok(())).unwrap();
    // Nothing is idle at first: a connection has to be opened.
    let t1 = match instance.begin_txn(true) {
        BeginTxn::Open { path, write } => {
            assert_eq!(path, "/data/test.sqlite");
            assert!(write);
            SQLiteTxn::new(Connection::new(11), write, Ok(())).unwrap()
        }
        other => panic!("{:?}", other),
    };
    assert_eq!(t1.handle(), 11);
    instance.commit_txn(t1, Ok(())).unwrap();
    // The committed transaction's connection is idle now, and is taken.
    let t2 = match instance.begin_txn(false) {
        BeginTxn::Idle { connection, write } => {
            assert_eq!(connection.handle(), 11);
            assert!(!write);
            SQLiteTxn::new(connection, write, Ok(())).unwrap()
        }
        other => panic!("{:?}", other),
    };
    // While it is out, a second transaction asks for a connection of its own.
    let t3 = match instance.begin_txn(true) {
        BeginTxn::Open { write, .. } => SQLiteTxn::new(Connection::new(12), write, Ok(())).unwrap(),
        other => panic!("{:?}", other),
    };
    // Of two released connections the later one stays.
    instance.abort_txn(t2, Ok(()));
    instance.commit_txn(t3, Ok(())).unwrap();
    match instance.begin_txn(false) {
        BeginTxn::Idle { connection, .. } => assert_eq!(connection.handle(), 12),
        other => panic!("{:?}", other),
    }
    assert!(matches!(instance.begin_txn(false), BeginTxn::Open { .. }));
}

#[test]
fn failed_commit_or_rollback_gives_the_connection_up() {
    let schema = test_schema();
    let instance =
        SQLiteInstance::open_instance("test", Some("/data"), &schema, 42, Ok(())).unwrap();
    let txn = SQLiteTxn::new(Connection::new(1), true, Ok(())).unwrap();
    let r = instance.commit_txn(txn, Err(IsarError::DbError { code: 5, message: "busy".to_string() }));
    match r {
        Err(IsarError::DbError { code, message }) => {
            assert_eq!(code, 5);
            assert_eq!(message, "busy");
        }
        other => panic!("{:?}", other),
    }
    assert!(matches!(instance.begin_txn(true), BeginTxn::Open { .. }));
    let txn = SQLiteTxn::new(Connection::new(2), true, Ok(())).unwrap();
    instance.abort_txn(txn, Err(IsarError::DbError { code: 5, message: "busy".to_string() }));
    assert!(matches!(instance.begin_txn(true), BeginTxn::Open { .. }));
}

#[test]
fn transaction_ends_hand_the_connection_back() {
    let txn = SQLiteTxn::new(Connection::new(3), false, Ok(())).unwrap();
    assert_eq!(txn.commit(Ok(())).unwrap().handle(), 3);
    let txn = SQLiteTxn::new(Connection::new(4), true, Ok(())).unwrap();
    assert_eq!(txn.abort(Ok(())).unwrap().handle(), 4);
    let txn = SQLiteTxn::new(Connection::new(5), true, Ok(())).unwrap();
    assert!(txn.commit(Err(IsarError::SchemaMismatch { existing: 1, requested: 2 })).unwrap_err().is_schema_mismatch());
    let failed = SQLiteTxn::new(
        Connection::new(6),
        true,
        Err(IsarError::DbError { code: 1, message: "no".to_string() }),
    );
    assert!(matches!(failed, Err(IsarError::DbError { code: 1, .. })));
}

#[test]
fn register_replaces_and_shares() {
    let schema = test_schema();
    let mut registry = InstanceRegistry::new();
    let a = SQLiteInstance::open_instance("a", Some("/data"), &schema, 1, Ok(())).unwrap();
    let b = SQLiteInstance::open_instance("b", Some("/data"), &schema, 2, Ok(())).unwrap();
    let shared_a = registry.register("x", a);
    assert!(Arc::ptr_eq(&shared_a, &registry.get("x", 1).unwrap().unwrap()));
    let shared_b = registry.register("x", b);
    assert!(Arc::ptr_eq(&shared_b, &registry.get("x", 2).unwrap().unwrap()));
    assert!(registry.get("x", 1).unwrap_err().is_schema_mismatch());
}

#[test]
fn instance_key_folds_the_bytes_of_the_name() {
    assert_eq!(instance_key(""), 0xcbf2_9ce4_8422_2325);
    assert_eq!(instance_key("a"), 0xaf63_dc4c_8601_ec8c);
    assert_eq!(instance_key("foobar"), 0x8594_4171_f739_67e8);
    assert_ne!(instance_key("test"), instance_key("tset"));
}

#[test]
fn release_on_a_thread_without_a_slot_gives_the_connection_up() {
    let schema = test_schema();
    let instance =
        SQLiteInstance::open_instance("test", Some("/data"), &schema, 42, Ok(())).unwrap();
    let txn = SQLiteTxn::new(Connection::new(31), true, Ok(())).unwrap();
    instance.commit_txn(txn, Ok(())).unwrap();
    assert!(matches!(instance.begin_txn(true), BeginTxn::Open { .. }));
}

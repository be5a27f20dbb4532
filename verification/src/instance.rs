use vstd::prelude::*;
use vstd::string::*;
use std::cell::RefCell;
use std::sync::Arc;
use intmap::IntMap;
use thread_local::ThreadLocal;
use crate::collection::{collection_of, CollectionView, SQLiteCollection};
use crate::error::IsarError;
use crate::int_map::{collection_entries, collections_get, collections_insert, collections_new};
use crate::pool::{existing_thread_slot, pool_new, slot_replace, slot_take, thread_slot};
use crate::registry::{get_or_open_outcome, InstanceRegistry};
use crate::schema::{CollectionSchema, IsarSchema};
use crate::txn::{Connection, SQLiteTxn};
use crate::validate::{schema_complaint, verify_schema, well_formed};

verus! {

/// One open named database: what its schema declares, where its data is
/// stored, and the idle connections of the threads that have used it.
#[derive(Debug)]
pub struct SQLiteInstance {
    path: String,
    sqlite: ThreadLocal<RefCell<Option<Connection>>>,
    collections: IntMap<SQLiteCollection>,
    collection_ids: Vec<u64>,
    schema_hash: u64,
}

/// What an instance is, as a mathematical value. None of it changes once the
/// instance is made: no function of the library takes an instance by unique
/// reference.
pub struct InstanceView {
    pub path: Seq<char>,
    pub collections: Map<u64, CollectionView>,
    pub collection_ids: Seq<u64>,
    pub schema_hash: u64,
}

/// The ids in `ids` are the keys of `collections`, no more and no fewer.
pub open spec fn ids_are_keys(collections: Map<u64, CollectionView>, ids: Seq<u64>) -> bool {
    forall|id: u64| #[trigger] collections.contains_key(id) <==> ids.contains(id)
}

impl View for SQLiteInstance {
    type V = InstanceView;

    closed spec fn view(&self) -> InstanceView {
        InstanceView {
            path: self.path@,
            collections: collection_entries(self.collections),
            collection_ids: self.collection_ids@,
            schema_hash: self.schema_hash,
        }
    }
}

/// The ids of the declared collections, in declaration order.
pub open spec fn declared_ids(declared: Seq<CollectionSchema>) -> Seq<u64> {
    declared.map_values(|c: CollectionSchema| c.id)
}

/// The descriptors of the declared collections by id. Where two declarations
/// share an id, the later one stands.
pub open spec fn declared_collections(declared: Seq<CollectionSchema>) -> Map<u64, CollectionView>
    decreases declared.len(),
{
    if declared.len() == 0 {
        Map::empty()
    } else {
        declared_collections(declared.drop_last()).insert(
            declared.last().id,
            collection_of(declared.last()),
        )
    }
}

/// The declared collections are found under the declared ids, and under no
/// other.
pub proof fn lemma_declared_ids_are_keys(declared: Seq<CollectionSchema>)
    ensures
        ids_are_keys(declared_collections(declared), declared_ids(declared)),
    decreases declared.len(),
{
    let ids = declared_ids(declared);
    if declared.len() > 0 {
        let rest = declared.drop_last();
        lemma_declared_ids_are_keys(rest);
        let rest_ids = declared_ids(rest);
        assert(ids =~= rest_ids.push(declared.last().id));
        assert forall|id: u64| #[trigger]
            declared_collections(declared).contains_key(id) <==> ids.contains(id) by {
            if rest_ids.contains(id) {
                let k = choose|k: int| 0 <= k < rest_ids.len() && rest_ids[k] == id;
                assert(ids[k] == id);
            }
            if id == declared.last().id {
                assert(ids[ids.len() - 1] == id);
            }
            if ids.contains(id) {
                let k = choose|k: int| 0 <= k < ids.len() && ids[k] == id;
                if k < rest_ids.len() {
                    assert(rest_ids[k] == id);
                }
            }
        }
    }
}

/// Where the data of the instance `name` is stored under `dir`.
pub open spec fn storage_path_of(dir: Seq<char>, name: Seq<char>) -> Seq<char> {
    dir + "/"@ + name + ".sqlite"@
}

/// What `storage_path` answers: without a directory nothing can be opened,
/// whatever the schema is like; with one, a malformed schema is refused.
pub open spec fn storage_path_outcome(
    name: Seq<char>,
    dir: Option<Seq<char>>,
    schema: IsarSchema,
    r: Result<String, IsarError>,
) -> bool {
    match dir {
        None => r is Err && r->Err_0 is IllegalArg && r->Err_0->IllegalArg_message@
            == "Please provide a valid directory."@,
        Some(d) => if well_formed(schema) {
            r is Ok && r->Ok_0@ == storage_path_of(d, name)
        } else {
            r is Err && r->Err_0 is SchemaError && schema_complaint(
                schema,
                r->Err_0->SchemaError_message@,
            )
        },
    }
}

/// What `open_instance` answers. The first of these that applies decides:
/// no directory, a malformed schema, a failed migration. Otherwise the
/// instance is made from the schema.
pub open spec fn open_outcome(
    name: Seq<char>,
    dir: Option<Seq<char>>,
    schema: IsarSchema,
    schema_hash: u64,
    migration: Result<(), IsarError>,
    r: Result<SQLiteInstance, IsarError>,
) -> bool {
    match dir {
        None => r is Err && r->Err_0 is IllegalArg && r->Err_0->IllegalArg_message@
            == "Please provide a valid directory."@,
        Some(d) => if !well_formed(schema) {
            r is Err && r->Err_0 is SchemaError && schema_complaint(
                schema,
                r->Err_0->SchemaError_message@,
            )
        } else {
            match migration {
                Err(e) => r == Err::<SQLiteInstance, IsarError>(e),
                Ok(_) => r is Ok && r->Ok_0@ == (InstanceView {
                    path: storage_path_of(d, name),
                    collections: declared_collections(schema.collections@),
                    collection_ids: declared_ids(schema.collections@),
                    schema_hash,
                }),
            }
        },
    }
}

/// The view of an optional string.
pub open spec fn opt_view(s: Option<&str>) -> Option<Seq<char>> {
    match s {
        Some(s) => Some(s@),
        None => None,
    }
}

/// The first step of a transaction: the connection to begin it on, or the
/// request to open one first.
#[derive(Debug)]
pub enum BeginTxn {
    /// Begin on this connection, which was idle.
    Idle { connection: Connection, write: bool },
    /// No connection was idle: open one at `path` and begin on it.
    Open { path: String, write: bool },
}

impl BeginTxn {
    /// Decides how a transaction begins, given what the calling thread's
    /// slot held: an idle connection is used again, and only an empty slot
    /// asks for a new one.
    pub fn from_idle(idle: Option<Connection>, path: &String, write: bool) -> (step: BeginTxn)
        ensures
            step == begin_step(idle, *path, write),
    {
        match idle {
            Some(connection) => BeginTxn::Idle { connection, write },
            None => BeginTxn::Open { path: path.clone(), write },
        }
    }
}

/// How a transaction begins, given what the calling thread's slot held.
pub open spec fn begin_step(idle: Option<Connection>, path: String, write: bool) -> BeginTxn {
    match idle {
        Some(connection) => BeginTxn::Idle { connection, write },
        None => BeginTxn::Open { path, write },
    }
}

/// A query on one collection that is being put together. It sees all the
/// collections of the instance, since links lead from one to another.
#[derive(Debug)]
pub struct SQLiteQueryBuilder<'a> {
    pub collection: &'a SQLiteCollection,
    pub all_collections: &'a IntMap<SQLiteCollection>,
}

/// An insert of `count` documents into one collection, bound to the
/// transaction that it runs in.
#[derive(Debug)]
pub struct SQLiteInsert<'a> {
    pub txn: &'a mut SQLiteTxn,
    pub collection: &'a SQLiteCollection,
    pub all_collections: &'a IntMap<SQLiteCollection>,
    pub count: usize,
}

impl SQLiteInstance {
    /// The ids by position are the ids under which the collections are kept.
    #[verifier::type_invariant]
    spec fn consistent(&self) -> bool {
        ids_are_keys(collection_entries(self.collections), self.collection_ids@)
    }

    /// Opens the instance `name` in `registry` with a schema of fingerprint
    /// `schema_hash`: the live instance of that name if there is one, and a
    /// new one otherwise.
    pub fn open(
        registry: &mut InstanceRegistry,
        name: &str,
        dir: Option<&str>,
        schema: &IsarSchema,
        schema_hash: u64,
        migration: Result<(), IsarError>,
    ) -> (r: Result<Arc<SQLiteInstance>, IsarError>)
        ensures
            get_or_open_outcome(
                old(registry)@,
                final(registry)@,
                name@,
                opt_view(dir),
                *schema,
                schema_hash,
                migration,
                r,
            ),
    {
        registry.get_or_open_instance(name, dir, schema, schema_hash, migration)
    }

    /// Where the new instance `name` is to be stored, for a directory that
    /// is there and a schema that is well formed.
    pub fn storage_path(name: &str, dir: Option<&str>, schema: &IsarSchema) -> (r: Result<
        String,
        IsarError,
    >)
        ensures
            storage_path_outcome(name@, opt_view(dir), *schema, r),
    {
        match dir {
            None => Err(IsarError::illegal_arg("Please provide a valid directory.")),
            Some(d) => match verify_schema(schema) {
                Err(e) => Err(e),
                Ok(()) => {
                    let mut path = d.to_owned();
                    path.append("/");
                    path.append(name);
                    path.append(".sqlite");
                    Ok(path)
                },
            },
        }
    }

    /// Makes the instance `name` under `dir` from a schema of fingerprint
    /// `schema_hash`. `migration` is what the migration at `storage_path` came
    /// to; it is not looked at unless the directory is there and the schema
    /// is well formed.
    pub fn open_instance(
        name: &str,
        dir: Option<&str>,
        schema: &IsarSchema,
        schema_hash: u64,
        migration: Result<(), IsarError>,
    ) -> (r: Result<SQLiteInstance, IsarError>)
        ensures
            open_outcome(name@, opt_view(dir), *schema, schema_hash, migration, r),
    {
        match Self::storage_path(name, dir, schema) {
            Err(e) => Err(e),
            Ok(path) => match migration {
                Err(e) => Err(e),
                Ok(()) => {
                    let (collections, collection_ids) = Self::get_collections(schema);
                    proof {
                        lemma_declared_ids_are_keys(schema.collections@);
                    }
                    Ok(
                        SQLiteInstance {
                            path,
                            sqlite: pool_new(),
                            collections,
                            collection_ids,
                            schema_hash,
                        },
                    )
                },
            },
        }
    }

    /// Derives the collections of an instance from its schema: a descriptor
    /// for each declared collection under its id, and the ids in declaration
    /// order.
    pub fn get_collections(schema: &IsarSchema) -> (r: (IntMap<SQLiteCollection>, Vec<u64>))
        ensures
            collection_entries(r.0) == declared_collections(schema.collections@),
            r.1@ == declared_ids(schema.collections@),
    {
        let mut collections = collections_new();
        let mut collection_ids: Vec<u64> = Vec::new();
        let declared = &schema.collections;
        let mut i: usize = 0;
        proof {
            assert(collection_entries(collections) =~= declared_collections(
                declared@.take(0),
            ));
        }
        while i < declared.len()
            invariant
                i <= declared.len(),
                collection_entries(collections) == declared_collections(declared@.take(i as int)),
                collection_ids@ == declared_ids(declared@.take(i as int)),
            decreases declared.len() - i,
        {
            let collection_schema = &declared[i];
            proof {
                assert(declared@.take(i + 1).drop_last() =~= declared@.take(i as int));
                assert(declared@.take(i + 1).last() == declared@[i as int]);
                assert(declared_ids(declared@.take(i + 1)) =~= declared_ids(
                    declared@.take(i as int),
                ).push(collection_schema.id));
            }
            let collection = SQLiteCollection::from_schema(collection_schema);
            let collection_id = collection_schema.id;
            collections_insert(&mut collections, collection_id, collection);
            collection_ids.push(collection_id);
            i += 1;
        }
        proof {
            assert(declared@.take(i as int) =~= declared@);
        }
        (collections, collection_ids)
    }

    /// The fingerprint of the schema that the instance was made from.
    pub fn schema_hash(&self) -> (h: u64)
        ensures
            h == self@.schema_hash,
    {
        self.schema_hash
    }

    /// Where the instance keeps its data.
    pub fn path(&self) -> (p: &String)
        ensures
            p@ == self@.path,
    {
        &self.path
    }

    /// The id of the collection declared at position `index`, if there is
    /// one. It is the id of one of the instance's collections.
    pub fn collection_id(&self, index: usize) -> (id: Option<u64>)
        ensures
            id == if index < self@.collection_ids.len() {
                Some(self@.collection_ids[index as int])
            } else {
                None::<u64>
            },
            id is Some ==> self@.collections.contains_key(id->0),
    {
        proof {
            use_type_invariant(self);
            if index < self@.collection_ids.len() {
                assert(self@.collection_ids.contains(self@.collection_ids[index as int]));
            }
        }
        if index < self.collection_ids.len() {
            Some(self.collection_ids[index])
        } else {
            None
        }
    }

    /// The first step of a transaction on the calling thread: whatever
    /// connection of this thread is idle is taken for it, and with none idle
    /// one is to be opened where the instance keeps its data.
    pub fn begin_txn(&self, write: bool) -> (step: BeginTxn)
        ensures
            step is Idle ==> step->Idle_write == write,
            step is Open ==> step->Open_write == write && step->Open_path@ == self@.path,
    {
        let idle = slot_take(thread_slot(&self.sqlite));
        BeginTxn::from_idle(idle, &self.path, write)
    }

    /// Lets `connection` rest in the calling thread's slot, in place of
    /// whatever rested there. A thread that never began a transaction on this
    /// instance has no slot, and the connection is given up.
    fn release(&self, connection: Connection) {
        match existing_thread_slot(&self.sqlite) {
            Some(slot) => {
                let _ = slot_replace(slot, connection);
            },
            None => {},
        }
    }

    /// Ends `txn` after the storage engine was asked to commit it, with
    /// `committed` as its answer. On success the connection rests in the
    /// calling thread's slot from now on; on failure the error is handed on
    /// and the connection is given up.
    pub fn commit_txn(&self, txn: SQLiteTxn, committed: Result<(), IsarError>) -> (r: Result<
        (),
        IsarError,
    >)
        ensures
            committed is Ok ==> r is Ok,
            committed is Err ==> r is Err && r->Err_0 == committed->Err_0,
    {
        match txn.commit(committed) {
            Ok(connection) => {
                self.release(connection);
                Ok(())
            },
            Err(e) => Err(e),
        }
    }

    /// Ends `txn` after the storage engine was asked to roll it back, with
    /// `rolled_back` as its answer. On success the connection rests in the
    /// calling thread's slot from now on; on failure it is given up, and
    /// nothing is reported.
    pub fn abort_txn(&self, txn: SQLiteTxn, rolled_back: Result<(), IsarError>) {
        match txn.abort(rolled_back) {
            Ok(connection) => {
                self.release(connection);
            },
            Err(_) => {},
        }
    }

    /// Starts a query on the collection `collection_id`, which must be one of
    /// the instance's.
    pub fn query<'a>(&'a self, collection_id: u64) -> (r: Result<SQLiteQueryBuilder<'a>, IsarError>)
        ensures
            self@.collections.contains_key(collection_id) ==> r is Ok && r->Ok_0.collection@
                == self@.collections[collection_id] && collection_entries(
                *r->Ok_0.all_collections,
            ) == self@.collections,
            !self@.collections.contains_key(collection_id) ==> r is Err && r->Err_0 is IllegalArg
                && r->Err_0->IllegalArg_message@ == "Invalid collection id."@,
            r is Ok <==> self@.collection_ids.contains(collection_id),
    {
        proof {
            use_type_invariant(self);
        }
        match collections_get(&self.collections, collection_id) {
            Some(collection) => Ok(
                SQLiteQueryBuilder { collection, all_collections: &self.collections },
            ),
            None => Err(IsarError::illegal_arg("Invalid collection id.")),
        }
    }

    /// Starts an insert of `count` documents into the collection
    /// `collection_id`, which must be one of the instance's, within `txn`.
    pub fn insert<'a>(&'a self, txn: &'a mut SQLiteTxn, collection_id: u64, count: usize) -> (r: Result<
        SQLiteInsert<'a>,
        IsarError,
    >)
        ensures
            self@.collections.contains_key(collection_id) ==> r is Ok && *r->Ok_0.txn == *old(txn)
                && r->Ok_0.collection@ == self@.collections[collection_id] && collection_entries(
                *r->Ok_0.all_collections,
            ) == self@.collections && r->Ok_0.count == count,
            !self@.collections.contains_key(collection_id) ==> r is Err && r->Err_0 is IllegalArg
                && r->Err_0->IllegalArg_message@ == "Invalid collection id."@,
            r is Ok <==> self@.collection_ids.contains(collection_id),
            r is Err ==> *final(txn) == *old(txn),
    {
        proof {
            use_type_invariant(self);
        }
        match collections_get(&self.collections, collection_id) {
            Some(collection) => Ok(
                SQLiteInsert { txn, collection, all_collections: &self.collections, count },
            ),
            None => Err(IsarError::illegal_arg("Invalid collection id.")),
        }
    }
}

} // verus!

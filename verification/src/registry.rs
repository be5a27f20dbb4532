use vstd::prelude::*;
use std::sync::Arc;
use intmap::IntMap;
use crate::error::IsarError;
use crate::instance::{open_outcome, opt_view, SQLiteInstance};
use crate::int_map::{instance_entries, instances_get, instances_insert, instances_new, share};
use crate::key::{instance_key, name_key};
use crate::schema::IsarSchema;

verus! {

/// The open instances of a process, each under the key of its name. A key
/// has at most one instance, and everyone who opens that name shares it.
#[derive(Debug)]
pub struct InstanceRegistry {
    instances: IntMap<Arc<SQLiteInstance>>,
}

impl View for InstanceRegistry {
    type V = Map<u64, SQLiteInstance>;

    closed spec fn view(&self) -> Map<u64, SQLiteInstance> {
        instance_entries(self.instances)
    }
}

/// The error for a name that is open with the fingerprint `existing` and is
/// asked for with the fingerprint `requested`.
pub open spec fn mismatch(existing: u64, requested: u64) -> IsarError {
    IsarError::SchemaMismatch { existing, requested }
}

/// What a lookup answers: the live instance where its fingerprint is the one
/// asked for, a mismatch where it is another, and nothing where the name has
/// no instance.
pub open spec fn lookup_outcome(
    entries: Map<u64, SQLiteInstance>,
    name: Seq<char>,
    schema_hash: u64,
    r: Result<Option<Arc<SQLiteInstance>>, IsarError>,
) -> bool {
    if !entries.contains_key(name_key(name)) {
        r is Ok && r->Ok_0 is None
    } else if entries[name_key(name)]@.schema_hash == schema_hash {
        r is Ok && r->Ok_0 is Some && *r->Ok_0->0 == entries[name_key(name)]
    } else {
        r is Err && r->Err_0 == mismatch(entries[name_key(name)]@.schema_hash, schema_hash)
    }
}

/// What opening a name comes to, from the registry `before` to the registry
/// `after`. A live instance is shared or refused by its fingerprint alone and
/// the registry stays as it is. Without one, a new instance is made and
/// entered, or the making fails and nothing is entered.
pub open spec fn get_or_open_outcome(
    before: Map<u64, SQLiteInstance>,
    after: Map<u64, SQLiteInstance>,
    name: Seq<char>,
    dir: Option<Seq<char>>,
    schema: IsarSchema,
    schema_hash: u64,
    migration: Result<(), IsarError>,
    r: Result<Arc<SQLiteInstance>, IsarError>,
) -> bool {
    if before.contains_key(name_key(name)) {
        &&& after == before
        &&& if before[name_key(name)]@.schema_hash == schema_hash {
            r is Ok && *r->Ok_0 == before[name_key(name)]
        } else {
            r is Err && r->Err_0 == mismatch(before[name_key(name)]@.schema_hash, schema_hash)
        }
    } else {
        match r {
            Ok(instance) => {
                &&& open_outcome(name, dir, schema, schema_hash, migration, Ok(*instance))
                &&& after == before.insert(name_key(name), *instance)
            },
            Err(e) => {
                &&& open_outcome(name, dir, schema, schema_hash, migration, Err(e))
                &&& after == before
            },
        }
    }
}

impl InstanceRegistry {
    /// A registry without instances.
    pub fn new() -> (registry: InstanceRegistry)
        ensures
            registry@ == Map::<u64, SQLiteInstance>::empty(),
    {
        let registry = InstanceRegistry { instances: instances_new() };
        proof {
            assert(registry@ =~= Map::<u64, SQLiteInstance>::empty());
        }
        registry
    }

    /// Looks for the live instance `name` on behalf of a caller whose schema
    /// has the fingerprint `schema_hash`.
    pub fn get(&self, name: &str, schema_hash: u64) -> (r: Result<
        Option<Arc<SQLiteInstance>>,
        IsarError,
    >)
        ensures
            lookup_outcome(self@, name@, schema_hash, r),
    {
        match instances_get(&self.instances, instance_key(name)) {
            None => Ok(None),
            Some(instance) => {
                let existing = instance.schema_hash();
                if existing == schema_hash {
                    Ok(Some(share(instance)))
                } else {
                    Err(IsarError::SchemaMismatch { existing, requested: schema_hash })
                }
            },
        }
    }

    /// Enters `instance` as the instance `name`, in place of whatever was
    /// there, and hands out the shared reference to it.
    pub fn register(&mut self, name: &str, instance: SQLiteInstance) -> (shared: Arc<
        SQLiteInstance,
    >)
        ensures
            *shared == instance,
            final(self)@ == old(self)@.insert(name_key(name@), instance),
    {
        let shared = Arc::new(instance);
        instances_insert(&mut self.instances, instance_key(name), share(&shared));
        shared
    }

    /// Opens the instance `name` with a schema of fingerprint `schema_hash`.
    /// A live instance of that name is shared if its fingerprint is the same
    /// and refused if not; the directory, the schema and the migration's
    /// answer are then not looked at. Without a live instance a new one is
    /// made from them and entered.
    pub fn get_or_open_instance(
        &mut self,
        name: &str,
        dir: Option<&str>,
        schema: &IsarSchema,
        schema_hash: u64,
        migration: Result<(), IsarError>,
    ) -> (r: Result<Arc<SQLiteInstance>, IsarError>)
        ensures
            get_or_open_outcome(
                old(self)@,
                final(self)@,
                name@,
                opt_view(dir),
                *schema,
                schema_hash,
                migration,
                r,
            ),
    {
        match self.get(name, schema_hash) {
            Err(e) => Err(e),
            Ok(Some(instance)) => Ok(instance),
            Ok(None) => {
                match SQLiteInstance::open_instance(name, dir, schema, schema_hash, migration) {
                    Err(e) => Err(e),
                    Ok(instance) => Ok(self.register(name, instance)),
                }
            },
        }
    }
}

/// Opening a name again with a schema of the same fingerprint yields the
/// instance that the first opening yielded and leaves the registry as it
/// was, whatever the directory and the schema are and whatever a migration
/// would come to the second time: none of them is consulted.
pub proof fn lemma_reopen_shares_instance(
    reg0: Map<u64, SQLiteInstance>,
    reg1: Map<u64, SQLiteInstance>,
    reg2: Map<u64, SQLiteInstance>,
    name: Seq<char>,
    schema_hash: u64,
    dir1: Option<Seq<char>>,
    schema1: IsarSchema,
    migration1: Result<(), IsarError>,
    r1: Result<Arc<SQLiteInstance>, IsarError>,
    dir2: Option<Seq<char>>,
    schema2: IsarSchema,
    migration2: Result<(), IsarError>,
    r2: Result<Arc<SQLiteInstance>, IsarError>,
)
    requires
        get_or_open_outcome(reg0, reg1, name, dir1, schema1, schema_hash, migration1, r1),
        r1 is Ok,
        get_or_open_outcome(reg1, reg2, name, dir2, schema2, schema_hash, migration2, r2),
    ensures
        r2 is Ok,
        *r2->Ok_0 == *r1->Ok_0,
        reg2 == reg1,
{
}

/// Opening a name again with a schema of another fingerprint fails with a
/// schema mismatch and leaves the registry as it was, so that the name still
/// resolves to the instance of the first opening.
pub proof fn lemma_reopen_other_schema_is_refused(
    reg0: Map<u64, SQLiteInstance>,
    reg1: Map<u64, SQLiteInstance>,
    reg2: Map<u64, SQLiteInstance>,
    name: Seq<char>,
    schema_hash1: u64,
    schema_hash2: u64,
    dir1: Option<Seq<char>>,
    schema1: IsarSchema,
    migration1: Result<(), IsarError>,
    r1: Result<Arc<SQLiteInstance>, IsarError>,
    dir2: Option<Seq<char>>,
    schema2: IsarSchema,
    migration2: Result<(), IsarError>,
    r2: Result<Arc<SQLiteInstance>, IsarError>,
)
    requires
        get_or_open_outcome(reg0, reg1, name, dir1, schema1, schema_hash1, migration1, r1),
        r1 is Ok,
        schema_hash1 != schema_hash2,
        get_or_open_outcome(reg1, reg2, name, dir2, schema2, schema_hash2, migration2, r2),
    ensures
        r2 is Err,
        r2->Err_0 == mismatch(schema_hash1, schema_hash2),
        reg2 == reg1,
        reg2.contains_key(name_key(name)),
        reg2[name_key(name)] == *r1->Ok_0,
{
}

/// Opening a name that has no live instance without a directory fails with
/// an illegal argument and enters nothing, whether or not the schema is well
/// formed and whatever a migration would have come to.
pub proof fn lemma_open_needs_directory(
    before: Map<u64, SQLiteInstance>,
    after: Map<u64, SQLiteInstance>,
    name: Seq<char>,
    schema: IsarSchema,
    schema_hash: u64,
    migration: Result<(), IsarError>,
    r: Result<Arc<SQLiteInstance>, IsarError>,
)
    requires
        !before.contains_key(name_key(name)),
        get_or_open_outcome(before, after, name, None, schema, schema_hash, migration, r),
    ensures
        r is Err,
        r->Err_0 is IllegalArg,
        after == before,
{
}

} // verus!

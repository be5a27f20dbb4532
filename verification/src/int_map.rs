use vstd::prelude::*;
use intmap::IntMap;
use std::sync::Arc;
use crate::collection::{CollectionView, SQLiteCollection};
use crate::instance::SQLiteInstance;

verus! {

/// `intmap::IntMap`, a map from `u64` keys to values. Nothing of its inside is
/// known here; what it holds goes by the names below.
#[verifier::external_type_specification]
#[verifier::external_body]
#[verifier::reject_recursive_types(V)]
pub struct ExIntMap<V>(IntMap<V>);

/// The collections that a map holds, by id.
pub uninterp spec fn collection_entries(map: IntMap<SQLiteCollection>) -> Map<u64, CollectionView>;

/// `IntMap::new`: a map that holds nothing.
#[verifier::external_body]
pub(crate) fn collections_new() -> (fresh: IntMap<SQLiteCollection>)
    ensures
        collection_entries(fresh).dom() == Set::<u64>::empty(),
{
    IntMap::new()
}

/// `IntMap::insert`: afterwards `key` maps to `value`, in place of whatever it
/// mapped to before, and every other key is as it was.
#[verifier::external_body]
pub(crate) fn collections_insert(
    map: &mut IntMap<SQLiteCollection>,
    key: u64,
    value: SQLiteCollection,
)
    ensures
        collection_entries(*final(map)) == collection_entries(*old(map)).insert(key, value@),
{
    map.insert(key, value);
}

/// `IntMap::get`: the value that `key` maps to, if it maps to one.
#[verifier::external_body]
pub(crate) fn collections_get(map: &IntMap<SQLiteCollection>, key: u64) -> (found: Option<
    &SQLiteCollection,
>)
    ensures
        found is Some <==> collection_entries(*map).contains_key(key),
        found is Some ==> found->0@ == collection_entries(*map)[key],
{
    map.get(key)
}

/// The instances that a map holds, by the key of their name.
pub uninterp spec fn instance_entries(map: IntMap<Arc<SQLiteInstance>>) -> Map<u64, SQLiteInstance>;

/// `IntMap::new`: a map that holds nothing.
#[verifier::external_body]
pub(crate) fn instances_new() -> (fresh: IntMap<Arc<SQLiteInstance>>)
    ensures
        instance_entries(fresh).dom() == Set::<u64>::empty(),
{
    IntMap::new()
}

/// `IntMap::insert`: afterwards `key` maps to `value`, in place of whatever it
/// mapped to before, and every other key is as it was.
#[verifier::external_body]
pub(crate) fn instances_insert(
    map: &mut IntMap<Arc<SQLiteInstance>>,
    key: u64,
    value: Arc<SQLiteInstance>,
)
    ensures
        instance_entries(*final(map)) == instance_entries(*old(map)).insert(key, *value),
{
    map.insert(key, value);
}

/// `IntMap::get`: the value that `key` maps to, if it maps to one.
#[verifier::external_body]
pub(crate) fn instances_get(map: &IntMap<Arc<SQLiteInstance>>, key: u64) -> (found: Option<
    &Arc<SQLiteInstance>,
>)
    ensures
        found is Some <==> instance_entries(*map).contains_key(key),
        found is Some ==> **found->0 == instance_entries(*map)[key],
{
    map.get(key)
}

/// `Arc::clone`: one more reference to the same shared instance.
#[verifier::external_body]
pub(crate) fn share(instance: &Arc<SQLiteInstance>) -> (shared: Arc<SQLiteInstance>)
    ensures
        *shared == **instance,
{
    Arc::clone(instance)
}

} // verus!

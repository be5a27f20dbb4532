use vstd::prelude::*;
use vstd::string::*;
use crate::error::IsarError;
use crate::schema::{CollectionSchema, IndexSchema, IsarSchema, PropertySchema};

verus! {

/// No two collections have the same name.
pub open spec fn distinct_collection_names(collections: Seq<CollectionSchema>) -> bool {
    forall|i: int, j: int|
        0 <= i < j < collections.len() ==> (#[trigger] collections[i]).name@
            != (#[trigger] collections[j]).name@
}

/// Whether the properties at `i` and `j` are both named, and named alike.
pub open spec fn same_property_name(properties: Seq<PropertySchema>, i: int, j: int) -> bool {
    properties[i].name is Some && properties[j].name is Some && properties[i].name->0@
        == properties[j].name->0@
}

/// No two named properties have the same name.
pub open spec fn distinct_property_names(properties: Seq<PropertySchema>) -> bool {
    forall|i: int, j: int|
        0 <= i < j < properties.len() ==> !#[trigger] same_property_name(properties, i, j)
}

/// Whether the property at `k` is named `name`.
pub open spec fn property_named(properties: Seq<PropertySchema>, k: int, name: Seq<char>) -> bool {
    properties[k].name is Some && properties[k].name->0@ == name
}

/// Whether some property is named `name`.
pub open spec fn declares_property(properties: Seq<PropertySchema>, name: Seq<char>) -> bool {
    exists|k: int| 0 <= k < properties.len() && #[trigger] property_named(properties, k, name)
}

/// Every property that the index names is declared.
pub open spec fn index_refers_to_properties(
    properties: Seq<PropertySchema>,
    index: IndexSchema,
) -> bool {
    forall|j: int|
        0 <= j < index.properties@.len() ==> declares_property(
            properties,
            (#[trigger] index.properties@[j])@,
        )
}

/// A collection is well formed if its named properties have distinct names
/// and its indexes name declared properties only.
pub open spec fn well_formed_collection(collection: CollectionSchema) -> bool {
    &&& distinct_property_names(collection.properties@)
    &&& forall|i: int|
        0 <= i < collection.indexes@.len() ==> index_refers_to_properties(
            collection.properties@,
            #[trigger] collection.indexes@[i],
        )
}

/// A schema is well formed if its collections have distinct names and each
/// of them is well formed.
pub open spec fn well_formed(schema: IsarSchema) -> bool {
    &&& distinct_collection_names(schema.collections@)
    &&& forall|i: int|
        0 <= i < schema.collections@.len() ==> well_formed_collection(
            #[trigger] schema.collections@[i],
        )
}

/// Whether some property is named `name`.
pub fn has_property(properties: &Vec<PropertySchema>, name: &String) -> (found: bool)
    ensures
        found == declares_property(properties@, name@),
{
    let mut k: usize = 0;
    while k < properties.len()
        invariant
            k <= properties.len(),
            forall|m: int| 0 <= m < k ==> !#[trigger] property_named(properties@, m, name@),
        decreases properties.len() - k,
    {
        match &properties[k].name {
            Some(n) => {
                if *n == *name {
                    assert(property_named(properties@, k as int, name@));
                    return true;
                }
            },
            None => {},
        }
        k += 1;
    }
    false
}

/// Whether no two named properties have the same name.
pub fn property_names_distinct(properties: &Vec<PropertySchema>) -> (distinct: bool)
    ensures
        distinct == distinct_property_names(properties@),
{
    let mut j: usize = 0;
    while j < properties.len()
        invariant
            j <= properties.len(),
            forall|a: int, b: int|
                0 <= a < b < j ==> !#[trigger] same_property_name(properties@, a, b),
        decreases properties.len() - j,
    {
        match &properties[j].name {
            Some(later) => {
                let mut i: usize = 0;
                while i < j
                    invariant
                        i <= j < properties.len(),
                        properties@[j as int].name == Some(*later),
                        forall|a: int|
                            0 <= a < i ==> !#[trigger] same_property_name(
                                properties@,
                                a,
                                j as int,
                            ),
                    decreases j - i,
                {
                    match &properties[i].name {
                        Some(earlier) => {
                            if *earlier == *later {
                                assert(same_property_name(properties@, i as int, j as int));
                                return false;
                            }
                        },
                        None => {},
                    }
                    i += 1;
                }
            },
            None => {},
        }
        j += 1;
    }
    true
}

/// Whether every property that the index names is declared.
pub fn index_is_valid(properties: &Vec<PropertySchema>, index: &IndexSchema) -> (valid: bool)
    ensures
        valid == index_refers_to_properties(properties@, *index),
{
    let mut j: usize = 0;
    while j < index.properties.len()
        invariant
            j <= index.properties.len(),
            forall|m: int|
                0 <= m < j ==> declares_property(properties@, (#[trigger] index.properties@[m])@),
        decreases index.properties.len() - j,
    {
        if !has_property(properties, &index.properties[j]) {
            return false;
        }
        j += 1;
    }
    true
}

/// Whether a collection is well formed.
pub fn collection_is_valid(collection: &CollectionSchema) -> (valid: bool)
    ensures
        valid == well_formed_collection(*collection),
{
    if !property_names_distinct(&collection.properties) {
        return false;
    }
    let mut i: usize = 0;
    while i < collection.indexes.len()
        invariant
            i <= collection.indexes.len(),
            distinct_property_names(collection.properties@),
            forall|m: int|
                0 <= m < i ==> index_refers_to_properties(
                    collection.properties@,
                    #[trigger] collection.indexes@[m],
                ),
        decreases collection.indexes.len() - i,
    {
        if !index_is_valid(&collection.properties, &collection.indexes[i]) {
            return false;
        }
        i += 1;
    }
    true
}

/// Whether no two collections have the same name.
pub fn collection_names_distinct(collections: &Vec<CollectionSchema>) -> (distinct: bool)
    ensures
        distinct == distinct_collection_names(collections@),
{
    let mut j: usize = 0;
    while j < collections.len()
        invariant
            j <= collections.len(),
            forall|a: int, b: int|
                0 <= a < b < j ==> (#[trigger] collections@[a]).name@
                    != (#[trigger] collections@[b]).name@,
        decreases collections.len() - j,
    {
        let mut i: usize = 0;
        while i < j
            invariant
                i <= j < collections.len(),
                forall|a: int|
                    0 <= a < i ==> (#[trigger] collections@[a]).name@ != collections@[j as int].name@,
            decreases j - i,
        {
            if collections[i].name == collections[j].name {
                return false;
            }
            i += 1;
        }
        j += 1;
    }
    true
}

/// Whether `i` is the first collection of the schema that is not well formed.
pub open spec fn first_malformed(schema: IsarSchema, i: int) -> bool {
    &&& 0 <= i < schema.collections@.len()
    &&& !well_formed_collection(schema.collections@[i])
    &&& forall|m: int| 0 <= m < i ==> well_formed_collection(#[trigger] schema.collections@[m])
}

/// What `verify_schema` says of a schema that is not well formed: that two
/// collections share a name, or else which collection is the first that is
/// not well formed.
pub open spec fn schema_complaint(schema: IsarSchema, message: Seq<char>) -> bool {
    if !distinct_collection_names(schema.collections@) {
        message == "Two collections have the same name."@
    } else {
        exists|i: int| #[trigger]
            first_malformed(schema, i) && message
                == "A property name is repeated or an index names an unknown property in collection "@
                + schema.collections@[i].name@
    }
}

/// Checks that a schema is well formed, and says what is wrong with one that
/// is not.
pub fn verify_schema(schema: &IsarSchema) -> (r: Result<(), IsarError>)
    ensures
        r is Ok <==> well_formed(*schema),
        r is Err ==> r->Err_0 is SchemaError && schema_complaint(
            *schema,
            r->Err_0->SchemaError_message@,
        ),
{
    if !collection_names_distinct(&schema.collections) {
        return Err(
            IsarError::SchemaError { message: "Two collections have the same name.".to_owned() },
        );
    }
    let mut i: usize = 0;
    while i < schema.collections.len()
        invariant
            i <= schema.collections.len(),
            distinct_collection_names(schema.collections@),
            forall|m: int|
                0 <= m < i ==> well_formed_collection(#[trigger] schema.collections@[m]),
        decreases schema.collections.len() - i,
    {
        if !collection_is_valid(&schema.collections[i]) {
            let mut message =
                "A property name is repeated or an index names an unknown property in collection ".to_owned();
            message.append(schema.collections[i].name.as_str());
            assert(first_malformed(*schema, i as int));
            return Err(IsarError::SchemaError { message });
        }
        i += 1;
    }
    Ok(())
}

} // verus!

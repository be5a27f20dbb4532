use vstd::prelude::*;

verus! {

/// The declared type of a property.
#[derive(Clone, Copy, Debug, PartialEq, Eq, Structural)]
pub enum DataType {
    Bool,
    Byte,
    Int,
    Float,
    Long,
    Double,
    String,
    Object,
    Json,
    BoolList,
    ByteList,
    IntList,
    FloatList,
    LongList,
    DoubleList,
    StringList,
    ObjectList,
}

/// One declared property of a collection. A property without a name exists
/// for structural reasons only and cannot be addressed on its own.
#[derive(Clone, Debug)]
pub struct PropertySchema {
    pub name: Option<String>,
    pub data_type: DataType,
    pub target_id: Option<u64>,
}

/// One declared index of a collection.
#[derive(Clone, Debug)]
pub struct IndexSchema {
    pub name: String,
    pub properties: Vec<String>,
    pub unique: bool,
}

/// One declared document type.
#[derive(Clone, Debug)]
pub struct CollectionSchema {
    pub id: u64,
    pub name: String,
    pub properties: Vec<PropertySchema>,
    pub indexes: Vec<IndexSchema>,
    pub embedded: bool,
}

/// A whole schema: its collections in declaration order.
#[derive(Clone, Debug)]
pub struct IsarSchema {
    pub collections: Vec<CollectionSchema>,
}

impl PropertySchema {
    /// A named property.
    pub fn new(name: &str, data_type: DataType, target_id: Option<u64>) -> (p: PropertySchema)
        ensures
            p.name is Some,
            p.name->0@ == name@,
            p.data_type == data_type,
            p.target_id == target_id,
    {
        PropertySchema { name: Some(name.to_owned()), data_type, target_id }
    }

    /// A property that has no name of its own.
    pub fn unnamed(data_type: DataType, target_id: Option<u64>) -> (p: PropertySchema)
        ensures
            p.name is None,
            p.data_type == data_type,
            p.target_id == target_id,
    {
        PropertySchema { name: None, data_type, target_id }
    }
}

impl IndexSchema {
    pub fn new(name: &str, properties: Vec<String>, unique: bool) -> (ix: IndexSchema)
        ensures
            ix.name@ == name@,
            ix.properties == properties,
            ix.unique == unique,
    {
        IndexSchema { name: name.to_owned(), properties, unique }
    }
}

impl CollectionSchema {
    pub fn new(
        id: u64,
        name: &str,
        properties: Vec<PropertySchema>,
        indexes: Vec<IndexSchema>,
        embedded: bool,
    ) -> (c: CollectionSchema)
        ensures
            c.id == id,
            c.name@ == name@,
            c.properties == properties,
            c.indexes == indexes,
            c.embedded == embedded,
    {
        CollectionSchema { id, name: name.to_owned(), properties, indexes, embedded }
    }
}

impl IsarSchema {
    pub fn new(collections: Vec<CollectionSchema>) -> (s: IsarSchema)
        ensures
            s.collections == collections,
    {
        IsarSchema { collections }
    }
}

} // verus!

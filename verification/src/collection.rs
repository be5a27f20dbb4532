use vstd::prelude::*;
use crate::schema::{CollectionSchema, DataType, PropertySchema};

verus! {

/// One addressable field of a collection.
#[derive(Debug)]
pub struct SQLiteProperty {
    pub name: String,
    pub data_type: DataType,
    pub target_id: Option<u64>,
}

/// What a property is, as a mathematical value.
pub struct PropertyView {
    pub name: Seq<char>,
    pub data_type: DataType,
    pub target_id: Option<u64>,
}

/// The runtime descriptor of one document type.
#[derive(Debug)]
pub struct SQLiteCollection {
    pub name: String,
    pub properties: Vec<SQLiteProperty>,
}

/// What a collection is, as a mathematical value.
pub struct CollectionView {
    pub name: Seq<char>,
    pub properties: Seq<PropertyView>,
}

impl View for SQLiteProperty {
    type V = PropertyView;

    open spec fn view(&self) -> PropertyView {
        PropertyView { name: self.name@, data_type: self.data_type, target_id: self.target_id }
    }
}

impl View for SQLiteCollection {
    type V = CollectionView;

    open spec fn view(&self) -> CollectionView {
        CollectionView { name: self.name@, properties: property_views(self.properties@) }
    }
}

/// The views of a run of properties, in the same order.
pub open spec fn property_views(properties: Seq<SQLiteProperty>) -> Seq<PropertyView> {
    properties.map_values(|p: SQLiteProperty| p@)
}

/// Whether a declared property has a name of its own.
pub open spec fn has_name(p: PropertySchema) -> bool {
    p.name is Some
}

/// The addressable property that a named declaration stands for.
pub open spec fn property_of(p: PropertySchema) -> PropertyView {
    PropertyView { name: p.name->0@, data_type: p.data_type, target_id: p.target_id }
}

/// The addressable properties of a declaration list: the named ones, in
/// declaration order.
pub open spec fn named_properties(declared: Seq<PropertySchema>) -> Seq<PropertyView>
    decreases declared.len(),
{
    if declared.len() == 0 {
        Seq::empty()
    } else if has_name(declared.last()) {
        named_properties(declared.drop_last()).push(property_of(declared.last()))
    } else {
        named_properties(declared.drop_last())
    }
}

/// The descriptor that a declared collection stands for.
pub open spec fn collection_of(c: CollectionSchema) -> CollectionView {
    CollectionView { name: c.name@, properties: named_properties(c.properties@) }
}

/// The addressable properties are exactly the named declarations, each kept
/// once and in the order in which they were declared.
pub proof fn lemma_named_properties_keep_order(declared: Seq<PropertySchema>)
    ensures
        named_properties(declared) == declared.filter(|p: PropertySchema| has_name(p)).map_values(
            |p: PropertySchema| property_of(p),
        ),
    decreases declared.len(),
{
    reveal(Seq::filter);
    let keep = |p: PropertySchema| has_name(p);
    let conv = |p: PropertySchema| property_of(p);
    if declared.len() > 0 {
        lemma_named_properties_keep_order(declared.drop_last());
        let rest = declared.drop_last().filter(keep);
        if has_name(declared.last()) {
            assert(rest.push(declared.last()).map_values(conv) =~= rest.map_values(conv).push(
                property_of(declared.last()),
            ));
        }
    } else {
        assert(declared.filter(keep).map_values(conv) =~= Seq::<PropertyView>::empty());
    }
}

/// An unnamed declaration adds nothing to the addressable properties.
pub proof fn lemma_unnamed_property_is_dropped(declared: Seq<PropertySchema>, p: PropertySchema)
    requires
        !has_name(p),
    ensures
        named_properties(declared.push(p)) == named_properties(declared),
{
    assert(declared.push(p).drop_last() =~= declared);
}

impl SQLiteProperty {
    pub fn new(name: &str, data_type: DataType, target_id: Option<u64>) -> (p: SQLiteProperty)
        ensures
            p@ == (PropertyView { name: name@, data_type, target_id }),
    {
        SQLiteProperty { name: name.to_owned(), data_type, target_id }
    }
}

impl SQLiteCollection {
    pub fn new(name: String, properties: Vec<SQLiteProperty>) -> (c: SQLiteCollection)
        ensures
            c@ == (CollectionView { name: name@, properties: property_views(properties@) }),
    {
        SQLiteCollection { name, properties }
    }

    /// Builds the descriptor of a declared collection: its name, and its named
    /// properties in declaration order.
    pub fn from_schema(schema: &CollectionSchema) -> (c: SQLiteCollection)
        ensures
            c@ == collection_of(*schema),
    {
        let mut properties: Vec<SQLiteProperty> = Vec::new();
        let declared = &schema.properties;
        let mut i: usize = 0;
        while i < declared.len()
            invariant
                i <= declared.len(),
                property_views(properties@) == named_properties(declared@.take(i as int)),
            decreases declared.len() - i,
        {
            let p = &declared[i];
            proof {
                assert(declared@.take(i + 1).drop_last() =~= declared@.take(i as int));
                assert(declared@.take(i + 1).last() == declared@[i as int]);
            }
            let ghost before = properties@;
            match &p.name {
                Some(name) => {
                    properties.push(SQLiteProperty::new(name.as_str(), p.data_type, p.target_id));
                    proof {
                        assert(property_views(properties@) =~= property_views(before).push(
                            property_of(*p),
                        ));
                    }
                },
                None => {},
            }
            i += 1;
        }
        proof {
            assert(declared@.take(i as int) =~= declared@);
        }
        SQLiteCollection::new(schema.name.clone(), properties)
    }
}

} // verus!

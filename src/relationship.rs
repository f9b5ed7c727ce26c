//! Relationships: a named reference from a resource to one or several other
//! resources, written as their identifier objects with the relation's links.
use vstd::prelude::*;
use crate::document::optional_links_text;
use crate::document::JsonApiCollection;
use crate::document::ResourceObjectType;
use crate::links::Linkify;
use crate::links::LinksObject;
use crate::links::LinksSerialize;
use crate::resource::identifier_text;
use crate::resource::ResourceIdentifiable;
use crate::resource::ResourceIdentifier;
use crate::text::join_texts;
use crate::text::joined;
use crate::text::texts_view;

verus! {

/// A relationship object: the identifiers of the related resources, and the
/// links of the relation.
pub struct RelationObject {
    pub data: ResourceObjectType<ResourceIdentifier>,
    pub links: Vec<LinksObject>,
}

/// The JSON text of the identifier object `i`.
pub open spec fn identifier_object_text(i: ResourceIdentifier) -> Seq<char> {
    identifier_text(i.id@, i.object_type@)
}

/// The `data` of a relationship object: one identifier object, an array of
/// them in order, or `null` when there is no related resource.
pub open spec fn relation_data_text(d: ResourceObjectType<ResourceIdentifier>) -> Seq<char> {
    match d {
        ResourceObjectType::Single(i) => identifier_object_text(i),
        ResourceObjectType::Multiple(v) => "["@ + joined(
            v@.map_values(|i: ResourceIdentifier| identifier_object_text(i)),
        ) + "]"@,
        ResourceObjectType::NoResource => "null"@,
    }
}

/// The JSON text of a relationship object; `links` is left out when the
/// relation has none.
pub open spec fn relation_text(r: RelationObject) -> Seq<char> {
    "{\"data\":"@ + relation_data_text(r.data) + optional_links_text(r.links@) + "}"@
}

fn serialize_identifiers(v: &Vec<ResourceIdentifier>) -> (r: String)
    ensures
        r@ == "["@ + joined(v@.map_values(|i: ResourceIdentifier| identifier_object_text(i))) + "]"@,
{
    let mut parts: Vec<String> = Vec::new();
    let mut k: usize = 0;
    while k < v.len()
        invariant
            k <= v.len(),
            texts_view(parts@) =~= v@.take(k as int).map_values(
                |i: ResourceIdentifier| identifier_object_text(i),
            ),
        decreases v.len() - k,
    {
        let t = v[k].serialize();
        let ghost before = parts@;
        parts.push(t);
        proof {
            assert(parts@ =~= before.push(t));
            assert(texts_view(parts@) =~= texts_view(before).push(t@));
            assert(v@.take(k + 1) =~= v@.take(k as int).push(v@[k as int]));
            assert(v@.take(k + 1).map_values(|i: ResourceIdentifier| identifier_object_text(i))
                =~= v@.take(k as int).map_values(
                |i: ResourceIdentifier| identifier_object_text(i),
            ).push(identifier_object_text(v@[k as int])));
        }
        k = k + 1;
    }
    assert(v@.take(v.len() as int) =~= v@);
    join_texts("[", &parts, "]")
}

impl RelationObject {
    /// A relation to one resource.
    pub fn to_one(identifier: ResourceIdentifier, links: Vec<LinksObject>) -> (r: RelationObject)
        ensures
            r.data == ResourceObjectType::Single(identifier),
            r.links == links,
    {
        RelationObject { data: ResourceObjectType::Single(identifier), links }
    }

    /// A relation to the resources `identifiers`, in order.
    pub fn to_many(identifiers: Vec<ResourceIdentifier>, links: Vec<LinksObject>) -> (r:
        RelationObject)
        ensures
            r.data == ResourceObjectType::Multiple(identifiers),
            r.links == links,
    {
        RelationObject { data: ResourceObjectType::Multiple(identifiers), links }
    }

    /// The relation to the resource `related`, with the links of that
    /// resource.
    pub fn get_relation_object<To: ResourceIdentifiable + Linkify>(related: &To) -> (r:
        RelationObject)
        ensures
            r.data matches ResourceObjectType::Single(i) && i.id@ == related.spec_id().spec_string()
                && i.object_type@ == To::spec_type(),
            r.links@ == related.spec_links(),
    {
        let identifier = ResourceIdentifier::create_identifier(related);
        RelationObject { data: ResourceObjectType::Single(identifier), links: related.get_links() }
    }

    /// The relation to the resources of the list `related`, in order, with
    /// the links of the list.
    pub fn get_relation_objects<To: ResourceIdentifiable>(related: JsonApiCollection<To>) -> (r:
        RelationObject)
        ensures
            r.data matches ResourceObjectType::Multiple(v) && v.len() == related.0.len() && (forall|
                k: int,
            |
                0 <= k < v.len() ==> #[trigger] v[k].id@ == related.0[k].spec_id().spec_string()
                    && v[k].object_type@ == To::spec_type()),
            r.links == related.1,
    {
        let JsonApiCollection(values, links) = related;
        let mut identifiers: Vec<ResourceIdentifier> = Vec::new();
        let mut k: usize = 0;
        while k < values.len()
            invariant
                k <= values.len(),
                identifiers.len() == k,
                forall|j: int|
                    0 <= j < k ==> #[trigger] identifiers[j].id@ == values[j].spec_id().spec_string()
                        && identifiers[j].object_type@ == To::spec_type(),

            decreases values.len() - k,
        {
            identifiers.push(ResourceIdentifier::create_identifier(&values[k]));
            k = k + 1;
        }
        RelationObject { data: ResourceObjectType::Multiple(identifiers), links }
    }

    /// The JSON text of the relationship object.
    pub fn serialize(&self) -> (r: String)
        ensures
            r@ == relation_text(*self),
    {
        let mut out = String::new();
        out.append("{\"data\":");
        match &self.data {
            ResourceObjectType::Single(i) => {
                let t = i.serialize();
                out.append(t.as_str());
            },
            ResourceObjectType::Multiple(v) => {
                let t = serialize_identifiers(v);
                out.append(t.as_str());
            },
            ResourceObjectType::NoResource => {
                out.append("null");
            },
        }
        let ghost with_data = out@;
        if self.links.len() > 0 {
            out.append(",\"links\":");
            let l = LinksSerialize(&self.links).serialize();
            out.append(l.as_str());
        }
        assert(out@ =~= with_data + optional_links_text(self.links@));
        out.append("}");
        out
    }
}

/// A resource related to values of this type, of type `To`.
pub trait HaveRelationship<To> {
    /// The related resource.
    fn get_relation(&self) -> To;
}

/// A type that can give its relation to resources of type `To`.
pub trait RelationObjectify<To> {
    /// The relationship object of the relation.
    fn get_relation_object(&self) -> RelationObject;
}

/// A type that can give all its relationship objects.
pub trait Relationships {
    /// The relationship objects of every relation of the value.
    fn get_all_relation_objects(&self) -> Vec<RelationObject>;
}

} // verus!

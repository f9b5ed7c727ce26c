//! Top-level documents: primary data made of resource objects, with the
//! document's links and included resources, or a list of errors.
use vstd::prelude::*;
use crate::links::links_text;
use crate::links::Linkify;
use crate::links::LinksObject;
use crate::links::LinksSerialize;
use crate::resource::ResourceId;
use crate::resource::ResourceIdentifiable;
use crate::text::decimal_string;
use crate::text::join_texts;
use crate::text::joined;
use crate::text::json_string;
use crate::text::json_string_of;
use crate::text::texts_view;

verus! {

/// The media type of JSON:API documents, which every answer carries as its
/// content type.
pub const JSON_API_MEDIA_TYPE: &'static str = "application/vnd.api+json";

/// A resource object: identifier, type and attributes. The attributes are the
/// whole application value, held as the JSON text it serializes to.
pub struct ResourceObject {
    pub id: ResourceId,
    pub object_type: String,
    pub attributes: String,
}

/// The JSON text of a resource object.
pub open spec fn resource_object_text(r: ResourceObject) -> Seq<char> {
    "{\"id\":"@ + json_string_of(r.id.spec_string()) + ",\"type\":"@ + json_string_of(
        r.object_type@,
    ) + ",\"attributes\":"@ + r.attributes@ + "}"@
}

/// The texts of the resource objects `rs`, in order.
pub open spec fn resource_object_texts(rs: Seq<ResourceObject>) -> Seq<Seq<char>> {
    rs.map_values(|r: ResourceObject| resource_object_text(r))
}

/// Writes an identifier as a JSON string. A string identifier is written as
/// it stands; an integer is first put in decimal.
pub fn id_json(id: &ResourceId) -> (r: String)
    ensures
        r@ == json_string_of(id.spec_string()),
{
    match id {
        ResourceId::Text(s) => json_string(s.as_str()),
        ResourceId::Integer(n) => {
            let d = decimal_string(*n);
            json_string(d.as_str())
        },
    }
}

impl ResourceObject {
    /// The resource object with the given parts.
    pub fn new(id: ResourceId, object_type: String, attributes: String) -> (r: ResourceObject)
        ensures
            r.id == id,
            r.object_type == object_type,
            r.attributes == attributes,
    {
        ResourceObject { id, object_type, attributes }
    }

    /// The resource object of `resource`, whose serialized form is
    /// `attributes`; identifier and type are what the resource reports.
    pub fn from_resource<T: ResourceIdentifiable>(resource: &T, attributes: String) -> (r:
        ResourceObject)
        ensures
            r.id == resource.spec_id(),
            r.object_type@ == T::spec_type(),
            r.attributes == attributes,
    {
        let id = resource.get_id();
        let t = T::get_type();
        ResourceObject { id, object_type: t.to_string(), attributes }
    }

    /// The JSON text of the resource object.
    pub fn serialize(&self) -> (r: String)
        ensures
            r@ == resource_object_text(*self),
    {
        let mut out = String::new();
        out.append("{\"id\":");
        let i = id_json(&self.id);
        out.append(i.as_str());
        out.append(",\"type\":");
        let t = json_string(self.object_type.as_str());
        out.append(t.as_str());
        out.append(",\"attributes\":");
        out.append(self.attributes.as_str());
        out.append("}");
        out
    }
}

/// Writes the JSON array of the resource objects `rs`, in order.
pub fn serialize_resource_objects(rs: &Vec<ResourceObject>) -> (r: String)
    ensures
        r@ == "["@ + joined(resource_object_texts(rs@)) + "]"@,
{
    let mut parts: Vec<String> = Vec::new();
    let mut i: usize = 0;
    while i < rs.len()
        invariant
            i <= rs.len(),
            texts_view(parts@) =~= resource_object_texts(rs@.take(i as int)),
        decreases rs.len() - i,
    {
        let t = rs[i].serialize();
        let ghost before = parts@;
        parts.push(t);
        proof {
            assert(parts@ =~= before.push(t));
            assert(texts_view(parts@) =~= texts_view(before).push(t@));
            assert(rs@.take(i + 1) =~= rs@.take(i as int).push(rs@[i as int]));
            assert(resource_object_texts(rs@.take(i + 1)) =~= resource_object_texts(
                rs@.take(i as int),
            ).push(resource_object_text(rs@[i as int])));
        }
        i = i + 1;
    }
    assert(rs@.take(rs.len() as int) =~= rs@);
    join_texts("[", &parts, "]")
}

/// The primary data of a document: one resource object, or an array of them.
pub enum PrimaryObjectType {
    Single(ResourceObject),
    Multiple(Vec<ResourceObject>),
}

/// A value of a resource, a list of them, or none.
pub enum ResourceObjectType<Data> {
    Single(Data),
    Multiple(Vec<Data>),
    NoResource,
}

/// The JSON text of the primary data: an object for one resource, an array
/// in list order for several.
pub open spec fn data_text(d: PrimaryObjectType) -> Seq<char> {
    match d {
        PrimaryObjectType::Single(r) => resource_object_text(r),
        PrimaryObjectType::Multiple(v) => "["@ + joined(resource_object_texts(v@)) + "]"@,
    }
}

/// The `links` member of a document, which is left out when there are no
/// links.
pub open spec fn optional_links_text(links: Seq<LinksObject>) -> Seq<char> {
    if links.len() == 0 {
        Seq::empty()
    } else {
        ",\"links\":"@ + links_text(links)
    }
}

/// The `included` member of a document, when there is one.
pub open spec fn optional_included_text(included: Option<Vec<String>>) -> Seq<char> {
    match included {
        Some(v) => ",\"included\":"@ + ("["@ + joined(texts_view(v@)) + "]"@),
        None => Seq::empty(),
    }
}

/// A list of values of one resource type, with the links of the list.
pub struct JsonApiCollection<Data>(pub Vec<Data>, pub Vec<LinksObject>);

impl<Data> JsonApiCollection<Data> {
    /// The list `vec`, without links.
    pub fn data(vec: Vec<Data>) -> (r: JsonApiCollection<Data>)
        ensures
            r.0 == vec,
            r.1@.len() == 0,
    {
        JsonApiCollection(vec, Vec::new())
    }

    /// The list `vec`, with the links `links`.
    pub fn data_w_links(links: Vec<LinksObject>, vec: Vec<Data>) -> (r: JsonApiCollection<Data>)
        ensures
            r.0 == vec,
            r.1 == links,
    {
        JsonApiCollection(vec, links)
    }
}

/// A document with primary data: the data, the links of the document, and
/// the included resources when there are any, each held as its JSON text.
pub struct JsonApiPrimaryDataObject {
    pub data: PrimaryObjectType,
    pub links: Vec<LinksObject>,
    pub included: Option<Vec<String>>,
}

/// The JSON text of a document with primary data.
pub open spec fn primary_document_text(p: JsonApiPrimaryDataObject) -> Seq<char> {
    "{\"data\":"@ + data_text(p.data) + optional_links_text(p.links@) + optional_included_text(
        p.included,
    ) + "}"@
}

impl JsonApiPrimaryDataObject {
    /// A document with the primary data `data` and nothing else.
    pub fn from_data(data: PrimaryObjectType) -> (r: JsonApiPrimaryDataObject)
        ensures
            r.data == data,
            r.links@.len() == 0,
            r.included is None,
    {
        JsonApiPrimaryDataObject { data, links: Vec::new(), included: None }
    }

    /// A document with the primary data `data` and the links `links`.
    pub fn from_data_links(data: PrimaryObjectType, links: Vec<LinksObject>) -> (r:
        JsonApiPrimaryDataObject)
        ensures
            r.data == data,
            r.links == links,
            r.included is None,
    {
        JsonApiPrimaryDataObject { data, links, included: None }
    }

    /// A document with the primary data `data`, the links `links` and the
    /// included resources `included`.
    pub fn from_data_links_included(
        data: PrimaryObjectType,
        links: Vec<LinksObject>,
        included: Vec<String>,
    ) -> (r: JsonApiPrimaryDataObject)
        ensures
            r.data == data,
            r.links == links,
            r.included == Some(included),
    {
        JsonApiPrimaryDataObject { data, links, included: Some(included) }
    }

    /// The document of one resource: its resource object as the data, and the
    /// links of the resource as the document's links.
    pub fn single<T: ResourceIdentifiable + Linkify>(resource: &T, attributes: String) -> (r:
        JsonApiPrimaryDataObject)
        ensures
            r.data matches PrimaryObjectType::Single(o) && o.id == resource.spec_id()
                && o.object_type@ == T::spec_type() && o.attributes == attributes,
            r.links@ == resource.spec_links(),
            r.included is None,
    {
        let o = ResourceObject::from_resource(resource, attributes);
        let links = resource.get_links();
        JsonApiPrimaryDataObject { data: PrimaryObjectType::Single(o), links, included: None }
    }

    /// The document of a list: the resource objects of its values, in order,
    /// as the data, and the links of the list as the document's links. The
    /// value at each position serializes to the text at that position of
    /// `attributes`; there is no document when the two lists differ in
    /// length.
    pub fn collection<T: ResourceIdentifiable>(
        collection: JsonApiCollection<T>,
        attributes: Vec<String>,
    ) -> (r: Option<JsonApiPrimaryDataObject>)
        ensures
            r is Some <==> attributes.len() == collection.0.len(),
            r matches Some(p) ==> p.data matches PrimaryObjectType::Multiple(v) && v.len()
                == collection.0.len() && (forall|i: int|
                0 <= i < v.len() ==> #[trigger] v[i].attributes == attributes[i] && v[i].id
                    == collection.0[i].spec_id() && v[i].object_type@ == T::spec_type()),
            r matches Some(p) ==> p.links == collection.1 && p.included is None,
    {
        let JsonApiCollection(values, links) = collection;
        if attributes.len() != values.len() {
            return None;
        }
        let mut objects: Vec<ResourceObject> = Vec::new();
        let mut i: usize = 0;
        while i < values.len()
            invariant
                i <= values.len(),
                attributes.len() == values.len(),
                objects.len() == i,
                forall|j: int|
                    0 <= j < i ==> #[trigger] objects[j].attributes == attributes[j] && objects[j].id
                        == values[j].spec_id() && objects[j].object_type@ == T::spec_type(),
            decreases values.len() - i,
        {
            let a = attributes[i].clone();
            objects.push(ResourceObject::from_resource(&values[i], a));
            i = i + 1;
        }
        Some(
            JsonApiPrimaryDataObject {
                data: PrimaryObjectType::Multiple(objects),
                links,
                included: None,
            },
        )
    }

    /// The JSON text of the document: `data`, then `links` when there are
    /// any, then `included` when there is one.
    pub fn serialize(&self) -> (r: String)
        ensures
            r@ == primary_document_text(*self),
    {
        let mut out = String::new();
        out.append("{\"data\":");
        match &self.data {
            PrimaryObjectType::Single(o) => {
                let t = o.serialize();
                out.append(t.as_str());
            },
            PrimaryObjectType::Multiple(v) => {
                let t = serialize_resource_objects(v);
                out.append(t.as_str());
            },
        }
        let ghost with_data = out@;
        if self.links.len() > 0 {
            out.append(",\"links\":");
            let l = LinksSerialize(&self.links).serialize();
            out.append(l.as_str());
        }
        assert(out@ =~= with_data + optional_links_text(self.links@));
        let ghost with_links = out@;
        match &self.included {
            Some(v) => {
                out.append(",\"included\":");
                let t = join_texts("[", v, "]");
                out.append(t.as_str());
            },
            None => {},
        }
        assert(out@ =~= with_links + optional_included_text(self.included));
        out.append("}");
        out
    }
}

/// A type whose documents carry a `jsonapi` member.
pub trait JsonApi {
    /// The JSON text of the `jsonapi` member.
    fn get_json_api_field(&self) -> String;
}

/// Reading back a resource object: its text starts with the `id` member,
/// whose value is the string form of the identifier, then the `type` member,
/// whose value is the resource type; the rest is the attributes. Two resource
/// objects whose identifiers have the same string form, an integer and its
/// decimal text for one, have the same text.
pub proof fn lemma_identity_round_trip(r: ResourceObject, s: ResourceObject)
    requires
        r.id.spec_string() == s.id.spec_string(),
        r.object_type == s.object_type,
        r.attributes == s.attributes,
    ensures
        resource_object_text(r) == ("{\"id\":"@ + json_string_of(r.id.spec_string())) + (
        ",\"type\":"@ + json_string_of(r.object_type@)) + (",\"attributes\":"@ + r.attributes@
            + "}"@),
        resource_object_text(r) == resource_object_text(s),
{
    assert(resource_object_text(r) =~= ("{\"id\":"@ + json_string_of(r.id.spec_string())) + (
    ",\"type\":"@ + json_string_of(r.object_type@)) + (",\"attributes\":"@ + r.attributes@ + "}"@));
}

/// Reading back the resource object of a value `v`, made as
/// `ResourceObject::from_resource` makes it: its `id` member is the string
/// form of the value's identifier, and its `type` member the value's type.
pub proof fn lemma_value_identity<T: ResourceIdentifiable>(v: &T, r: ResourceObject)
    requires
        r.id == v.spec_id(),
        r.object_type@ == T::spec_type(),
    ensures
        resource_object_text(r) == ("{\"id\":"@ + json_string_of(v.spec_id().spec_string())) + (
        ",\"type\":"@ + json_string_of(T::spec_type())) + (",\"attributes\":"@ + r.attributes@
            + "}"@),
{
    lemma_identity_round_trip(r, r);
}

/// A document with no links has no `links` member: its text is the data,
/// then `included` when there is one.
pub proof fn lemma_links_omitted(p: JsonApiPrimaryDataObject)
    requires
        p.links@.len() == 0,
    ensures
        primary_document_text(p) == "{\"data\":"@ + data_text(p.data) + optional_included_text(
            p.included,
        ) + "}"@,
{
    assert(optional_links_text(p.links@) =~= Seq::<char>::empty());
    assert(primary_document_text(p) =~= "{\"data\":"@ + data_text(p.data)
        + optional_included_text(p.included) + "}"@);
}

/// One value is written as an object, its resource object; a list of two
/// values as an array of their two resource objects in list order.
pub proof fn lemma_single_and_collection(a: ResourceObject, b: ResourceObject, v: Vec<ResourceObject>)
    requires
        v@ == seq![a, b],
    ensures
        data_text(PrimaryObjectType::Single(a)) == resource_object_text(a),
        data_text(PrimaryObjectType::Multiple(v)) == "["@ + resource_object_text(a) + ","@
            + resource_object_text(b) + "]"@,
{
    let parts = resource_object_texts(v@);
    assert(parts.len() == 2);
    assert(parts[0] == resource_object_text(a));
    assert(parts[1] == resource_object_text(b));
    assert(parts.drop_last().len() == 1);
    assert(joined(parts.drop_last()) == parts[0]);
    assert(joined(parts) == parts[0] + ","@ + parts[1]);
}

} // verus!

//! The identity of a resource: its `id` and its `type`.
use vstd::prelude::*;
use crate::text::decimal;
use crate::text::decimal_string;
use crate::text::json_string;
use crate::text::json_string_of;

verus! {

/// The identifier of a resource, as the application holds it: already a
/// string, or an integer that is written in decimal.
pub enum ResourceId {
    Text(String),
    Integer(i128),
}

impl ResourceId {
    /// The string form of the identifier, which is what a document carries.
    pub open spec fn spec_string(&self) -> Seq<char> {
        match self {
            ResourceId::Text(s) => s@,
            ResourceId::Integer(n) => decimal(*n as int),
        }
    }

    /// The string form of the identifier.
    pub fn to_id_string(&self) -> (r: String)
        ensures
            r@ == self.spec_string(),
    {
        match self {
            ResourceId::Text(s) => s.clone(),
            ResourceId::Integer(n) => decimal_string(*n),
        }
    }
}

/// A type whose values are resources of one `type`. An implementation
/// promises that `get_type` always returns the same text, `spec_type`.
pub trait ResourceType {
    /// The resource type of the implementing type. Generic code knows it
    /// only as what `get_type` returns; it is not given here.
    closed spec fn spec_type() -> Seq<char> {
        arbitrary()
    }

    /// Returns the resource type, the same for every value of the type.
    fn get_type() -> (r: &'static str)
        ensures
            r@ == Self::spec_type(),
    ;
}

/// A type whose values can be written as resource objects: each has an
/// identifier, and the type has a resource type. An implementation promises
/// that `get_id` is a function of the value, `spec_id`.
pub trait ResourceIdentifiable: ResourceType {
    /// The identifier of the value. Generic code knows it only as what
    /// `get_id` returns; it is not given here.
    closed spec fn spec_id(&self) -> ResourceId {
        arbitrary()
    }

    /// Returns the resource identifier.
    fn get_id(&self) -> (r: ResourceId)
        ensures
            r == self.spec_id(),
    ;
}

/// An identifier whose value is already a string, so that a document can
/// take it as it stands.
pub trait CanSerializeNoConversion {
    /// The identifier as a string.
    fn as_str(&self) -> &str;
}

impl CanSerializeNoConversion for String {
    fn as_str(&self) -> (r: &str)
        ensures
            r@ == self@,
    {
        self.as_str()
    }
}

/// The JSON text of a resource identifier object.
pub open spec fn identifier_text(id: Seq<char>, object_type: Seq<char>) -> Seq<char> {
    "{\"id\":"@ + json_string_of(id) + ",\"type\":"@ + json_string_of(object_type) + "}"@
}

/// A resource identifier object: the `id` and `type` of a resource, without
/// its attributes.
pub struct ResourceIdentifier {
    pub id: String,
    pub object_type: String,
}

/// The name that relationships use for a resource identifier object.
pub type ResourceIdentifierObject = ResourceIdentifier;

impl ResourceIdentifier {
    /// The identifier object of the resource with identifier `id` and type
    /// `object_type`.
    pub fn new(id: &ResourceId, object_type: &str) -> (r: ResourceIdentifier)
        ensures
            r.id@ == id.spec_string(),
            r.object_type@ == object_type@,
    {
        ResourceIdentifier { id: id.to_id_string(), object_type: object_type.to_string() }
    }

    /// The identifier object of `resource`: its identifier in string form
    /// and its type.
    pub fn create_identifier<T: ResourceIdentifiable>(resource: &T) -> (r: ResourceIdentifier)
        ensures
            r.id@ == resource.spec_id().spec_string(),
            r.object_type@ == T::spec_type(),
    {
        let id = resource.get_id();
        let t = T::get_type();
        ResourceIdentifier::new(&id, t)
    }

    /// The JSON text of the identifier object.
    pub fn serialize(&self) -> (r: String)
        ensures
            r@ == identifier_text(self.id@, self.object_type@),
    {
        let mut out = String::new();
        out.append("{\"id\":");
        let i = json_string(self.id.as_str());
        out.append(i.as_str());
        out.append(",\"type\":");
        let t = json_string(self.object_type.as_str());
        out.append(t.as_str());
        out.append("}");
        out
    }
}

} // verus!

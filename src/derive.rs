//! What the derived implementations of `ResourceType` and
//! `ResourceIdentifiable` are made of: the resource type of a struct and the
//! field that holds its identifier, read from the struct's name, its
//! `#[name = "value"]` attributes and its fields.
use vstd::prelude::*;

verus! {

/// An attribute `#[name = literal]` of a struct; `text` is the literal when
/// it is a string.
pub struct NameValue {
    pub name: String,
    pub text: Option<String>,
}

/// A named field of a struct, with its type as written.
pub struct Field {
    pub name: String,
    pub ty: String,
}

/// The shape of the item a derive is applied to.
pub enum ItemShape {
    /// A struct with named fields, in order.
    NamedStruct(Vec<Field>),
    /// A tuple struct or a unit struct.
    OtherStruct,
    /// An enum or a union.
    NotStruct,
}

/// The item a derive is applied to: its name, its name-value attributes in
/// order, and its shape.
pub struct DeriveInput {
    pub ident: String,
    pub attrs: Vec<NameValue>,
    pub data: ItemShape,
}

/// Why a derive cannot be made.
pub struct ErrorMessage(pub String);

/// The first attribute of `attrs` named `key`.
pub open spec fn first_named(attrs: Seq<NameValue>, key: Seq<char>) -> Option<NameValue>
    decreases attrs.len(),
{
    if attrs.len() == 0 {
        None
    } else if attrs[0].name@ == key {
        Some(attrs[0])
    } else {
        first_named(attrs.subrange(1, attrs.len() as int), key)
    }
}

/// The string that the first attribute named `key` gives, or `default` when
/// there is no such attribute or its literal is not a string.
pub open spec fn attribute_or(attrs: Seq<NameValue>, key: Seq<char>, default: Seq<char>) -> Seq<
    char,
> {
    match first_named(attrs, key) {
        Some(a) => match a.text {
            Some(t) => t@,
            None => default,
        },
        None => default,
    }
}

/// The first field of `fields` named `name`.
pub open spec fn first_field(fields: Seq<Field>, name: Seq<char>) -> Option<Field>
    decreases fields.len(),
{
    if fields.len() == 0 {
        None
    } else if fields[0].name@ == name {
        Some(fields[0])
    } else {
        first_field(fields.subrange(1, fields.len() as int), name)
    }
}

/// The resource type that the derive gives a struct: the value of its
/// `resource_ident_type` attribute, else the struct's name.
pub open spec fn derived_type(input: DeriveInput) -> Seq<char> {
    attribute_or(input.attrs@, "resource_ident_type"@, input.ident@)
}

/// The name of the identifier field: the value of the `resource_ident_id`
/// attribute, else `id`.
pub open spec fn derived_id_name(input: DeriveInput) -> Seq<char> {
    attribute_or(input.attrs@, "resource_ident_id"@, "id"@)
}

/// The identifier field that the derive uses, or why there is none.
pub open spec fn derived_id_field(input: DeriveInput) -> Result<Field, Seq<char>> {
    match input.data {
        ItemShape::NamedStruct(fields) => match first_field(fields@, derived_id_name(input)) {
            Some(f) => Ok(f),
            None => Err(
                input.ident@ + " does not have an id field named "@ + derived_id_name(input),
            ),
        },
        ItemShape::OtherStruct => Err("ResourceIdentifiable must be derived from a named struct"@),
        ItemShape::NotStruct => Err("ResourceIdentifiable must be derived from a struct"@),
    }
}

fn find_attribute(attrs: &Vec<NameValue>, key: &String) -> (r: Option<usize>)
    ensures
        match first_named(attrs@, key@) {
            Some(a) => r matches Some(i) && i < attrs.len() && attrs@[i as int] == a,
            None => r is None,
        },
{
    let mut i: usize = 0;
    assert(attrs@.subrange(0, attrs.len() as int) =~= attrs@);
    while i < attrs.len()
        invariant
            i <= attrs.len(),
            first_named(attrs@, key@) == first_named(attrs@.subrange(i as int, attrs.len() as int), key@),
        decreases attrs.len() - i,
    {
        let ghost rest = attrs@.subrange(i as int, attrs.len() as int);
        assert(rest[0] == attrs@[i as int]);
        assert(rest.subrange(1, rest.len() as int) =~= attrs@.subrange(i + 1, attrs.len() as int));
        if attrs[i].name == *key {
            return Some(i);
        }
        i = i + 1;
    }
    None
}

fn find_field(fields: &Vec<Field>, name: &String) -> (r: Option<usize>)
    ensures
        match first_field(fields@, name@) {
            Some(f) => r matches Some(i) && i < fields.len() && fields@[i as int] == f,
            None => r is None,
        },
{
    let mut i: usize = 0;
    assert(fields@.subrange(0, fields.len() as int) =~= fields@);
    while i < fields.len()
        invariant
            i <= fields.len(),
            first_field(fields@, name@) == first_field(fields@.subrange(i as int, fields.len() as int), name@),
        decreases fields.len() - i,
    {
        let ghost rest = fields@.subrange(i as int, fields.len() as int);
        assert(rest[0] == fields@[i as int]);
        assert(rest.subrange(1, rest.len() as int) =~= fields@.subrange(i + 1, fields.len() as int));
        if fields[i].name == *name {
            return Some(i);
        }
        i = i + 1;
    }
    None
}

fn attribute_text(attrs: &Vec<NameValue>, key: &str, default: &String) -> (r: String)
    ensures
        r@ == attribute_or(attrs@, key@, default@),
{
    let k = key.to_string();
    match find_attribute(attrs, &k) {
        Some(i) => match &attrs[i].text {
            Some(t) => t.clone(),
            None => default.clone(),
        },
        None => default.clone(),
    }
}

/// The resource type that `#[derive(ResourceType)]` gives the item `input`.
pub fn resource_type_derive(input: &DeriveInput) -> (r: String)
    ensures
        r@ == derived_type(*input),
{
    attribute_text(&input.attrs, "resource_ident_type", &input.ident)
}

/// The identifier field that `#[derive(ResourceIdentifiable)]` uses for the
/// item `input`: the named field whose name the `resource_ident_id`
/// attribute gives, `id` by default.
pub fn resource_identifiable_derive(input: &DeriveInput) -> (r: Result<&Field, ErrorMessage>)
    ensures
        match derived_id_field(*input) {
            Ok(f) => r matches Ok(g) && *g == f,
            Err(m) => r matches Err(e) && e.0@ == m,
        },
{
    let id = "id".to_string();
    let id_name = attribute_text(&input.attrs, "resource_ident_id", &id);
    match &input.data {
        ItemShape::NamedStruct(fields) => match find_field(fields, &id_name) {
            Some(i) => Ok(&fields[i]),
            None => {
                let mut message = input.ident.clone();
                message.append(" does not have an id field named ");
                message.append(id_name.as_str());
                Err(ErrorMessage(message))
            },
        },
        ItemShape::OtherStruct => Err(
            ErrorMessage("ResourceIdentifiable must be derived from a named struct".to_string()),
        ),
        ItemShape::NotStruct => Err(
            ErrorMessage("ResourceIdentifiable must be derived from a struct".to_string()),
        ),
    }
}

} // verus!

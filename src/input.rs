//! Input documents: the document of a request that creates a resource, and
//! of one that updates a resource, checked member by member.
use vstd::prelude::*;
use crate::text::texts_view;

verus! {

/// A JSON value as an input document holds it. An object keeps its members in
/// document order, a key given twice included; a string is kept as its
/// characters; any other value as its JSON text.
pub enum JsonInput {
    Object(Vec<JsonMember>),
    Text(String),
    Other(String),
}

/// A member of a JSON object: its key and its value.
pub struct JsonMember {
    pub key: String,
    pub value: JsonInput,
}

/// Why an input document was refused. `Syntax` is text that is not JSON at
/// all; every other kind is a document of the wrong shape.
pub enum DecodeError {
    Syntax,
    /// A value of the wrong kind: not an object, or not a string.
    InvalidType,
    UnknownField,
    DuplicateField,
    MissingField,
    /// The document's `type` is not the type of the resource.
    TypeMismatch,
}

impl DecodeError {
    /// Whether the text was not JSON.
    pub fn is_syntax(&self) -> (r: bool)
        ensures
            r == (*self is Syntax),
    {
        match self {
            DecodeError::Syntax => true,
            _ => false,
        }
    }

    /// Whether the text was JSON, but not a document of the right shape.
    pub fn is_data(&self) -> (r: bool)
        ensures
            r == !(*self is Syntax),
    {
        !self.is_syntax()
    }

    /// The status code of the answer to a refused document: 400 Bad Request
    /// for text that is not JSON, 409 Conflict for a document of the wrong
    /// shape or type.
    pub fn status(&self) -> (r: u16)
        ensures
            r == decode_status(*self),
    {
        if self.is_syntax() {
            400
        } else {
            409
        }
    }
}

/// The status code of the answer to a refused input document.
pub open spec fn decode_status(e: DecodeError) -> u16 {
    if e is Syntax {
        400
    } else {
        409
    }
}

/// Whether every key of `ms` is one of `allowed`.
pub open spec fn all_keys_allowed(ms: Seq<JsonMember>, allowed: Seq<Seq<char>>) -> bool {
    forall|i: int| 0 <= i < ms.len() ==> allowed.contains(#[trigger] ms[i].key@)
}

/// Whether no key of `ms` is given twice.
pub open spec fn keys_unique(ms: Seq<JsonMember>) -> bool {
    forall|i: int, j: int| 0 <= i < j < ms.len() ==> #[trigger] ms[i].key@ != #[trigger] ms[j].key@
}

/// What is wrong with the members `ms` of an object whose keys must be among
/// `allowed`: a key that is not allowed, else a key given twice, else nothing.
pub open spec fn members_error(ms: Seq<JsonMember>, allowed: Seq<Seq<char>>) -> Option<
    DecodeError,
> {
    if !all_keys_allowed(ms, allowed) {
        Some(DecodeError::UnknownField)
    } else if !keys_unique(ms) {
        Some(DecodeError::DuplicateField)
    } else {
        None
    }
}

/// The value of the member `k` of `ms`: the last one, when there are several.
pub open spec fn member_value(ms: Seq<JsonMember>, k: Seq<char>) -> Option<JsonInput>
    decreases ms.len(),
{
    if ms.len() == 0 {
        None
    } else if ms.last().key@ == k {
        Some(ms.last().value)
    } else {
        member_value(ms.drop_last(), k)
    }
}

fn contains_text(allowed: &Vec<String>, k: &String) -> (r: bool)
    ensures
        r == texts_view(allowed@).contains(k@),
{
    let mut j: usize = 0;
    while j < allowed.len()
        invariant
            j <= allowed.len(),
            forall|jj: int| 0 <= jj < j ==> allowed@[jj]@ != k@,
        decreases allowed.len() - j,
    {
        if allowed[j] == *k {
            assert(texts_view(allowed@)[j as int] == k@);
            return true;
        }
        j = j + 1;
    }
    proof {
        if texts_view(allowed@).contains(k@) {
            let w = choose|w: int| 0 <= w < texts_view(allowed@).len() && texts_view(allowed@)[w] == k@;
            assert(allowed@[w]@ == k@);
        }
    }
    false
}

/// Checks the keys of the members `ms` against `allowed`.
pub fn check_members(ms: &Vec<JsonMember>, allowed: &Vec<String>) -> (r: Option<DecodeError>)
    ensures
        r == members_error(ms@, texts_view(allowed@)),
{
    let mut i: usize = 0;
    while i < ms.len()
        invariant
            i <= ms.len(),
            forall|ii: int| 0 <= ii < i ==> texts_view(allowed@).contains(#[trigger] ms@[ii].key@),
        decreases ms.len() - i,
    {
        if !contains_text(allowed, &ms[i].key) {
            return Some(DecodeError::UnknownField);
        }
        i = i + 1;
    }
    let mut i: usize = 0;
    while i < ms.len()
        invariant
            i <= ms.len(),
            all_keys_allowed(ms@, texts_view(allowed@)),
            forall|a: int, b: int| 0 <= a < i && a < b < ms.len() ==> #[trigger] ms@[a].key@ != #[trigger] ms@[b].key@,
        decreases ms.len() - i,
    {
        let mut j: usize = i + 1;
        while j < ms.len()
            invariant
                i < ms.len(),
                i + 1 <= j <= ms.len(),
                all_keys_allowed(ms@, texts_view(allowed@)),
                forall|b: int| i < b < j ==> ms@[i as int].key@ != #[trigger] ms@[b].key@,
            decreases ms.len() - j,
        {
            if ms[i].key == ms[j].key {
                proof {
                    assert(ms@[i as int].key@ == ms@[j as int].key@);
                    assert(!keys_unique(ms@));
                }
                return Some(DecodeError::DuplicateField);
            }
            j = j + 1;
        }
        i = i + 1;
    }
    None
}

/// Takes the values of the members with the keys `keys` out of `ms`: at
/// each position the value of that key, as `member_value` picks it.
pub fn take_values(ms: Vec<JsonMember>, keys: &Vec<String>) -> (r: Vec<Option<JsonInput>>)
    requires
        forall|a: int, b: int| 0 <= a < b < keys.len() ==> #[trigger] keys@[a]@ != #[trigger] keys@[b]@,
    ensures
        r.len() == keys.len(),
        forall|j: int| 0 <= j < keys.len() ==> #[trigger] r@[j] == member_value(ms@, keys@[j]@),
{
    let ghost orig = ms@;
    let mut rest = ms;
    let mut slots: Vec<Option<JsonInput>> = Vec::new();
    let mut j: usize = 0;
    while j < keys.len()
        invariant
            j <= keys.len(),
            slots.len() == j,
            forall|jj: int| 0 <= jj < j ==> #[trigger] slots@[jj] is None,
        decreases keys.len() - j,
    {
        slots.push(None);
        j = j + 1;
    }
    while rest.len() > 0
        invariant
            slots.len() == keys.len(),
            forall|a: int, b: int| 0 <= a < b < keys.len() ==> #[trigger] keys@[a]@ != #[trigger] keys@[b]@,
            forall|jj: int|
                0 <= jj < keys.len() ==> (if #[trigger] slots@[jj] is Some {
                    slots@[jj] == member_value(orig, keys@[jj]@)
                } else {
                    member_value(rest@, keys@[jj]@) == member_value(orig, keys@[jj]@)
                }),
        decreases rest.len(),
    {
        let ghost before = rest@;
        let m = rest.pop().unwrap();
        assert(before.drop_last() =~= rest@);
        let JsonMember { key, value } = m;
        let mut j: usize = 0;
        while j < keys.len() && keys[j] != key
            invariant
                j <= keys.len(),
                forall|jj: int| 0 <= jj < j ==> keys@[jj]@ != key@,
            decreases keys.len() - j,
        {
            j = j + 1;
        }
        let ghost old_slots = slots@;
        if j < keys.len() && slots[j].is_none() {
            slots.set(j, Some(value));
        }
        proof {
            assert forall|jj: int| 0 <= jj < keys.len() implies (if #[trigger] slots@[jj] is Some {
                slots@[jj] == member_value(orig, keys@[jj]@)
            } else {
                member_value(rest@, keys@[jj]@) == member_value(orig, keys@[jj]@)
            }) by {
                if jj == j {
                } else if old_slots[jj] is None {
                    assert(keys@[jj]@ != key@);
                }
            }
        }
    }
    slots
}

/// The members of `value`, which must be an object whose keys are among
/// `allowed` and given once each.
pub open spec fn object_outcome(value: JsonInput, allowed: Seq<Seq<char>>) -> Result<
    Seq<JsonMember>,
    DecodeError,
> {
    match value {
        JsonInput::Object(ms) => match members_error(ms@, allowed) {
            Some(e) => Err(e),
            None => Ok(ms@),
        },
        _ => Err(DecodeError::InvalidType),
    }
}

/// The values of the members `keys` of the object `value`, which may have no
/// other members and none twice.
fn object_values(value: JsonInput, keys: &Vec<String>) -> (r: Result<Vec<Option<JsonInput>>, DecodeError>)
    requires
        forall|a: int, b: int| 0 <= a < b < keys.len() ==> #[trigger] keys@[a]@ != #[trigger] keys@[b]@,
    ensures
        match object_outcome(value, texts_view(keys@)) {
            Ok(ms) => r matches Ok(vals) && vals.len() == keys.len() && forall|j: int|
                0 <= j < keys.len() ==> #[trigger] vals@[j] == member_value(ms, keys@[j]@),
            Err(e) => r == Err::<Vec<Option<JsonInput>>, DecodeError>(e),
        },
{
    match value {
        JsonInput::Object(ms) => {
            match check_members(&ms, keys) {
                Some(e) => Err(e),
                None => Ok(take_values(ms, keys)),
            }
        },
        _ => Err(DecodeError::InvalidType),
    }
}

fn key_list(a: &str, b: &str, c: &str, n: usize) -> (r: Vec<String>)
    requires
        2 <= n <= 3,
    ensures
        r@.len() == n,
        r@[0]@ == a@,
        r@[1]@ == b@,
        n == 3 ==> r@[2]@ == c@,
        texts_view(r@) == (if n == 2 {
            seq![a@, b@]
        } else {
            seq![a@, b@, c@]
        }),
{
    let mut r: Vec<String> = Vec::new();
    r.push(a.to_string());
    r.push(b.to_string());
    if n == 3 {
        r.push(c.to_string());
    }
    assert(texts_view(r@) =~= (if n == 2 {
        seq![a@, b@]
    } else {
        seq![a@, b@, c@]
    }));
    r
}

/// The attribute names of a resource type: all that a create document may
/// give, and those it must give.
pub struct AttributeSchema {
    pub names: Vec<String>,
    pub required: Vec<String>,
}

/// Whether a member of `ms` has the key `k`.
pub open spec fn has_key(ms: Seq<JsonMember>, k: Seq<char>) -> bool {
    exists|i: int| 0 <= i < ms.len() && #[trigger] ms[i].key@ == k
}

/// Whether every key of `required` is the key of a member of `ms`.
pub open spec fn all_present(ms: Seq<JsonMember>, required: Seq<Seq<char>>) -> bool {
    forall|j: int| 0 <= j < required.len() ==> has_key(ms, #[trigger] required[j])
}

/// What is wrong with the attributes `am` of a create document: a key that
/// is not an attribute name or is given twice, else a required attribute
/// that is missing, else nothing.
pub open spec fn attributes_error(am: Seq<JsonMember>, schema: AttributeSchema) -> Option<
    DecodeError,
> {
    match members_error(am, texts_view(schema.names@)) {
        Some(e) => Some(e),
        None => if all_present(am, texts_view(schema.required@)) {
            None
        } else {
            Some(DecodeError::MissingField)
        },
    }
}

fn find_key(ms: &Vec<JsonMember>, k: &String) -> (r: bool)
    ensures
        r == has_key(ms@, k@),
{
    let mut i: usize = 0;
    while i < ms.len()
        invariant
            i <= ms.len(),
            forall|ii: int| 0 <= ii < i ==> ms@[ii].key@ != k@,
        decreases ms.len() - i,
    {
        if ms[i].key == *k {
            return true;
        }
        i = i + 1;
    }
    false
}

/// Checks the attributes `am` of a create document against `schema`.
pub fn check_attributes(am: &Vec<JsonMember>, schema: &AttributeSchema) -> (r: Option<DecodeError>)
    ensures
        r == attributes_error(am@, *schema),
{
    match check_members(am, &schema.names) {
        Some(e) => return Some(e),
        None => {},
    }
    let required = &schema.required;
    let mut j: usize = 0;
    while j < required.len()
        invariant
            j <= required.len(),
            required == &schema.required,
            members_error(am@, texts_view(schema.names@)) is None,
            forall|jj: int| 0 <= jj < j ==> has_key(am@, #[trigger] texts_view(required@)[jj]),
        decreases required.len() - j,
    {
        if !find_key(am, &required[j]) {
            proof {
                assert(texts_view(required@)[j as int] == required@[j as int]@);
                assert(!all_present(am@, texts_view(required@)));
            }
            return Some(DecodeError::MissingField);
        }
        j = j + 1;
    }
    None
}

/// The attributes of a resource object in a create document, given the
/// values of its `type` and `attributes` members: `type` must be the string
/// `expected_type` and `attributes` an object that `schema` admits.
pub open spec fn resource_outcome(
    t: Option<JsonInput>,
    a: Option<JsonInput>,
    expected_type: Seq<char>,
    schema: AttributeSchema,
) -> Result<Vec<JsonMember>, DecodeError> {
    match t {
        None => Err(DecodeError::MissingField),
        Some(tv) => match a {
            None => Err(DecodeError::MissingField),
            Some(av) => match tv {
                JsonInput::Text(ts) => match av {
                    JsonInput::Object(am) => match attributes_error(am@, schema) {
                        Some(e) => Err(e),
                        None => if ts@ == expected_type {
                            Ok(am)
                        } else {
                            Err(DecodeError::TypeMismatch)
                        },
                    },
                    _ => Err(DecodeError::InvalidType),
                },
                _ => Err(DecodeError::InvalidType),
            },
        },
    }
}

/// The attributes that the resource object `value` of a create document
/// holds: `value` is an object with the members `type` and `attributes` and
/// no other.
pub open spec fn create_resource_outcome(
    value: JsonInput,
    expected_type: Seq<char>,
    schema: AttributeSchema,
) -> Result<Vec<JsonMember>, DecodeError> {
    match object_outcome(value, seq!["type"@, "attributes"@]) {
        Err(e) => Err(e),
        Ok(ms) => resource_outcome(
            member_value(ms, "type"@),
            member_value(ms, "attributes"@),
            expected_type,
            schema,
        ),
    }
}

/// The primary data of an input document: the document is an object whose
/// only member is `data`.
pub open spec fn data_outcome(doc: JsonInput) -> Result<JsonInput, DecodeError> {
    match object_outcome(doc, seq!["data"@]) {
        Err(e) => Err(e),
        Ok(ms) => match member_value(ms, "data"@) {
            Some(v) => Ok(v),
            None => Err(DecodeError::MissingField),
        },
    }
}

/// The attributes that a create document holds for a resource of type
/// `expected_type` whose attributes `schema` describes.
pub open spec fn create_document_outcome(
    doc: JsonInput,
    expected_type: Seq<char>,
    schema: AttributeSchema,
) -> Result<Vec<JsonMember>, DecodeError> {
    match data_outcome(doc) {
        Err(e) => Err(e),
        Ok(v) => create_resource_outcome(v, expected_type, schema),
    }
}

/// The resource object of a create document: the attributes of the new
/// resource, checked against its type and attribute names.
pub struct InputDataWrapper(pub Vec<JsonMember>);

impl InputDataWrapper {
    /// Reads the resource object `value` of a create document for a resource
    /// of type `expected_type` whose attributes `schema` describes.
    pub fn decode(value: JsonInput, expected_type: &String, schema: &AttributeSchema) -> (r: Result<
        InputDataWrapper,
        DecodeError,
    >)
        ensures
            match create_resource_outcome(value, expected_type@, *schema) {
                Ok(am) => r matches Ok(w) && w.0 == am,
                Err(e) => r matches Err(f) && f == e,
            },
    {
        proof {
            reveal_strlit("type");
            reveal_strlit("attributes");
        }
        let keys = key_list("type", "attributes", "", 2);
        assert("type"@.len() != "attributes"@.len());
        assert(keys@[0]@ != keys@[1]@);
        let mut vals = match object_values(value, &keys) {
            Ok(vals) => vals,
            Err(e) => {
                return Err(e);
            },
        };
        let a = vals.pop().unwrap();
        let t = vals.pop().unwrap();
        match t {
            None => Err(DecodeError::MissingField),
            Some(tv) => match a {
                None => Err(DecodeError::MissingField),
                Some(av) => match tv {
                    JsonInput::Text(ts) => match av {
                        JsonInput::Object(am) => match check_attributes(&am, schema) {
                            Some(e) => Err(e),
                            None => {
                                if ts == *expected_type {
                                    Ok(InputDataWrapper(am))
                                } else {
                                    Err(DecodeError::TypeMismatch)
                                }
                            },
                        },
                        _ => Err(DecodeError::InvalidType),
                    },
                    _ => Err(DecodeError::InvalidType),
                },
            },
        }
    }
}

/// Reads the primary data of an input document.
pub fn decode_data(doc: JsonInput) -> (r: Result<JsonInput, DecodeError>)
    ensures
        match data_outcome(doc) {
            Ok(v) => r matches Ok(w) && w == v,
            Err(e) => r matches Err(f) && f == e,
        },
{
    proof {
        reveal_strlit("data");
    }
    let mut keys: Vec<String> = Vec::new();
    keys.push("data".to_string());
    assert(texts_view(keys@) =~= seq!["data"@]);
    let mut vals = match object_values(doc, &keys) {
        Ok(vals) => vals,
        Err(e) => {
            return Err(e);
        },
    };
    match vals.pop().unwrap() {
        Some(v) => Ok(v),
        None => Err(DecodeError::MissingField),
    }
}

/// The document of a request that creates a resource.
pub struct JsonApiCreateResource {
    pub data: InputDataWrapper,
}

impl JsonApiCreateResource {
    /// Reads a create document for a resource of type `expected_type` whose
    /// attributes `schema` describes.
    pub fn decode(doc: JsonInput, expected_type: &String, schema: &AttributeSchema) -> (r: Result<
        JsonApiCreateResource,
        DecodeError,
    >)
        ensures
            match create_document_outcome(doc, expected_type@, *schema) {
                Ok(am) => r matches Ok(c) && c.data.0 == am,
                Err(e) => r matches Err(f) && f == e,
            },
    {
        let value = match decode_data(doc) {
            Ok(v) => v,
            Err(e) => {
                return Err(e);
            },
        };
        match InputDataWrapper::decode(value, expected_type, schema) {
            Ok(w) => Ok(JsonApiCreateResource { data: w }),
            Err(e) => Err(e),
        }
    }
}

/// The resource object of an update document: identifier, type, and the
/// attributes to change, which stay untyped since an update may give any
/// part of them.
pub struct UpdateWrapper {
    pub id: String,
    pub resource_type: String,
    pub attributes: Vec<JsonMember>,
}

/// The identifier, type and attributes of a resource object in an update
/// document, given the values of its members `id`, `type` and `attributes`.
pub open spec fn update_fields_outcome(
    i: Option<JsonInput>,
    t: Option<JsonInput>,
    a: Option<JsonInput>,
) -> Result<UpdateWrapper, DecodeError> {
    if i is None || t is None || a is None {
        Err(DecodeError::MissingField)
    } else {
        match i->Some_0 {
            JsonInput::Text(is) => match t->Some_0 {
                JsonInput::Text(ts) => match a->Some_0 {
                    JsonInput::Object(am) => Ok(
                        UpdateWrapper { id: is, resource_type: ts, attributes: am },
                    ),
                    _ => Err(DecodeError::InvalidType),
                },
                _ => Err(DecodeError::InvalidType),
            },
            _ => Err(DecodeError::InvalidType),
        }
    }
}

/// The resource object `value` of an update document: an object with the
/// members `id`, `type` and `attributes` and no other.
pub open spec fn update_resource_outcome(value: JsonInput) -> Result<UpdateWrapper, DecodeError> {
    match object_outcome(value, seq!["id"@, "type"@, "attributes"@]) {
        Err(e) => Err(e),
        Ok(ms) => update_fields_outcome(
            member_value(ms, "id"@),
            member_value(ms, "type"@),
            member_value(ms, "attributes"@),
        ),
    }
}

/// The resource object of an update document.
pub open spec fn update_document_outcome(doc: JsonInput) -> Result<UpdateWrapper, DecodeError> {
    match data_outcome(doc) {
        Err(e) => Err(e),
        Ok(v) => update_resource_outcome(v),
    }
}

impl UpdateWrapper {
    /// Reads the resource object `value` of an update document.
    pub fn decode(value: JsonInput) -> (r: Result<UpdateWrapper, DecodeError>)
        ensures
            match update_resource_outcome(value) {
                Ok(u) => r matches Ok(w) && w == u,
                Err(e) => r matches Err(f) && f == e,
            },
    {
        proof {
            reveal_strlit("id");
            reveal_strlit("type");
            reveal_strlit("attributes");
        }
        let keys = key_list("id", "type", "attributes", 3);
        assert("id"@.len() != "type"@.len() && "id"@.len() != "attributes"@.len() && "type"@.len()
            != "attributes"@.len());
        assert(keys@[0]@ != keys@[1]@ && keys@[0]@ != keys@[2]@ && keys@[1]@ != keys@[2]@);
        let mut vals = match object_values(value, &keys) {
            Ok(vals) => vals,
            Err(e) => {
                return Err(e);
            },
        };
        let a = vals.pop().unwrap();
        let t = vals.pop().unwrap();
        let i = vals.pop().unwrap();
        if i.is_none() || t.is_none() || a.is_none() {
            return Err(DecodeError::MissingField);
        }
        match i.unwrap() {
            JsonInput::Text(is) => match t.unwrap() {
                JsonInput::Text(ts) => match a.unwrap() {
                    JsonInput::Object(am) => Ok(
                        UpdateWrapper { id: is, resource_type: ts, attributes: am },
                    ),
                    _ => Err(DecodeError::InvalidType),
                },
                _ => Err(DecodeError::InvalidType),
            },
            _ => Err(DecodeError::InvalidType),
        }
    }

    /// The value given for the attribute `key`: the last one, when the key
    /// appears more than once.
    pub fn get(&self, key: &String) -> (r: Option<&JsonInput>)
        ensures
            r is Some <==> member_value(self.attributes@, key@) is Some,
            r is Some ==> member_value(self.attributes@, key@) == Some(*r->Some_0),
    {
        let ms = &self.attributes;
        let mut n: usize = ms.len();
        assert(ms@.take(n as int) =~= ms@);
        while n > 0 && ms[n - 1].key != *key
            invariant
                n <= ms.len(),
                member_value(ms@, key@) == member_value(ms@.take(n as int), key@),
            decreases n,
        {
            assert(ms@.take(n as int).drop_last() =~= ms@.take(n - 1));
            assert(ms@.take(n as int).last() == ms@[n - 1]);
            n = n - 1;
        }
        if n == 0 {
            None
        } else {
            assert(ms@.take(n as int).last() == ms@[n - 1]);
            Some(&ms[n - 1].value)
        }
    }
}

/// The document of a request that updates a resource.
pub struct JsonApiUpdateResource {
    pub data: UpdateWrapper,
}

impl JsonApiUpdateResource {
    /// Reads an update document.
    pub fn decode(doc: JsonInput) -> (r: Result<JsonApiUpdateResource, DecodeError>)
        ensures
            match update_document_outcome(doc) {
                Ok(u) => r matches Ok(d) && d.data == u,
                Err(e) => r matches Err(f) && f == e,
            },
    {
        let value = match decode_data(doc) {
            Ok(v) => v,
            Err(e) => {
                return Err(e);
            },
        };
        match UpdateWrapper::decode(value) {
            Ok(w) => Ok(JsonApiUpdateResource { data: w }),
            Err(e) => Err(e),
        }
    }
}

} // verus!

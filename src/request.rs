//! Requests: the negotiation of media types on the `Accept` and
//! `Content-Type` headers, and the documents of create and update requests.
use vstd::prelude::*;
use crate::input::create_document_outcome;
use crate::input::AttributeSchema;
use crate::input::decode_status;
use crate::input::update_document_outcome;
use crate::input::DecodeError;
use crate::input::JsonApiCreateResource;
use crate::input::JsonApiUpdateResource;
use crate::input::JsonInput;
use crate::input::JsonMember;

verus! {

/// A media type as a request header gives it: type, subtype and parameters.
pub struct MediaRange {
    pub top: String,
    pub sub: String,
    pub params: Vec<(String, String)>,
}

/// The code of `c`, with an upper-case ASCII letter taken as its lower-case
/// letter.
pub open spec fn ascii_fold(c: char) -> u32 {
    if 65 <= c as u32 && c as u32 <= 90 {
        (c as u32 + 32) as u32
    } else {
        c as u32
    }
}

/// Whether `a` and `b` are the same text up to the case of ASCII letters.
pub open spec fn same_ignoring_ascii_case(a: Seq<char>, b: Seq<char>) -> bool {
    a.len() == b.len() && forall|i: int| 0 <= i < a.len() ==> #[trigger] ascii_fold(a[i]) == ascii_fold(b[i])
}

/// Whether `m` is the JSON:API media type, whatever its parameters.
pub open spec fn is_json_api(m: MediaRange) -> bool {
    same_ignoring_ascii_case(m.top@, "application"@) && same_ignoring_ascii_case(
        m.sub@,
        "vnd.api+json"@,
    )
}

/// Whether `m` is the JSON:API media type with no parameters.
pub open spec fn is_plain_json_api(m: MediaRange) -> bool {
    is_json_api(m) && m.params@.len() == 0
}

fn fold_char(c: char) -> (r: u32)
    ensures
        r == ascii_fold(c),
{
    let v = c as u32;
    if 65 <= v && v <= 90 {
        v + 32
    } else {
        v
    }
}

/// Compares two texts with no regard to the case of ASCII letters.
pub fn eq_ignore_ascii_case(a: &str, b: &str) -> (r: bool)
    ensures
        r == same_ignoring_ascii_case(a@, b@),
{
    let n = a.unicode_len();
    if n != b.unicode_len() {
        return false;
    }
    let mut i: usize = 0;
    while i < n
        invariant
            n == a@.len(),
            n == b@.len(),
            i <= n,
            forall|ii: int| 0 <= ii < i ==> #[trigger] ascii_fold(a@[ii]) == ascii_fold(b@[ii]),
        decreases n - i,
    {
        if fold_char(a.get_char(i)) != fold_char(b.get_char(i)) {
            return false;
        }
        i = i + 1;
    }
    true
}

impl MediaRange {
    /// Whether this is the JSON:API media type, whatever its parameters.
    pub fn is_json_api(&self) -> (r: bool)
        ensures
            r == is_json_api(*self),
    {
        eq_ignore_ascii_case(self.top.as_str(), "application") && eq_ignore_ascii_case(
            self.sub.as_str(),
            "vnd.api+json",
        )
    }

    /// Whether this is the JSON:API media type with no parameters.
    pub fn is_plain_json_api(&self) -> (r: bool)
        ensures
            r == is_plain_json_api(*self),
    {
        self.is_json_api() && self.params.len() == 0
    }
}

/// Whether a request's content type is the JSON:API media type with no
/// parameters.
pub open spec fn content_type_acceptable(content_type: Option<&MediaRange>) -> bool {
    match content_type {
        Some(m) => is_plain_json_api(*m),
        None => false,
    }
}

/// Whether a request's `Accept` header lists the JSON:API media type with no
/// parameters at least once.
pub open spec fn accept_acceptable(accept: Seq<MediaRange>) -> bool {
    exists|i: int| 0 <= i < accept.len() && is_plain_json_api(#[trigger] accept[i])
}

/// Checks the `Content-Type` of a request that carries a document: without
/// one, or with a JSON:API media type that has parameters, the answer is 415
/// Unsupported Media Type.
pub fn acceptable_json_api_content_type(content_type: Option<&MediaRange>) -> (r: Result<(), u16>)
    ensures
        r == (if content_type_acceptable(content_type) {
            Ok::<(), u16>(())
        } else {
            Err(415u16)
        }),
{
    match content_type {
        Some(m) => {
            if m.is_plain_json_api() {
                Ok(())
            } else {
                Err(415)
            }
        },
        None => Err(415),
    }
}

/// Checks the `Accept` header of a request: the media types it lists, in
/// order, none when there is no header. Unless one of them is the JSON:API
/// media type without parameters, the answer is 406 Not Acceptable.
pub fn acceptable_json_api_accept(accept: &Vec<MediaRange>) -> (r: Result<(), u16>)
    ensures
        r == (if accept_acceptable(accept@) {
            Ok::<(), u16>(())
        } else {
            Err(406u16)
        }),
{
    let mut i: usize = 0;
    while i < accept.len()
        invariant
            i <= accept.len(),
            forall|ii: int| 0 <= ii < i ==> !is_plain_json_api(#[trigger] accept@[ii]),
        decreases accept.len() - i,
    {
        if accept[i].is_plain_json_api() {
            return Ok(());
        }
        i = i + 1;
    }
    Err(406)
}

/// The outcome of negotiation for a request that carries a document: the
/// `Accept` header first, then the `Content-Type`.
pub open spec fn data_request_outcome(accept: Seq<MediaRange>, content_type: Option<&MediaRange>) -> Result<(), u16> {
    if !accept_acceptable(accept) {
        Err(406)
    } else if !content_type_acceptable(content_type) {
        Err(415)
    } else {
        Ok(())
    }
}

/// Checks both headers of a request that carries a document.
pub fn acceptable_json_api_data_request(
    accept: &Vec<MediaRange>,
    content_type: Option<&MediaRange>,
) -> (r: Result<(), u16>)
    ensures
        r == data_request_outcome(accept@, content_type),
{
    match acceptable_json_api_accept(accept) {
        Ok(()) => acceptable_json_api_content_type(content_type),
        Err(s) => Err(s),
    }
}

/// A request that accepts JSON:API documents.
pub struct JsonApiRequest;

impl JsonApiRequest {
    /// Admits a request whose `Accept` header lists the JSON:API media type
    /// without parameters; else the answer is 406.
    pub fn from_request(accept: &Vec<MediaRange>) -> (r: Result<JsonApiRequest, u16>)
        ensures
            accept_acceptable(accept@) <==> r is Ok,
            !accept_acceptable(accept@) ==> r == Err::<JsonApiRequest, u16>(406),
    {
        match acceptable_json_api_accept(accept) {
            Ok(()) => Ok(JsonApiRequest),
            Err(s) => Err(s),
        }
    }
}

/// A request that creates a resource: the attributes of the new resource.
pub struct JsonApiCreateRequest(pub Vec<JsonMember>);

impl JsonApiCreateRequest {
    /// Admits a create request: the headers must pass negotiation, the body
    /// must be JSON (`body` is what reading it gave), and the document must be
    /// a create document for a resource of type `expected_type` with
    /// attributes that `schema` describes. A body that is not JSON is answered with
    /// 400, a document of the wrong shape or type with 409 Conflict.
    pub fn from_data(
        accept: &Vec<MediaRange>,
        content_type: Option<&MediaRange>,
        body: Result<JsonInput, DecodeError>,
        expected_type: &String,
        schema: &AttributeSchema,
    ) -> (r: Result<JsonApiCreateRequest, u16>)
        ensures
            match data_request_outcome(accept@, content_type) {
                Err(s) => r == Err::<JsonApiCreateRequest, u16>(s),
                Ok(_) => match body {
                    Err(e) => r == Err::<JsonApiCreateRequest, u16>(decode_status(e)),
                    Ok(doc) => match create_document_outcome(doc, expected_type@, *schema) {
                        Ok(am) => r matches Ok(c) && c.0 == am,
                        Err(e) => r == Err::<JsonApiCreateRequest, u16>(decode_status(e)),
                    },
                },
            },
    {
        match acceptable_json_api_data_request(accept, content_type) {
            Err(s) => Err(s),
            Ok(()) => match body {
                Err(e) => Err(e.status()),
                Ok(doc) => match JsonApiCreateResource::decode(doc, expected_type, schema) {
                    Ok(resource) => Ok(JsonApiCreateRequest(resource.data.0)),
                    Err(e) => Err(e.status()),
                },
            },
        }
    }
}

/// A request that updates a resource: its identifier and the attributes to
/// change.
pub struct JsonApiUpdateRequest {
    pub id: String,
    pub attributes: Vec<JsonMember>,
}

impl JsonApiUpdateRequest {
    /// Admits an update request: the headers must pass negotiation, the body
    /// must be JSON, and the document an update document whose `type` is
    /// `expected_type`. A body that is not JSON is answered with 400; a
    /// document of the wrong shape, or of another type, with 409 Conflict.
    pub fn from_data(
        accept: &Vec<MediaRange>,
        content_type: Option<&MediaRange>,
        body: Result<JsonInput, DecodeError>,
        expected_type: &String,
    ) -> (r: Result<JsonApiUpdateRequest, u16>)
        ensures
            match data_request_outcome(accept@, content_type) {
                Err(s) => r == Err::<JsonApiUpdateRequest, u16>(s),
                Ok(_) => match body {
                    Err(e) => r == Err::<JsonApiUpdateRequest, u16>(decode_status(e)),
                    Ok(doc) => match update_document_outcome(doc) {
                        Ok(u) => if u.resource_type@ == expected_type@ {
                            r matches Ok(q) && q.id == u.id && q.attributes == u.attributes
                        } else {
                            r == Err::<JsonApiUpdateRequest, u16>(409)
                        },
                        Err(e) => r == Err::<JsonApiUpdateRequest, u16>(decode_status(e)),
                    },
                },
            },
    {
        match acceptable_json_api_data_request(accept, content_type) {
            Err(s) => Err(s),
            Ok(()) => match body {
                Err(e) => Err(e.status()),
                Ok(doc) => match JsonApiUpdateResource::decode(doc) {
                    Ok(resource) => {
                        let data = resource.data;
                        if data.resource_type != *expected_type {
                            return Err(409);
                        }
                        Ok(JsonApiUpdateRequest { id: data.id, attributes: data.attributes })
                    },
                    Err(e) => Err(e.status()),
                },
            },
        }
    }
}

} // verus!

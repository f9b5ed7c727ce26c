//! Answers: the status code and the body of the response to a request, for
//! documents, error lists, and the outcomes of creating and updating.
//!
//! A document answer takes its status code from the caller; an error answer
//! (`JsonApiResponseError`) carries its own. Every answer has the JSON:API
//! content type.
use vstd::prelude::*;
use crate::document::primary_document_text;
use crate::document::JsonApiPrimaryDataObject;
use crate::document::JSON_API_MEDIA_TYPE;
use crate::error::errors_document_text;
use crate::error::serialize_errors;
use crate::error::JsonApiError;
use crate::error::JsonApiResponseError;

verus! {

/// A response as the transport sends it: status code, content type, and a
/// body when there is one.
pub struct HttpResponse {
    pub status: u16,
    pub content_type: String,
    pub body: Option<String>,
}

/// A document answer: its status code, and either the document with primary
/// data or the error objects.
pub struct JsonApiResponse(pub u16, pub Result<JsonApiPrimaryDataObject, Vec<JsonApiError>>);

/// The body of a document answer.
pub open spec fn response_text(result: Result<JsonApiPrimaryDataObject, Vec<JsonApiError>>) -> Seq<
    char,
> {
    match result {
        Ok(p) => primary_document_text(p),
        Err(e) => errors_document_text(e@),
    }
}

/// The response with status `status` and body `body`, with the JSON:API
/// content type.
pub fn construct_response(body: Option<String>, status: u16) -> (r: HttpResponse)
    ensures
        r.status == status,
        r.content_type@ == JSON_API_MEDIA_TYPE@,
        r.body == body,
{
    HttpResponse { status, content_type: JSON_API_MEDIA_TYPE.to_string(), body }
}

impl JsonApiResponse {
    /// The body of the answer: the document with primary data, or the
    /// `errors` document.
    pub fn serialize(&self) -> (r: String)
        ensures
            r@ == response_text(self.1),
    {
        match &self.1 {
            Ok(p) => p.serialize(),
            Err(errors) => {
                let list = serialize_errors(errors);
                let mut out = String::new();
                out.append("{\"errors\":");
                out.append(list.as_str());
                out.append("}");
                out
            },
        }
    }

    /// The response: the answer's status code and body.
    pub fn respond_to(&self) -> (r: HttpResponse)
        ensures
            r.status == self.0,
            r.content_type@ == JSON_API_MEDIA_TYPE@,
            r.body matches Some(b) && b@ == response_text(self.1),
    {
        let body = self.serialize();
        construct_response(Some(body), self.0)
    }
}

/// An answer that carries a document on success, or an error answer with its
/// own status code.
pub struct JsonApiDataResponse(pub Result<JsonApiPrimaryDataObject, JsonApiResponseError>);

impl JsonApiDataResponse {
    /// The document answer: status 200 with the document, or the error
    /// answer's status with its `errors` document.
    pub fn into_response(self) -> (r: JsonApiResponse)
        ensures
            match self.0 {
                Ok(p) => r.0 == 200 && r.1 == Ok::<JsonApiPrimaryDataObject, Vec<JsonApiError>>(p),
                Err(e) => r.0 == e.0 && r.1 == Err::<JsonApiPrimaryDataObject, Vec<JsonApiError>>(
                    e.1,
                ),
            },
    {
        match self.0 {
            Ok(p) => JsonApiResponse(200, Ok(p)),
            Err(e) => JsonApiResponse(e.0, Err(e.1)),
        }
    }

    /// The response of the answer.
    pub fn respond_to(self) -> (r: HttpResponse)
        ensures
            r.content_type@ == JSON_API_MEDIA_TYPE@,
            match self.0 {
                Ok(p) => r.status == 200 && body_text(r.body) == Some(primary_document_text(p)),
                Err(e) => r.status == e.0 && body_text(r.body) == Some(errors_document_text(e.1@)),
            },
    {
        let answer = self.into_response();
        answer.respond_to()
    }
}

/// The error objects of an outcome, none when it has none.
pub open spec fn errors_or_none(errors: Option<Vec<JsonApiError>>) -> Seq<JsonApiError> {
    match errors {
        Some(v) => v@,
        None => Seq::empty(),
    }
}

fn errors_response(status: u16, errors: Option<Vec<JsonApiError>>) -> (r: HttpResponse)
    ensures
        r.status == status,
        r.content_type@ == JSON_API_MEDIA_TYPE@,
        r.body matches Some(b) && b@ == errors_document_text(errors_or_none(errors)),
{
    let list = match errors {
        Some(v) => v,
        None => Vec::new(),
    };
    let answer: JsonApiResponse = JsonApiResponse(status, Err(list));
    answer.respond_to()
}

/// The outcome of a request that creates a resource.
pub enum JsonApiCreateResponse {
    /// Created, answered with the resource.
    Created(JsonApiPrimaryDataObject),
    /// Accepted for processing later, answered with the resource.
    Accepted(JsonApiPrimaryDataObject),
    /// Created, answered without a body.
    NoContent,
    /// The request gave an identifier, which the server does not take.
    UnsupportedClientId(Option<Vec<JsonApiError>>),
    Forbidden(Option<Vec<JsonApiError>>),
    /// A resource that the request refers to does not exist.
    NotFound(Option<Vec<JsonApiError>>),
    AlreadyExists(Option<Vec<JsonApiError>>),
    /// Any other status code, with a document or errors.
    Other(u16, Result<JsonApiPrimaryDataObject, Vec<JsonApiError>>),
}

/// The status code of the answer to a create request.
pub open spec fn create_status(c: JsonApiCreateResponse) -> u16 {
    match c {
        JsonApiCreateResponse::Created(_) => 201,
        JsonApiCreateResponse::Accepted(_) => 202,
        JsonApiCreateResponse::NoContent => 204,
        JsonApiCreateResponse::UnsupportedClientId(_) => 403,
        JsonApiCreateResponse::Forbidden(_) => 403,
        JsonApiCreateResponse::NotFound(_) => 404,
        JsonApiCreateResponse::AlreadyExists(_) => 409,
        JsonApiCreateResponse::Other(s, _) => s,
    }
}

/// The body of the answer to a create request.
pub open spec fn create_body(c: JsonApiCreateResponse) -> Option<Seq<char>> {
    match c {
        JsonApiCreateResponse::Created(p) => Some(primary_document_text(p)),
        JsonApiCreateResponse::Accepted(p) => Some(primary_document_text(p)),
        JsonApiCreateResponse::NoContent => None,
        JsonApiCreateResponse::UnsupportedClientId(e) => Some(
            errors_document_text(errors_or_none(e)),
        ),
        JsonApiCreateResponse::Forbidden(e) => Some(errors_document_text(errors_or_none(e))),
        JsonApiCreateResponse::NotFound(e) => Some(errors_document_text(errors_or_none(e))),
        JsonApiCreateResponse::AlreadyExists(e) => Some(errors_document_text(errors_or_none(e))),
        JsonApiCreateResponse::Other(_, result) => Some(response_text(result)),
    }
}

/// The body text of a response, if it has one.
pub open spec fn body_text(body: Option<String>) -> Option<Seq<char>> {
    match body {
        Some(b) => Some(b@),
        None => None,
    }
}

impl JsonApiCreateResponse {
    /// The response to the create request.
    pub fn respond_to(self) -> (r: HttpResponse)
        ensures
            r.status == create_status(self),
            r.content_type@ == JSON_API_MEDIA_TYPE@,
            body_text(r.body) == create_body(self),
    {
        match self {
            JsonApiCreateResponse::Created(p) => JsonApiResponse(201, Ok(p)).respond_to(),
            JsonApiCreateResponse::Accepted(p) => JsonApiResponse(202, Ok(p)).respond_to(),
            JsonApiCreateResponse::NoContent => construct_response(None, 204),
            JsonApiCreateResponse::UnsupportedClientId(e) => errors_response(403, e),
            JsonApiCreateResponse::Forbidden(e) => errors_response(403, e),
            JsonApiCreateResponse::NotFound(e) => errors_response(404, e),
            JsonApiCreateResponse::AlreadyExists(e) => errors_response(409, e),
            JsonApiCreateResponse::Other(status, result) => JsonApiResponse(
                status,
                result,
            ).respond_to(),
        }
    }
}

/// The outcome of a request that updates a resource.
pub enum JsonApiUpdateResponse {
    /// Updated, answered with the resource.
    Updated(JsonApiPrimaryDataObject),
    /// Accepted for processing later, answered with the resource.
    Accepted(JsonApiPrimaryDataObject),
    /// Updated, answered without a body.
    NoContent,
    Forbidden(Option<Vec<JsonApiError>>),
    /// The resource does not exist.
    NotFound(Option<Vec<JsonApiError>>),
    /// The type or identifier does not match, or the update cannot be made.
    InvalidUpdate(Option<Vec<JsonApiError>>),
    /// Any other status code, with a document or errors.
    Other(u16, Result<JsonApiPrimaryDataObject, Vec<JsonApiError>>),
}

/// The status code of the answer to an update request.
pub open spec fn update_status(u: JsonApiUpdateResponse) -> u16 {
    match u {
        JsonApiUpdateResponse::Updated(_) => 200,
        JsonApiUpdateResponse::Accepted(_) => 202,
        JsonApiUpdateResponse::NoContent => 204,
        JsonApiUpdateResponse::Forbidden(_) => 403,
        JsonApiUpdateResponse::NotFound(_) => 404,
        JsonApiUpdateResponse::InvalidUpdate(_) => 409,
        JsonApiUpdateResponse::Other(s, _) => s,
    }
}

/// The body of the answer to an update request.
pub open spec fn update_body(u: JsonApiUpdateResponse) -> Option<Seq<char>> {
    match u {
        JsonApiUpdateResponse::Updated(p) => Some(primary_document_text(p)),
        JsonApiUpdateResponse::Accepted(p) => Some(primary_document_text(p)),
        JsonApiUpdateResponse::NoContent => None,
        JsonApiUpdateResponse::Forbidden(e) => Some(errors_document_text(errors_or_none(e))),
        JsonApiUpdateResponse::NotFound(e) => Some(errors_document_text(errors_or_none(e))),
        JsonApiUpdateResponse::InvalidUpdate(e) => Some(errors_document_text(errors_or_none(e))),
        JsonApiUpdateResponse::Other(_, result) => Some(response_text(result)),
    }
}

impl JsonApiUpdateResponse {
    /// The response to the update request.
    pub fn respond_to(self) -> (r: HttpResponse)
        ensures
            r.status == update_status(self),
            r.content_type@ == JSON_API_MEDIA_TYPE@,
            body_text(r.body) == update_body(self),
    {
        match self {
            JsonApiUpdateResponse::Updated(p) => JsonApiResponse(200, Ok(p)).respond_to(),
            JsonApiUpdateResponse::Accepted(p) => JsonApiResponse(202, Ok(p)).respond_to(),
            JsonApiUpdateResponse::NoContent => construct_response(None, 204),
            JsonApiUpdateResponse::Forbidden(e) => errors_response(403, e),
            JsonApiUpdateResponse::NotFound(e) => errors_response(404, e),
            JsonApiUpdateResponse::InvalidUpdate(e) => errors_response(409, e),
            JsonApiUpdateResponse::Other(status, result) => JsonApiResponse(
                status,
                result,
            ).respond_to(),
        }
    }
}

/// Writing an answer is a function of its contents alone: answers with the
/// same contents have the same body, byte for byte, however often they are
/// written.
pub proof fn lemma_serialization_deterministic(a: JsonApiResponse, b: JsonApiResponse)
    requires
        a.1 == b.1,
    ensures
        response_text(a.1) == response_text(b.1),
{
}

} // verus!

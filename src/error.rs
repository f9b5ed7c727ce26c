//! Error documents: error objects and the list of them that a failed
//! request answers with.
use vstd::prelude::*;
use crate::text::json_string;
use crate::text::json_string_of;
use crate::text::joined;
use crate::text::join_texts;
use crate::text::texts_view;
use vstd::string::to_string_from_display_ensures;
use vstd::std_specs::convert::IntoSpec;

verus! {

/// An error object. Each field may be absent, and an absent field is left out
/// of the document altogether.
#[derive(Debug, PartialEq, Eq)]
pub struct JsonApiError {
    pub id: Option<String>,
    pub status: Option<String>,
    pub code: Option<String>,
    pub title: Option<String>,
    pub detail: Option<String>,
}

/// The member `key` with the string value `v`, or nothing when `v` is absent.
pub open spec fn optional_member(key: Seq<char>, v: Option<String>) -> Seq<Seq<char>> {
    match v {
        Some(s) => seq![key + json_string_of(s@)],
        None => Seq::empty(),
    }
}

/// The members of an error object: the present fields, in the order id,
/// status, code, title, detail.
pub open spec fn error_members(e: JsonApiError) -> Seq<Seq<char>> {
    optional_member("\"id\":"@, e.id) + optional_member("\"status\":"@, e.status)
        + optional_member("\"code\":"@, e.code) + optional_member("\"title\":"@, e.title)
        + optional_member("\"detail\":"@, e.detail)
}

/// The JSON text of an error object.
pub open spec fn error_text(e: JsonApiError) -> Seq<char> {
    "{"@ + joined(error_members(e)) + "}"@
}

/// The JSON array of the error objects `errors`.
pub open spec fn errors_array_text(errors: Seq<JsonApiError>) -> Seq<char> {
    "["@ + joined(errors.map_values(|e: JsonApiError| error_text(e))) + "]"@
}

/// The document that answers with the errors `errors`.
pub open spec fn errors_document_text(errors: Seq<JsonApiError>) -> Seq<char> {
    "{\"errors\":"@ + errors_array_text(errors) + "}"@
}

fn push_member(parts: &mut Vec<String>, key: &str, v: &Option<String>)
    ensures
        texts_view(final(parts)@) == texts_view(old(parts)@) + optional_member(key@, *v),
{
    match v {
        Some(s) => {
            let mut m = String::new();
            m.append(key);
            let q = json_string(s.as_str());
            m.append(q.as_str());
            parts.push(m);
            assert(texts_view(parts@) =~= texts_view(old(parts)@) + optional_member(key@, *v));
        },
        None => {
            assert(texts_view(parts@) =~= texts_view(old(parts)@) + optional_member(key@, *v));
        },
    }
}

impl JsonApiError {
    /// An error object with no field present.
    pub fn new() -> (r: JsonApiError)
        ensures
            r.id is None,
            r.status is None,
            r.code is None,
            r.title is None,
            r.detail is None,
    {
        JsonApiError { id: None, status: None, code: None, title: None, detail: None }
    }

    /// The same error object with `id` set.
    pub fn id(self, v: String) -> (r: JsonApiError)
        ensures
            r == (JsonApiError { id: Some(v), ..self }),
    {
        JsonApiError { id: Some(v), ..self }
    }

    /// The same error object with `status` set.
    pub fn status(self, v: String) -> (r: JsonApiError)
        ensures
            r == (JsonApiError { status: Some(v), ..self }),
    {
        JsonApiError { status: Some(v), ..self }
    }

    /// The same error object with `code` set.
    pub fn code(self, v: String) -> (r: JsonApiError)
        ensures
            r == (JsonApiError { code: Some(v), ..self }),
    {
        JsonApiError { code: Some(v), ..self }
    }

    /// The same error object with `title` set.
    pub fn title(self, v: String) -> (r: JsonApiError)
        ensures
            r == (JsonApiError { title: Some(v), ..self }),
    {
        JsonApiError { title: Some(v), ..self }
    }

    /// The same error object with `detail` set.
    pub fn detail(self, v: String) -> (r: JsonApiError)
        ensures
            r == (JsonApiError { detail: Some(v), ..self }),
    {
        JsonApiError { detail: Some(v), ..self }
    }

    /// The JSON text of the error object.
    pub fn serialize(&self) -> (r: String)
        ensures
            r@ == error_text(*self),
    {
        let mut parts: Vec<String> = Vec::new();
        push_member(&mut parts, "\"id\":", &self.id);
        push_member(&mut parts, "\"status\":", &self.status);
        push_member(&mut parts, "\"code\":", &self.code);
        push_member(&mut parts, "\"title\":", &self.title);
        push_member(&mut parts, "\"detail\":", &self.detail);
        assert(texts_view(parts@) =~= error_members(*self));
        join_texts("{", &parts, "}")
    }
}

impl Default for JsonApiError {
    fn default() -> (r: JsonApiError)
        ensures
            r.id is None,
            r.status is None,
            r.code is None,
            r.title is None,
            r.detail is None,
    {
        JsonApiError::new()
    }
}

/// Writes the JSON array of the error objects `errors`.
pub fn serialize_errors(errors: &Vec<JsonApiError>) -> (r: String)
    ensures
        r@ == errors_array_text(errors@),
{
    let mut parts: Vec<String> = Vec::new();
    let mut i: usize = 0;
    while i < errors.len()
        invariant
            i <= errors.len(),
            texts_view(parts@) =~= errors@.take(i as int).map_values(
                |e: JsonApiError| error_text(e),
            ),
        decreases errors.len() - i,
    {
        let t = errors[i].serialize();
        let ghost before = parts@;
        parts.push(t);
        proof {
            assert(parts@ =~= before.push(t));
            assert(texts_view(parts@) =~= texts_view(before).push(t@));
            assert(errors@.take(i + 1) =~= errors@.take(i as int).push(errors@[i as int]));
            assert(errors@.take(i + 1).map_values(|e: JsonApiError| error_text(e))
                =~= errors@.take(i as int).map_values(|e: JsonApiError| error_text(e)).push(
                error_text(errors@[i as int]),
            ));
        }
        i = i + 1;
    }
    assert(errors@.take(errors.len() as int) =~= errors@);
    join_texts("[", &parts, "]")
}

/// The answer to a failed request: an HTTP status code and the error objects
/// that the `errors` document lists.
pub struct JsonApiResponseError(pub u16, pub Vec<JsonApiError>);

impl JsonApiResponseError {
    /// An error answer with the status `error_code` and the error objects
    /// `errors`.
    pub fn new(error_code: u16, errors: Vec<JsonApiError>) -> (r: JsonApiResponseError)
        ensures
            r.0 == error_code,
            r.1 == errors,
    {
        JsonApiResponseError(error_code, errors)
    }

    /// An error answer with a single error object, converted from `error`.
    pub fn from_item<I: Into<JsonApiError>>(error_code: u16, error: I) -> (r: JsonApiResponseError)
        ensures
            r.0 == error_code,
            r.1@.len() == 1,
            I::obeys_into_spec() ==> r.1@ == seq![error.into_spec()],
    {
        let mut errors: Vec<JsonApiError> = Vec::new();
        let c: JsonApiError = error.into();
        errors.push(c);
        JsonApiResponseError(error_code, errors)
    }

    /// An error answer whose error objects are converted from `errors`, in
    /// order.
    pub fn from_items<I: Into<JsonApiError>>(error_code: u16, errors: Vec<I>) -> (r:
        JsonApiResponseError)
        ensures
            r.0 == error_code,
            r.1@.len() == errors@.len(),
            I::obeys_into_spec() ==> r.1@ == errors@.map_values(|e: I| e.into_spec()),
    {
        let ghost all = errors@;
        let mut rest = errors;
        let mut converted: Vec<JsonApiError> = Vec::new();
        while rest.len() > 0
            invariant
                converted@.len() + rest@.len() == all.len(),
                rest@ == all.skip(converted@.len() as int),
                I::obeys_into_spec() ==> converted@ == all.take(converted@.len() as int).map_values(
                    |e: I| e.into_spec(),
                ),
            decreases rest.len(),
        {
            let ghost k = converted@.len() as int;
            let e = rest.remove(0);
            let c: JsonApiError = e.into();
            converted.push(c);
            proof {
                assert(all.skip(k + 1) =~= all.skip(k).remove(0));
                assert(all.take(k + 1) =~= all.take(k).push(all[k]));
                assert(all.take(k + 1).map_values(|e: I| e.into_spec()) =~= all.take(k).map_values(
                    |e: I| e.into_spec(),
                ).push(all[k].into_spec()));
            }
        }
        assert(all.take(all.len() as int) =~= all);
        JsonApiResponseError(error_code, converted)
    }

    /// An error answer with one error object whose only field is the detail,
    /// the text that `error` displays as.
    pub fn from_error<E: core::fmt::Display>(error_code: u16, error: E) -> (r: JsonApiResponseError)
        ensures
            r.0 == error_code,
            r.1@.len() == 1,
            r.1@[0].id is None && r.1@[0].status is None && r.1@[0].code is None
                && r.1@[0].title is None,
            r.1@[0].detail matches Some(d) && to_string_from_display_ensures::<E>(&error, d),
    {
        let detail = error.to_string();
        let mut errors: Vec<JsonApiError> = Vec::new();
        errors.push(JsonApiError::new().detail(detail));
        JsonApiResponseError(error_code, errors)
    }

    /// An error answer with one error object per error of `errors`, in
    /// order, each with only the detail: the text that the error displays as.
    pub fn from_errors<E: core::fmt::Display>(error_code: u16, errors: Vec<E>) -> (r:
        JsonApiResponseError)
        ensures
            r.0 == error_code,
            r.1.len() == errors.len(),
            forall|i: int|
                0 <= i < errors.len() ==> (#[trigger] r.1@[i]).id is None && r.1@[i].status is None
                    && r.1@[i].code is None && r.1@[i].title is None && (r.1@[i].detail matches Some(
                    d,
                ) && to_string_from_display_ensures::<E>(&errors@[i], d)),
    {
        let mut converted: Vec<JsonApiError> = Vec::new();
        let mut i: usize = 0;
        while i < errors.len()
            invariant
                i <= errors.len(),
                converted.len() == i,
                forall|j: int|
                    0 <= j < i ==> (#[trigger] converted@[j]).id is None && converted@[j].status is None
                        && converted@[j].code is None && converted@[j].title is None && (
                    converted@[j].detail matches Some(d) && to_string_from_display_ensures::<E>(
                        &errors@[j],
                        d,
                    )),
            decreases errors.len() - i,
        {
            let detail = errors[i].to_string();
            converted.push(JsonApiError::new().detail(detail));
            i = i + 1;
        }
        JsonApiResponseError(error_code, converted)
    }

    /// The HTTP status code of the answer.
    pub fn get_error_code(&self) -> (r: u16)
        ensures
            r == self.0,
    {
        self.0
    }

    /// The `errors` document of the answer.
    pub fn serialize(&self) -> (r: String)
        ensures
            r@ == errors_document_text(self.1@),
    {
        let list = serialize_errors(&self.1);
        let mut out = String::new();
        out.append("{\"errors\":");
        out.append(list.as_str());
        out.append("}");
        out
    }
}

} // verus!

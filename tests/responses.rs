use rocket_jsonapi::document::JsonApiCollection;
use rocket_jsonapi::document::JsonApiPrimaryDataObject;
use rocket_jsonapi::document::JSON_API_MEDIA_TYPE;
use rocket_jsonapi::error::JsonApiError;
use rocket_jsonapi::error::JsonApiResponseError;
use rocket_jsonapi::links::Linkify;
use rocket_jsonapi::links::LinksObject;
use rocket_jsonapi::resource::ResourceId;
use rocket_jsonapi::resource::ResourceIdentifiable;
use rocket_jsonapi::resource::ResourceType;
use rocket_jsonapi::response::HttpResponse;
use rocket_jsonapi::response::JsonApiCreateResponse;
use rocket_jsonapi::response::JsonApiDataResponse;
use rocket_jsonapi::response::JsonApiUpdateResponse;

fn json(text: &str) -> serde_json::Value {
    serde_json::from_str(text).unwrap()
}

struct Test {
    id: i32,
    message: String,
}

impl ResourceType for Test {
    fn get_type() -> &'static str {
        "Test"
    }
}

impl ResourceIdentifiable for Test {
    fn get_id(&self) -> ResourceId {
        ResourceId::Integer(self.id as i128)
    }
}

impl Linkify for Test {
    fn get_links(&self) -> Vec<LinksObject> {
        Vec::new()
    }
}

impl Test {
    fn attributes(&self) -> String {
        format!(r#"{{"id":{},"message":{}}}"#, self.id, serde_json::Value::from(self.message.clone()))
    }

    fn document(&self) -> JsonApiPrimaryDataObject {
        JsonApiPrimaryDataObject::single(self, self.attributes())
    }
}

fn bob() -> JsonApiPrimaryDataObject {
    Test { id: 5, message: String::from("Bob") }.document()
}

const BOB: &str = r#"{
    "data": {
        "id": "5",
        "type": "Test",
        "attributes": {
            "id": 5,
            "message": "Bob"
        }
    }
}"#;

fn check(response: HttpResponse, status: u16, body: Option<&str>) {
    assert_eq!(response.status, status);
    assert_eq!(response.content_type, "application/vnd.api+json");
    assert_eq!(response.content_type, JSON_API_MEDIA_TYPE);
    match body {
        Some(expected) => assert_eq!(json(&response.body.unwrap()), json(expected)),
        None => assert!(response.body.is_none()),
    }
}

#[test]
fn rocket_simple_ok_list_response() {
    let items = vec![
        Test { id: 1, message: String::from("Hello!") },
        Test { id: 2, message: String::from("Hay!") },
    ];
    let attributes: Vec<String> = items.iter().map(|t| t.attributes()).collect();
    let document = JsonApiPrimaryDataObject::collection(JsonApiCollection::data(items), attributes).unwrap();
    let expected = r#"{
        "data": [{
            "id": "1",
            "type": "Test",
            "attributes": {
                "id": 1,
                "message": "Hello!"
            }
        }, {
            "id": "2",
            "type": "Test",
            "attributes": {
                "id": 2,
                "message": "Hay!"
            }
        }]
    }"#;
    check(JsonApiDataResponse(Ok(document)).respond_to(), 200, Some(expected));
}

#[test]
fn rocket_simple_error_response() {
    let response = JsonApiDataResponse(Err(JsonApiResponseError::new(
        406,
        vec![JsonApiError::new().id(String::from("5")).status(String::from("406"))],
    )));
    let expected = r#"{
        "errors": [{
            "id": "5",
            "status": "406"
        }]
    }"#;
    check(response.respond_to(), 406, Some(expected));
}

#[test]
fn rocket_create_response_created() {
    check(JsonApiCreateResponse::Created(bob()).respond_to(), 201, Some(BOB));
}

#[test]
fn rocket_create_response_accepted() {
    check(JsonApiCreateResponse::Accepted(bob()).respond_to(), 202, Some(BOB));
}

#[test]
fn rocket_create_response_no_content() {
    check(JsonApiCreateResponse::NoContent.respond_to(), 204, None);
}

#[test]
fn rocket_create_response_unsupported_client_id() {
    check(
        JsonApiCreateResponse::UnsupportedClientId(None).respond_to(),
        403,
        Some(r#"{"errors": []}"#),
    );
}

#[test]
fn rocket_create_response_forbidden() {
    check(JsonApiCreateResponse::Forbidden(None).respond_to(), 403, Some(r#"{"errors": []}"#));
}

#[test]
fn rocket_create_response_not_found() {
    check(JsonApiCreateResponse::NotFound(None).respond_to(), 404, Some(r#"{"errors": []}"#));
}

#[test]
fn rocket_create_response_already_exists() {
    check(JsonApiCreateResponse::AlreadyExists(None).respond_to(), 409, Some(r#"{"errors": []}"#));
}

#[test]
fn rocket_create_response_other() {
    check(JsonApiCreateResponse::Other(502, Err(vec![])).respond_to(), 502, Some(r#"{"errors": []}"#));
}

#[test]
fn rocket_update_response_updated() {
    check(JsonApiUpdateResponse::Updated(bob()).respond_to(), 200, Some(BOB));
}

#[test]
fn rocket_update_response_accepted() {
    check(JsonApiUpdateResponse::Accepted(bob()).respond_to(), 202, Some(BOB));
}

#[test]
fn rocket_update_response_no_content() {
    check(JsonApiUpdateResponse::NoContent.respond_to(), 204, None);
}

#[test]
fn rocket_update_response_forbidden() {
    check(JsonApiUpdateResponse::Forbidden(None).respond_to(), 403, Some(r#"{"errors": []}"#));
}

#[test]
fn rocket_update_response_not_found() {
    check(JsonApiUpdateResponse::NotFound(None).respond_to(), 404, Some(r#"{"errors": []}"#));
}

#[test]
fn rocket_update_response_invalid_update() {
    check(JsonApiUpdateResponse::InvalidUpdate(None).respond_to(), 409, Some(r#"{"errors": []}"#));
}

#[test]
fn rocket_update_response_other() {
    check(JsonApiUpdateResponse::Other(502, Err(vec![])).respond_to(), 502, Some(r#"{"errors": []}"#));
}

#[test]
fn given_errors_are_listed() {
    let errors = vec![JsonApiError::new().code(String::from("1"))];
    check(
        JsonApiCreateResponse::Forbidden(Some(errors)).respond_to(),
        403,
        Some(r#"{"errors":[{"code":"1"}]}"#),
    );
    check(
        JsonApiUpdateResponse::Other(200, Ok(bob())).respond_to(),
        200,
        Some(BOB),
    );
}

use rocket_jsonapi::error::serialize_errors;
use rocket_jsonapi::error::JsonApiError;
use rocket_jsonapi::error::JsonApiResponseError;
use rocket_jsonapi::response::JsonApiDataResponse;
use rocket_jsonapi::response::JsonApiResponse;

fn json(text: &str) -> serde_json::Value {
    serde_json::from_str(text).unwrap()
}

#[test]
fn it_works() {
    assert_eq!(2 + 2, 4);
}

#[test]
fn test_generate_single_field() {
    let generated_error = JsonApiError::new().id(String::from("1"));
    let result_error = JsonApiError {
        id: Some(String::from("1")),
        status: None,
        code: None,
        detail: None,
        title: None,
    };
    assert_eq!(generated_error, result_error);
}

#[test]
fn test_generate_multiple_fields() {
    let generated_error = JsonApiError::new().id(String::from("1")).status(String::from("409"));
    let result_error = JsonApiError {
        id: Some(String::from("1")),
        status: Some(String::from("409")),
        code: None,
        detail: None,
        title: None,
    };
    assert_eq!(generated_error, result_error);
}

#[test]
fn test_generate_all_fields() {
    let generated_error = JsonApiError::new()
        .id(String::from("1"))
        .status(String::from("409"))
        .code(String::from("9"))
        .detail(String::from("Failed completely and utterly, please god help me!"))
        .title(String::from("Super failure"));
    let result_error = JsonApiError {
        id: Some(String::from("1")),
        status: Some(String::from("409")),
        code: Some(String::from("9")),
        detail: Some(String::from(
            "Failed completely and utterly, please god help me!",
        )),
        title: Some(String::from("Super failure")),
    };
    assert_eq!(generated_error, result_error);
}

fn two_errors() -> Vec<JsonApiError> {
    vec![
        JsonApiError::new().title(String::from("Super error")).code(String::from("15")),
        JsonApiError::new().title(String::from("Medium error")).code(String::from("17")),
    ]
}

const TWO_ERRORS_DOCUMENT: &str = r#"{
    "errors": [{
        "title": "Super error",
        "code": "15"
    },{
        "title": "Medium error",
        "code": "17"
    }]
}"#;

#[test]
fn general_response_serialize_json_api_response_error() {
    let response = JsonApiResponse(403, Err(two_errors()));
    assert_eq!(json(&response.serialize()), json(TWO_ERRORS_DOCUMENT));
}

#[test]
fn test_serialize_serialize_json_api_response_error() {
    let response = JsonApiDataResponse(Err(JsonApiResponseError::new(400, two_errors())));
    let answer = response.into_response();
    assert_eq!(answer.0, 400);
    assert_eq!(json(&answer.serialize()), json(TWO_ERRORS_DOCUMENT));
}

fn turtle_errors() -> Vec<JsonApiError> {
    vec![
        JsonApiError::new().id(String::from("1")).title(String::from("I like turtles")),
        JsonApiError::new().id(String::from("2")).status(String::from("400")),
    ]
}

const TURTLE_ERRORS: &str = r#"[{
    "id": "1",
    "title": "I like turtles"
},{
    "id": "2",
    "status": "400"
}]"#;

#[test]
fn general_response_test_serialize_as_vec_of_errors() {
    assert_eq!(json(&serialize_errors(&turtle_errors())), json(TURTLE_ERRORS));
}

#[test]
fn test_serialize_test_serialize_as_vec_of_errors() {
    let text = serialize_errors(&turtle_errors());
    assert_eq!(
        text,
        r#"[{"id":"1","title":"I like turtles"},{"id":"2","status":"400"}]"#
    );
    assert_eq!(json(&text), json(TURTLE_ERRORS));
}

#[test]
fn error_list_is_written_byte_for_byte() {
    let text = JsonApiResponseError::new(403, two_errors()).serialize();
    assert_eq!(
        text,
        r#"{"errors":[{"code":"15","title":"Super error"},{"code":"17","title":"Medium error"}]}"#
    );
}

#[test]
fn error_fields_are_written_in_order_and_absent_ones_left_out() {
    let all = JsonApiError::new()
        .detail(String::from("d"))
        .title(String::from("t"))
        .code(String::from("c"))
        .status(String::from("s"))
        .id(String::from("i"));
    assert_eq!(
        all.serialize(),
        r#"{"id":"i","status":"s","code":"c","title":"t","detail":"d"}"#
    );
    assert_eq!(JsonApiError::new().serialize(), "{}");
    assert_eq!(JsonApiError::default().serialize(), "{}");
}

#[test]
fn error_text_is_escaped() {
    let e = JsonApiError::new().title(String::from("say \"hi\"\n"));
    assert_eq!(e.serialize(), r#"{"title":"say \"hi\"\n"}"#);
    let control = JsonApiError::new().detail(String::from("a\u{1}\\b\u{7f}é"));
    assert_eq!(control.serialize(), "{\"detail\":\"a\\u0001\\\\b\u{7f}é\"}");
}

#[test]
fn errors_from_messages() {
    let r = JsonApiResponseError::from_errors(500, vec![String::from("a"), String::from("b")]);
    assert_eq!(r.get_error_code(), 500);
    assert_eq!(r.1.len(), 2);
    assert_eq!(r.1[0].detail, Some(String::from("a")));
    assert_eq!(r.1[1].detail, Some(String::from("b")));
    assert_eq!(r.1[1].id, None);
    let one = JsonApiResponseError::from_error(404, String::from("gone"));
    assert_eq!(one.serialize(), r#"{"errors":[{"detail":"gone"}]}"#);
    let item = JsonApiResponseError::from_item(409, JsonApiError::new().code(String::from("7")));
    assert_eq!(item.0, 409);
    assert_eq!(item.serialize(), r#"{"errors":[{"code":"7"}]}"#);
}

enum MyError {
    DbError,
    InputError,
}

impl From<MyError> for JsonApiError {
    fn from(error: MyError) -> Self {
        match error {
            MyError::DbError => JsonApiError::new().id(String::from("1")),
            MyError::InputError => JsonApiError::new().id(String::from("2")),
        }
    }
}

#[test]
fn errors_from_convertible_items() {
    let r = JsonApiResponseError::from_items(400, vec![MyError::DbError, MyError::InputError]);
    assert_eq!(r.get_error_code(), 400);
    assert_eq!(r.serialize(), r#"{"errors":[{"id":"1"},{"id":"2"}]}"#);
    let one = JsonApiResponseError::from_item(400, MyError::InputError);
    assert_eq!(one.serialize(), r#"{"errors":[{"id":"2"}]}"#);
}

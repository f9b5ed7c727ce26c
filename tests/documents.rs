use rocket_jsonapi::document::serialize_resource_objects;
use rocket_jsonapi::document::JsonApiCollection;
use rocket_jsonapi::document::JsonApiPrimaryDataObject;
use rocket_jsonapi::document::PrimaryObjectType;
use rocket_jsonapi::document::ResourceObject;
use rocket_jsonapi::links::LinkObject;
use rocket_jsonapi::links::Linkify;
use rocket_jsonapi::links::LinksObject;
use rocket_jsonapi::links::LinksSerialize;
use rocket_jsonapi::resource::ResourceId;
use rocket_jsonapi::resource::ResourceIdentifiable;
use rocket_jsonapi::resource::ResourceType;
use rocket_jsonapi::response::JsonApiResponse;
use rocket_jsonapi::text::decimal_string;

fn json(text: &str) -> serde_json::Value {
    serde_json::from_str(text).unwrap()
}

struct Test {
    id: i32,
    message: String,
}

impl ResourceType for Test {
    fn get_type() -> &'static str {
        "Test"
    }
}

impl ResourceIdentifiable for Test {
    fn get_id(&self) -> ResourceId {
        ResourceId::Integer(self.id as i128)
    }
}

impl Linkify for Test {
    fn get_links(&self) -> Vec<LinksObject> {
        Vec::new()
    }
}

impl Test {
    fn new(id: i32, message: &str) -> Test {
        Test { id, message: message.to_string() }
    }

    fn attributes(&self) -> String {
        let mut m = serde_json::Map::new();
        m.insert("id".to_string(), serde_json::Value::from(self.id));
        m.insert("message".to_string(), serde_json::Value::from(self.message.clone()));
        serde_json::Value::Object(m).to_string()
    }

    fn object(&self) -> ResourceObject {
        ResourceObject::from_resource(self, self.attributes())
    }
}

fn collection_document(items: Vec<Test>) -> JsonApiPrimaryDataObject {
    let attributes: Vec<String> = items.iter().map(|t| t.attributes()).collect();
    JsonApiPrimaryDataObject::collection(JsonApiCollection::data(items), attributes).unwrap()
}

#[test]
fn serialize_resource_identifiable_wrapper() {
    let test_instance = Test::new(5, "Hello");
    let value = json(&test_instance.object().serialize());
    let expected = json(
        r#"{
        "id": "5",
        "type": "Test",
        "attributes": {
            "id": 5,
            "message": "Hello"
        }
    }"#,
    );
    assert_eq!(value, expected);
}

#[test]
fn serialize_resource_identifiable_wrapper_string_id() {
    let object = ResourceObject::new(
        ResourceId::Text("12".to_string()),
        "T".to_string(),
        r#"{"id":"12","message":"Hello"}"#.to_string(),
    );
    let expected = json(
        r#"{
        "id": "12",
        "type": "T",
        "attributes": {
            "id": "12",
            "message": "Hello"
        }
    }"#,
    );
    assert_eq!(json(&object.serialize()), expected);
}

#[test]
fn serialize_json_primary_data_object() {
    let test_instance = Test::new(5, "Hello");
    let document = JsonApiPrimaryDataObject::single(&test_instance, test_instance.attributes());
    let expected = json(
        r#"{
        "data": {
            "id": "5",
            "type": "Test",
            "attributes": {
                "id": 5,
                "message": "Hello"
            }
        }
    }"#,
    );
    assert_eq!(json(&document.serialize()), expected);
}

const TWO_OBJECTS: &str = r#"[{
    "id": "5",
    "type": "Test",
    "attributes": {
        "id": 5,
        "message": "Hello"
    }
}, {
    "id": "6",
    "type": "Test",
    "attributes": {
        "id": 6,
        "message": "Hallo"
    }
}]"#;

#[test]
fn serialize_json_primary_data_object_with_vec() {
    let document = collection_document(vec![Test::new(5, "Hello"), Test::new(6, "Hallo")]);
    let expected = json(&format!(r#"{{"data": {}}}"#, TWO_OBJECTS));
    assert_eq!(json(&document.serialize()), expected);
}

#[test]
fn serialize_json_primary_data_object_array() {
    let objects = vec![Test::new(5, "Hello").object(), Test::new(6, "Hallo").object()];
    assert_eq!(json(&serialize_resource_objects(&objects)), json(TWO_OBJECTS));
}

#[test]
fn general_response_serialize_json_api_response() {
    let test_instance = Test::new(5, "Hello");
    let document = JsonApiPrimaryDataObject::single(&test_instance, test_instance.attributes());
    let response = JsonApiResponse(200, Ok(document));
    let expected = json(
        r#"{
        "data": {
            "id": "5",
            "type": "Test",
            "attributes": {
                "id": 5,
                "message": "Hello"
            }
        }
    }"#,
    );
    assert_eq!(json(&response.serialize()), expected);
}

const HELLO_WORLD: &str = r#"{
    "data": [{
        "id": "5",
        "type": "Test",
        "attributes": {
            "id": 5,
            "message": "Hello"
        }
    },{
        "id": "6",
        "type": "Test",
        "attributes": {
            "id": 6,
            "message": "World"
        }
    }]
}"#;

#[test]
fn general_response_serialize_json_api_response_array() {
    let document = collection_document(vec![Test::new(5, "Hello"), Test::new(6, "World")]);
    let response = JsonApiResponse(200, Ok(document));
    assert_eq!(json(&response.serialize()), json(HELLO_WORLD));
}

#[test]
fn test_serialize_serialize_json_api_response() {
    let test_instance = Test::new(5, "Hello");
    let document = JsonApiPrimaryDataObject::single(&test_instance, test_instance.attributes());
    let expected = json(
        r#"{
        "data": {
            "id": "5",
            "type": "Test",
            "attributes": {
                "id": 5,
                "message": "Hello"
            }
        }
    }"#,
    );
    assert_eq!(json(&JsonApiResponse(200, Ok(document)).serialize()), expected);
}

#[test]
fn test_serialize_serialize_json_api_response_array() {
    let document = collection_document(vec![Test::new(5, "Hello"), Test::new(6, "World")]);
    assert_eq!(json(&document.serialize()), json(HELLO_WORLD));
}

struct TestWithLinks {
    id: u64,
    message: String,
}

impl ResourceType for TestWithLinks {
    fn get_type() -> &'static str {
        "TestWithLinks"
    }
}

impl ResourceIdentifiable for TestWithLinks {
    fn get_id(&self) -> ResourceId {
        ResourceId::Integer(self.id as i128)
    }
}

impl Linkify for TestWithLinks {
    fn get_links(&self) -> Vec<LinksObject> {
        vec![
            LinksObject::Url(
                "self".to_string(),
                String::from("http://fake.com/api/test_with_links/1"),
            ),
            LinksObject::Object(
                "something".to_string(),
                LinkObject::new(
                    String::from("http://fake.com/api/test_with_links/1/something"),
                    r#"{"stuff":"stuff"}"#.to_string(),
                ),
            ),
        ]
    }
}

#[test]
fn test_rocket_response_rocket_simple_ok_response() {
    let simple = Test::new(1, "Hello!");
    let document = JsonApiPrimaryDataObject::single(&simple, simple.attributes());
    let expected = json(
        r#"{
        "data": {
            "id": "1",
            "type": "Test",
            "attributes": {
                "id": 1,
                "message": "Hello!"
            }
        }
    }"#,
    );
    assert_eq!(json(&document.serialize()), expected);

    let with_links = TestWithLinks { id: 1, message: String::from("Hello!") };
    let attributes = format!(r#"{{"id":{},"message":"{}"}}"#, with_links.id, with_links.message);
    let document = JsonApiPrimaryDataObject::single(&with_links, attributes);
    let expected = json(
        r#"{
        "data": {
            "id": "1",
            "type": "TestWithLinks",
            "attributes": {
                "id": 1,
                "message": "Hello!"
            }
        },
        "links": {
            "self": "http://fake.com/api/test_with_links/1",
            "something": {
                "href": "http://fake.com/api/test_with_links/1/something",
                "meta": {
                    "stuff": "stuff"
                }
            }
        }
    }"#,
    );
    assert_eq!(json(&document.serialize()), expected);
}

#[test]
fn links_keep_declaration_order() {
    let with_links = TestWithLinks { id: 1, message: String::from("Hello!") };
    let links = with_links.get_links();
    assert_eq!(
        LinksSerialize(&links).serialize(),
        r#"{"self":"http://fake.com/api/test_with_links/1","something":{"href":"http://fake.com/api/test_with_links/1/something","meta":{"stuff":"stuff"}}}"#
    );
}

#[test]
fn no_links_means_no_links_member() {
    let t = Test::new(3, "x");
    let text = JsonApiPrimaryDataObject::single(&t, t.attributes()).serialize();
    assert!(!text.contains("links"));
    assert_eq!(
        text,
        r#"{"data":{"id":"3","type":"Test","attributes":{"id":3,"message":"x"}}}"#
    );
    let doc = JsonApiPrimaryDataObject::from_data_links(
        PrimaryObjectType::Multiple(vec![]),
        vec![],
    );
    assert_eq!(doc.serialize(), r#"{"data":[]}"#);
}

#[test]
fn single_is_object_and_list_is_array_in_order() {
    let single = JsonApiPrimaryDataObject::from_data(PrimaryObjectType::Single(
        Test::new(1, "a").object(),
    ));
    assert!(json(&single.serialize())["data"].is_object());
    let list = collection_document(vec![Test::new(2, "b"), Test::new(1, "a")]);
    let value = json(&list.serialize());
    let data = value["data"].as_array().unwrap();
    assert_eq!(data.len(), 2);
    assert_eq!(data[0]["id"], serde_json::Value::from("2"));
    assert_eq!(data[1]["id"], serde_json::Value::from("1"));
}

#[test]
fn collection_links_are_document_links() {
    let items = vec![Test::new(1, "a")];
    let attributes: Vec<String> = items.iter().map(|t| t.attributes()).collect();
    let links = vec![LinksObject::Url("next".to_string(), "http://x/2".to_string())];
    let doc = JsonApiPrimaryDataObject::collection(
        JsonApiCollection::data_w_links(links, items),
        attributes,
    )
    .unwrap();
    assert_eq!(
        doc.serialize(),
        r#"{"data":[{"id":"1","type":"Test","attributes":{"id":1,"message":"a"}}],"links":{"next":"http://x/2"}}"#
    );
}

#[test]
fn included_resources_follow_the_data() {
    let doc = JsonApiPrimaryDataObject::from_data_links_included(
        PrimaryObjectType::Single(Test::new(1, "a").object()),
        vec![],
        vec![r#"{"id":"9","type":"Other"}"#.to_string()],
    );
    assert_eq!(
        doc.serialize(),
        r#"{"data":{"id":"1","type":"Test","attributes":{"id":1,"message":"a"}},"included":[{"id":"9","type":"Other"}]}"#
    );
}

#[test]
fn string_and_integer_ids_write_the_same() {
    let a = ResourceObject::new(ResourceId::Integer(5), "Test".to_string(), "{}".to_string());
    let b = ResourceObject::new(ResourceId::Text("5".to_string()), "Test".to_string(), "{}".to_string());
    assert_eq!(a.serialize(), b.serialize());
    assert_eq!(a.serialize(), r#"{"id":"5","type":"Test","attributes":{}}"#);
}

#[test]
fn identity_is_read_back() {
    let t = Test::new(42, "m");
    let value = json(&t.object().serialize());
    assert_eq!(value["id"], serde_json::Value::from(t.id.to_string()));
    assert_eq!(value["type"], serde_json::Value::from("Test"));
}

#[test]
fn encoding_twice_gives_the_same_bytes() {
    let first = collection_document(vec![Test::new(1, "a"), Test::new(2, "b")]).serialize();
    let second = collection_document(vec![Test::new(1, "a"), Test::new(2, "b")]).serialize();
    assert_eq!(first, second);
}

#[test]
fn decimal_forms() {
    assert_eq!(decimal_string(0), "0");
    assert_eq!(decimal_string(7), "7");
    assert_eq!(decimal_string(-45), "-45");
    assert_eq!(decimal_string(1234567890), "1234567890");
    assert_eq!(decimal_string(i128::MIN), i128::MIN.to_string());
    assert_eq!(decimal_string(i128::MAX), i128::MAX.to_string());
    assert_eq!(ResourceId::Integer(-3).to_id_string(), "-3");
}

#[test]
fn collection_needs_one_attribute_text_per_value() {
    let items = vec![Test::new(1, "a"), Test::new(2, "b")];
    let doc = JsonApiPrimaryDataObject::collection(JsonApiCollection::data(items), vec!["{}".to_string()]);
    assert!(doc.is_none());
}

#[test]
fn empty_links_are_written_as_null() {
    let links: Vec<LinksObject> = Vec::new();
    assert_eq!(LinksSerialize(&links).serialize(), "null");
}

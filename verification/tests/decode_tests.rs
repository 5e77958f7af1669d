use scene_format::errors::SceneIOError;
use scene_format::json::{JsonObject, JsonValue};
use scene_format::codec::decode_reading;
use scene_format::{decode, Decoded};

fn document(data: &[u8]) -> JsonObject {
    match decode(data) {
        Ok(Decoded::Document(JsonValue::Object(scene))) => scene,
        other => panic!("expected a document, got {:?}", other),
    }
}

fn field<'a>(object: &'a JsonObject, key: &str) -> &'a JsonValue {
    object.get(key).expect("the field is there")
}

fn fields_of(value: &JsonValue) -> &JsonObject {
    match value {
        JsonValue::Object(object) => object,
        other => panic!("expected an object, got {:?}", other),
    }
}

fn items_of(value: &JsonValue) -> &Vec<JsonValue> {
    match value {
        JsonValue::Array(items) => items,
        other => panic!("expected an array, got {:?}", other),
    }
}

#[test]
fn text_is_read_as_a_document() {
    let scene = document(
        b"{\"version\": 1, \"name\": \"cow\", \"flag\": true, \"none\": null, \"x\": -1.5}",
    );
    assert_eq!(field(&scene, "version"), &JsonValue::Number("1".to_string()));
    assert_eq!(field(&scene, "name"), &JsonValue::Text("cow".to_string()));
    assert_eq!(field(&scene, "flag"), &JsonValue::Bool(true));
    assert_eq!(field(&scene, "none"), &JsonValue::Null);
    assert_eq!(field(&scene, "x"), &JsonValue::Number("-1.5".to_string()));
}

#[test]
fn missing_lights_and_materials_default_to_empty_arrays() {
    let scene = document(b"{\"version\": 1}");
    assert_eq!(field(&scene, "lights"), &JsonValue::Array(vec![]));
    assert_eq!(field(&scene, "materials"), &JsonValue::Array(vec![]));
}

#[test]
fn missing_parent_defaults_to_the_root() {
    let scene = document(b"{\"cameras\": [{\"id\": 0, \"transform\": {\"position\": {\"x\": 1.01, \"y\": 2.76, \"z\": 3.0}}}]}");
    let camera = fields_of(&items_of(field(&scene, "cameras"))[0]);
    let transform = fields_of(field(camera, "transform"));
    assert_eq!(field(transform, "parentId"), &JsonValue::Number("0".to_string()));
    let position = fields_of(field(transform, "position"));
    assert_eq!(field(position, "x"), &JsonValue::Number("1.01".to_string()));
    assert_eq!(field(position, "z"), &JsonValue::Number("3.0".to_string()));
}

#[test]
fn missing_custom_properties_default_to_an_empty_list() {
    let scene = document(b"{\"renderOptions\": {\"cameraId\": 0, \"width\": 1000, \"height\": 1000}}");
    let options = fields_of(field(&scene, "renderOptions"));
    assert_eq!(field(options, "customProperties"), &JsonValue::Array(vec![]));
    assert_eq!(field(options, "width"), &JsonValue::Number("1000".to_string()));
}

#[test]
fn legacy_meshed_object_is_folded() {
    let scene = document(
        b"{\"sceneObjects\": [{\"id\": 0, \"meshed_object\": {\"reference\": \"assets/cow.obj\"}}]}",
    );
    let scene_object = fields_of(&items_of(field(&scene, "sceneObjects"))[0]);
    let mesh = fields_of(field(scene_object, "mesh"));
    let meshed = fields_of(field(mesh, "meshedObject"));
    assert_eq!(field(meshed, "reference"), &JsonValue::Text("assets/cow.obj".to_string()));
}

#[test]
fn legacy_directional_light_is_folded() {
    let scene = document(b"{\"lights\": [{\"id\": 1, \"directional\": {}}]}");
    let light = fields_of(&items_of(field(&scene, "lights"))[0]);
    let kind = fields_of(field(light, "light"));
    assert_eq!(field(kind, "directional"), &JsonValue::Object(JsonObject::new()));
}

#[test]
fn legacy_environment_light_is_folded_into_environment() {
    let scene = document(b"{\"lights\": [{\"environment\": {\"a\": 1}}]}");
    let light = fields_of(&items_of(field(&scene, "lights"))[0]);
    let outer = fields_of(field(light, "environment"));
    let inner = fields_of(field(outer, "environment"));
    assert_eq!(field(inner, "a"), &JsonValue::Number("1".to_string()));
    assert!(light.get("light").is_none());
}

#[test]
fn bytes_that_are_no_text_are_left_to_the_binary_reader() {
    match decode(&[0x08, 0x01, 0x12, 0x00]) {
        Ok(Decoded::Binary { complaint }) => assert!(!complaint.is_empty()),
        other => panic!("expected the binary route, got {:?}", other),
    }
    match decode(b"") {
        Ok(Decoded::Binary { complaint }) => {
            assert_eq!(complaint, "EOF while parsing a value at line 1 column 0")
        }
        other => panic!("expected the binary route, got {:?}", other),
    }
    match decode(b"{\"version\": 1} trailing") {
        Ok(Decoded::Binary { complaint }) => {
            assert_eq!(complaint, "trailing characters at line 1 column 16")
        }
        other => panic!("expected the binary route, got {:?}", other),
    }
}

#[test]
fn text_that_is_no_scene_is_not_tried_as_binary() {
    for data in [&b"12"[..], &b"\"scene\""[..], &b"[1, 2]"[..], &b"null"[..], &b"true"[..]] {
        assert_eq!(
            decode(data),
            Err(SceneIOError::FailedToDecode {
                description: "Expected top level structure to be object".to_string()
            })
        );
    }
}

#[test]
fn shape_violation_in_text_is_final() {
    assert_eq!(
        decode(b"{\"cameras\": {}}"),
        Err(SceneIOError::FailedToDecode {
            description: "Expected cameras to be an array".to_string()
        })
    );
    assert_eq!(
        decode(b"{\"sceneObjects\": [{\"sphere\": 3}]}"),
        Err(SceneIOError::FailedToDecode {
            description: "Expected sphere to be an object".to_string()
        })
    );
}

#[test]
fn field_given_twice_counts_with_its_last_value() {
    let scene = document(b"{\"version\": 1, \"version\": 2}");
    assert_eq!(field(&scene, "version"), &JsonValue::Number("2".to_string()));
}

#[test]
fn reading_decides_the_route() {
    assert_eq!(
        decode_reading(Err("no text".to_string())),
        Ok(Decoded::Binary { complaint: "no text".to_string() })
    );
    assert_eq!(
        decode_reading(Ok(JsonValue::Null)),
        Err(SceneIOError::FailedToDecode {
            description: "Expected top level structure to be object".to_string()
        })
    );
    match decode_reading(Ok(JsonValue::Object(JsonObject::new()))) {
        Ok(Decoded::Document(JsonValue::Object(scene))) => {
            assert_eq!(scene.get("lights"), Some(&JsonValue::Array(vec![])));
            assert_eq!(scene.get("materials"), Some(&JsonValue::Array(vec![])));
        }
        other => panic!("expected a document, got {:?}", other),
    }
}

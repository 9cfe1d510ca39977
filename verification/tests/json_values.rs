use airbag::json::json_set_if_not_present;
use airbag::json::JsonObject;
use airbag::json::JsonValue;

fn obj(members: Vec<(&str, JsonValue)>) -> JsonValue {
    let mut o = JsonObject::new();
    for (key, value) in members {
        o.set(key, value);
    }
    JsonValue::Obj(o)
}

#[test]
fn test_json_set_if_not_present() {
    let mut value = obj(vec![]);
    json_set_if_not_present(&mut value, &["some", "path"], "test");
    let expected = obj(vec![("some", obj(vec![("path", JsonValue::Str("test".to_string()))]))]);
    assert!(value.equals(&expected));

    let mut value = obj(vec![("some", JsonValue::Int(2))]);
    json_set_if_not_present(&mut value, &["some", "path"], "test");
    let expected = obj(vec![("some", JsonValue::Int(2))]);
    assert!(value.equals(&expected));

    let mut value = obj(vec![("some", obj(vec![]))]);
    json_set_if_not_present(&mut value, &["some", "path"], "test");
    let expected = obj(vec![("some", obj(vec![("path", JsonValue::Str("test".to_string()))]))]);
    assert!(value.equals(&expected));

    let mut value = obj(vec![("some", obj(vec![("path", JsonValue::Str("a".to_string()))]))]);
    json_set_if_not_present(&mut value, &["some", "path"], "b");
    let expected = obj(vec![("some", obj(vec![("path", JsonValue::Str("a".to_string()))]))]);
    assert!(value.equals(&expected));
}

#[test]
fn test_json_set_if_not_present_null_leaf() {
    let mut value = obj(vec![("leaf", JsonValue::Null)]);
    json_set_if_not_present(&mut value, &["leaf"], "filled");
    let expected = obj(vec![("leaf", JsonValue::Str("filled".to_string()))]);
    assert!(value.equals(&expected));
}

#[test]
fn test_json_equals() {
    let a = obj(vec![
        ("n", JsonValue::Int(3)),
        ("b", JsonValue::Bool(true)),
        ("items", JsonValue::Arr(vec![JsonValue::Int(1), JsonValue::Null])),
    ]);
    let b = obj(vec![
        ("n", JsonValue::Int(3)),
        ("b", JsonValue::Bool(true)),
        ("items", JsonValue::Arr(vec![JsonValue::Int(1), JsonValue::Null])),
    ]);
    assert!(a.equals(&b));

    let c = obj(vec![
        ("n", JsonValue::Int(3)),
        ("b", JsonValue::Bool(false)),
        ("items", JsonValue::Arr(vec![JsonValue::Int(1), JsonValue::Null])),
    ]);
    assert!(!a.equals(&c));

    let d = obj(vec![("n", JsonValue::Int(3))]);
    assert!(!a.equals(&d));
    assert!(!JsonValue::Null.equals(&JsonValue::Bool(false)));
    assert!(!JsonValue::Str("1".to_string()).equals(&JsonValue::Int(1)));
}

#[test]
fn test_json_object_access() {
    let mut o = JsonObject::new();
    assert_eq!(o.len(), 0);
    o.set("first", JsonValue::Int(1));
    o.set("second", JsonValue::Str("two".to_string()));
    assert_eq!(o.len(), 2);
    assert!(o.contains_key("first"));
    assert!(!o.contains_key("third"));
    assert_eq!(o.key_at(0), "first");
    assert_eq!(o.key_at(1), "second");
    assert!(matches!(o.value_at(0), JsonValue::Int(1)));
    assert_eq!(o.get("second").unwrap().as_str().unwrap(), "two");

    o.set("first", JsonValue::Int(7));
    assert_eq!(o.len(), 2);
    assert_eq!(o.key_at(0), "first");
    assert!(matches!(o.value_at(0), JsonValue::Int(7)));

    o.set_if_missing("first", JsonValue::Int(9));
    assert!(matches!(o.value_at(0), JsonValue::Int(7)));
    o.set_if_missing("third", JsonValue::Bool(true));
    assert!(matches!(o.get("third"), Some(JsonValue::Bool(true))));
}

#[test]
fn test_json_deep_clone() {
    let a = obj(vec![
        ("inner", obj(vec![("k", JsonValue::Str("v".to_string()))])),
        ("items", JsonValue::Arr(vec![JsonValue::Bool(true)])),
    ]);
    let b = a.deep_clone();
    assert!(a.equals(&b));
}

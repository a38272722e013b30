use cfwgen::json::JsonValue;

#[test]
fn lookup_finds_a_member_by_name() {
    let obj = JsonValue::Obj(vec![
        ("first".to_string(), JsonValue::Bool(true)),
        ("second".to_string(), JsonValue::Str("x".to_string())),
    ]);
    assert_eq!(obj.get("second"), Some(&JsonValue::Str("x".to_string())));
    assert_eq!(obj.get("absent"), None);
}

#[test]
fn lookup_takes_the_first_member_with_the_name() {
    let obj = JsonValue::Obj(vec![
        ("name".to_string(), JsonValue::Num("1".to_string())),
        ("name".to_string(), JsonValue::Num("2".to_string())),
    ]);
    assert_eq!(obj.get("name"), Some(&JsonValue::Num("1".to_string())));
}

#[test]
fn lookup_on_a_non_object_is_none() {
    assert_eq!(JsonValue::Null.get("any"), None);
    assert_eq!(JsonValue::Arr(Vec::new()).get("any"), None);
    assert_eq!(JsonValue::Str("s".to_string()).get("any"), None);
}

use protofolio::{
    ChannelBindingsOrRef, JsonMember, JsonValue, MessageBindingsOrRef, MessageOrRef,
    MessageTraitOrRef, NameMap, OperationBindingsOrRef, OperationTraitOrRef,
};

fn s(x: &str) -> String {
    x.to_string()
}

fn object(members: Vec<(&str, JsonValue)>) -> JsonValue {
    JsonValue::Object(
        members.into_iter().map(|(name, value)| JsonMember { name: s(name), value }).collect(),
    )
}

#[test]
fn test_json_accessors() {
    let value = object(vec![
        ("a", JsonValue::Number(1)),
        ("b", JsonValue::String(s("x"))),
        ("a", JsonValue::Number(2)),
        ("c", JsonValue::Bool(true)),
        ("d", JsonValue::Null),
    ]);
    assert!(value.is_object());
    assert!(!value.is_null());
    assert_eq!(value.get("a"), Some(&JsonValue::Number(1)));
    assert_eq!(value.get("a").unwrap().as_i64(), Some(1));
    assert_eq!(value.get("b").unwrap().as_str(), Some("x"));
    assert_eq!(value.get("c").unwrap().as_bool(), Some(true));
    assert!(value.get("d").unwrap().is_null());
    assert_eq!(value.get("e"), None);
    assert_eq!(JsonValue::Number(3).get("a"), None);
    assert_eq!(JsonValue::Null.as_str(), None);
    assert_eq!(JsonValue::Null.as_i64(), None);
    assert_eq!(JsonValue::Null.as_bool(), None);
    assert_eq!(JsonValue::empty_object(), object(vec![]));
}

#[test]
fn test_json_clone_is_deep() {
    let value = object(vec![(
        "list",
        JsonValue::Array(vec![JsonValue::Number(1), object(vec![("k", JsonValue::Null)])]),
    )]);
    assert_eq!(value.clone(), value);
}

#[test]
fn test_name_map_keeps_insertion_order() {
    let mut map = NameMap::new();
    assert!(map.is_empty());
    assert_eq!(map.insert(s("b"), 1), None);
    assert_eq!(map.insert(s("a"), 2), None);
    assert_eq!(map.insert(s("b"), 3), Some(1));
    assert_eq!(map.len(), 2);
    assert_eq!(map.names(), vec![s("b"), s("a")]);
    assert_eq!(map.get("b"), Some(&3));
    assert_eq!(map.get("a"), Some(&2));
    assert_eq!(map.get("c"), None);
    assert_eq!(map.position("a"), Some(1));
    assert_eq!(map.name_at(0), "b");
    assert_eq!(*map.value_at(1), 2);
    *map.value_at_mut(1) = 5;
    assert_eq!(map.get("a"), Some(&5));
    assert!(map.contains_key("a"));
    assert!(!map.contains_key("A"));
}

#[test]
fn test_reference_constructors() {
    match MessageOrRef::component_ref("Order") {
        MessageOrRef::Ref(r) => assert_eq!(r.ref_path, "#/components/messages/Order"),
        MessageOrRef::Message(_) => panic!("expected a reference"),
    }
    let scoped = MessageOrRef::channel_ref("orders", "Created");
    match &scoped {
        MessageOrRef::Ref(r) => assert_eq!(r.ref_path, "#/channels/orders/messages/Created"),
        MessageOrRef::Message(_) => panic!("expected a reference"),
    }
    assert!(!scoped.is_component_ref());
    assert_eq!(scoped.component_name(), None);
    assert!(MessageOrRef::component_ref("Order").is_component_ref());
    assert_eq!(MessageOrRef::component_ref("Order").component_name(), Some("Order"));
    assert_eq!(MessageOrRef::component_ref("").component_name(), Some(""));

    match ChannelBindingsOrRef::component_ref("x") {
        ChannelBindingsOrRef::Ref(r) => assert_eq!(r.ref_path, "#/components/channelBindings/x"),
        _ => panic!("expected a reference"),
    }
    match MessageBindingsOrRef::component_ref("x") {
        MessageBindingsOrRef::Ref(r) => assert_eq!(r.ref_path, "#/components/messageBindings/x"),
        _ => panic!("expected a reference"),
    }
    match MessageTraitOrRef::component_ref("x") {
        MessageTraitOrRef::Ref(r) => assert_eq!(r.ref_path, "#/components/messageTraits/x"),
        _ => panic!("expected a reference"),
    }
    match OperationTraitOrRef::component_ref("x") {
        OperationTraitOrRef::Ref(r) => assert_eq!(r.ref_path, "#/components/operationTraits/x"),
        _ => panic!("expected a reference"),
    }
    match OperationBindingsOrRef::component_ref("x") {
        OperationBindingsOrRef::Ref(r) => assert_eq!(r.ref_path, "#/components/operationBindings/x"),
        _ => panic!("expected a reference"),
    }
    match ChannelBindingsOrRef::bindings(JsonValue::Null) {
        ChannelBindingsOrRef::Bindings(b) => assert!(b.is_null()),
        _ => panic!("expected bindings"),
    }
}

use protofolio::{
    validate_spec, AsyncApiBuilder, AsyncApiSpec, Channel, ChannelReference, Info, JsonMember,
    JsonValue, Message, MessageOrRef, MessagePayload, MessageReference, NameMap, Operation,
    Server, ValidationError,
};

fn s(x: &str) -> String {
    x.to_string()
}

fn text(x: &str) -> JsonValue {
    JsonValue::String(s(x))
}

fn object(members: Vec<(&str, JsonValue)>) -> JsonValue {
    JsonValue::Object(
        members.into_iter().map(|(name, value)| JsonMember { name: s(name), value }).collect(),
    )
}

fn info(title: &str, version: &str) -> Info {
    Info {
        title: s(title),
        version: s(version),
        description: None,
        external_docs: None,
        contact: None,
        license: None,
        terms_of_service: None,
    }
}

fn message(id: Option<&str>) -> Message {
    Message {
        message_id: id.map(s),
        name: None,
        title: None,
        summary: None,
        description: None,
        content_type: None,
        tags: None,
        payload: MessagePayload { schema: object(vec![("type", text("object"))]) },
        external_docs: None,
        examples: None,
        headers: None,
        correlation_id: None,
        traits: None,
        bindings: None,
    }
}

fn channel(address: &str, entries: Vec<(&str, MessageOrRef)>, servers: Option<Vec<String>>) -> Channel {
    let mut messages = NameMap::new();
    for (name, entry) in entries {
        messages.insert(s(name), entry);
    }
    Channel { address: s(address), description: None, messages, servers, parameters: None, bindings: None }
}

fn inline(id: Option<&str>) -> MessageOrRef {
    MessageOrRef::Message(message(id))
}

fn reference(path: &str) -> MessageOrRef {
    MessageOrRef::Ref(MessageReference { ref_path: s(path) })
}

fn server(protocol: &str) -> Server {
    Server {
        url: format!("{}://localhost", protocol),
        protocol: s(protocol),
        description: None,
        security: None,
        variables: None,
    }
}

fn operation(id: &str, channel_path: &str, message_paths: Vec<&str>) -> Operation {
    Operation {
        operation_id: s(id),
        action: s("send"),
        channel: ChannelReference { ref_path: s(channel_path) },
        messages: message_paths.into_iter().map(|p| MessageReference { ref_path: s(p) }).collect(),
        summary: None,
        description: None,
        tags: None,
        external_docs: None,
        traits: None,
        bindings: None,
    }
}

fn with_operation(mut spec: AsyncApiSpec, key: &str, op: Operation) -> AsyncApiSpec {
    let mut operations = spec.operations.take().unwrap_or_else(NameMap::new);
    operations.insert(s(key), op);
    spec.operations = Some(operations);
    spec
}

fn valid_base() -> AsyncApiBuilder {
    AsyncApiBuilder::new()
        .info(info("T", "1.0.0"))
        .channel(s("events"), channel("events", vec![("Event", inline(Some("event-v1")))], None))
}

fn invalid_schema(text: &str) -> Result<(), ValidationError> {
    Err(ValidationError::InvalidSchema(s(text)))
}

#[test]
fn test_validate_valid_spec() {
    let spec = AsyncApiBuilder::new()
        .info(info("Test API", "1.0.0"))
        .channel(
            "test.channel".to_string(),
            channel("test.channel", vec![("TestMessage", inline(None))], None),
        )
        .build();

    assert!(validate_spec(&spec).is_ok());
}

#[test]
fn test_validate_missing_title() {
    let spec = AsyncApiBuilder::new().info(info("", "1.0.0")).build();

    assert!(matches!(validate_spec(&spec), Err(ValidationError::MissingRequiredField(_))));
    assert_eq!(validate_spec(&spec), Err(ValidationError::MissingRequiredField(s("info.title"))));
}

#[test]
fn test_validate_missing_version() {
    let spec = AsyncApiBuilder::new().info(info("T", "")).build();
    assert_eq!(validate_spec(&spec), Err(ValidationError::MissingRequiredField(s("info.version"))));
}

#[test]
fn test_validate_wrong_asyncapi_version() {
    let mut spec = valid_base().build();
    spec.asyncapi = s("2.6.0");
    assert_eq!(validate_spec(&spec), Err(ValidationError::InvalidAsyncApiVersion(s("2.6.0"))));
    spec.asyncapi = s("3.0.0");
    assert_eq!(validate_spec(&spec), Ok(()));
}

#[test]
fn test_validate_empty_channels() {
    let spec = AsyncApiBuilder::new().info(info("Test", "1.0.0")).build();

    assert!(matches!(validate_spec(&spec), Err(ValidationError::EmptyChannels)));
}

#[test]
fn test_validate_invalid_server_reference() {
    let spec = AsyncApiBuilder::new()
        .info(info("Test", "1.0.0"))
        .channel(
            "test.channel".to_string(),
            channel(
                "test.channel",
                vec![("TestMessage", inline(None))],
                Some(vec!["nonexistent".to_string()]),
            ),
        )
        .build();

    assert!(matches!(validate_spec(&spec), Err(ValidationError::InvalidServerReference(_))));
}

#[test]
fn test_validate_channel_without_messages() {
    let spec = AsyncApiBuilder::new()
        .info(info("Test", "1.0.0"))
        .channel("test.channel".to_string(), channel("empty.channel", vec![], None))
        .build();

    assert!(matches!(validate_spec(&spec), Err(ValidationError::ChannelWithoutMessages(_))));
    assert_eq!(
        validate_spec(&spec),
        Err(ValidationError::ChannelWithoutMessages(s("test.channel")))
    );
}

#[test]
fn test_validate_duplicate_message_ids() {
    let spec = AsyncApiBuilder::new()
        .info(info("Test", "1.0.0"))
        .channel(
            "test.channel".to_string(),
            channel(
                "test.channel",
                vec![
                    ("Message1", inline(Some("duplicate-id"))),
                    ("Message2", inline(Some("duplicate-id"))),
                ],
                None,
            ),
        )
        .build();

    assert!(matches!(validate_spec(&spec), Err(ValidationError::DuplicateMessageId(_))));
}

#[test]
fn test_validate_component_message_ref() {
    let mut common = message(Some("common-v1"));
    common.name = Some(s("CommonMessage"));
    let spec = AsyncApiBuilder::new()
        .info(info("Test", "1.0.0"))
        .component_message("CommonMessage".to_string(), common)
        .channel(
            "test.channel".to_string(),
            channel(
                "common.channel",
                vec![("CommonMessage", MessageOrRef::component_ref("CommonMessage"))],
                None,
            ),
        )
        .build();

    assert!(validate_spec(&spec).is_ok());
}

#[test]
fn test_validate_invalid_component_ref() {
    let spec = AsyncApiBuilder::new()
        .info(info("Test", "1.0.0"))
        .channel(
            "test.channel".to_string(),
            channel(
                "ref.channel",
                vec![("NonExistent", MessageOrRef::component_ref("NonExistent"))],
                None,
            ),
        )
        .build();

    assert!(matches!(validate_spec(&spec), Err(ValidationError::InvalidSchema(_))));
}

#[test]
fn test_validate_operation_with_component_ref() {
    let mut component = message(Some("component-v1"));
    component.name = Some(s("ComponentMsg"));
    let spec = AsyncApiBuilder::new()
        .info(info("Test", "1.0.0"))
        .component_message("ComponentMsg".to_string(), component)
        .channel(
            "test.channel".to_string(),
            channel("test.channel", vec![("InlineMessage", inline(None))], None),
        )
        .build();

    let spec = with_operation(
        spec,
        "testOp",
        operation(
            "test-operation",
            "#/channels/test.channel",
            vec!["#/components/messages/ComponentMsg"],
        ),
    );

    assert!(validate_spec(&spec).is_ok());
}

#[test]
fn test_info_only_document_has_no_channels() {
    let spec = AsyncApiBuilder::new().info(info("T", "1.0.0")).build();
    assert_eq!(validate_spec(&spec), Err(ValidationError::EmptyChannels));
}

#[test]
fn test_one_channel_with_one_inline_message_passes() {
    let spec = AsyncApiBuilder::new()
        .info(info("T", "1.0.0"))
        .channel(s("events"), channel("events", vec![], None))
        .channel_message(s("events"), s("Event"), message(None))
        .build();
    assert_eq!(validate_spec(&spec), Ok(()));
}

#[test]
fn test_same_id_in_second_channel_is_reported() {
    let spec = valid_base()
        .channel(s("other"), channel("other", vec![("Again", inline(Some("event-v1")))], None))
        .build();
    assert_eq!(
        validate_spec(&spec),
        Err(ValidationError::DuplicateMessageId(s(
            "Message ID 'event-v1' is used by multiple messages. Each message must have a unique messageId. Found in channel 'other', message 'Again'"
        )))
    );
}

#[test]
fn test_server_never_added_is_reported_by_name() {
    let spec = AsyncApiBuilder::new()
        .info(info("T", "1.0.0"))
        .channel(
            s("events"),
            channel("events", vec![("Event", inline(None))], Some(vec![s("prod")])),
        )
        .build();
    assert_eq!(
        validate_spec(&spec),
        Err(ValidationError::InvalidServerReference(s(
            "prod: No servers defined. Add servers(...) to your #[asyncapi] attribute. Referenced server: 'prod'"
        )))
    );
}

#[test]
fn test_unknown_server_lists_the_defined_ones() {
    let spec = AsyncApiBuilder::new()
        .info(info("T", "1.0.0"))
        .server(s("staging"), server("nats"))
        .server(s("dev"), server("kafka"))
        .channel(
            s("events"),
            channel("events", vec![("Event", inline(None))], Some(vec![s("dev"), s("prod")])),
        )
        .build();
    assert_eq!(
        validate_spec(&spec),
        Err(ValidationError::InvalidServerReference(s(
            "prod: Server 'prod' not found. Available servers: [\"staging\", \"dev\"]. Update your channel's server reference or add the server in servers(...)"
        )))
    );
}

#[test]
fn test_known_servers_are_accepted() {
    let spec = AsyncApiBuilder::new()
        .info(info("T", "1.0.0"))
        .server(s("prod"), server("nats"))
        .channel(
            s("events"),
            channel("events", vec![("Event", inline(None))], Some(vec![s("prod")])),
        )
        .build();
    assert_eq!(validate_spec(&spec), Ok(()));
}

#[test]
fn test_null_schema_is_reported() {
    let mut broken = message(None);
    broken.payload.schema = JsonValue::Null;
    let spec = AsyncApiBuilder::new()
        .info(info("T", "1.0.0"))
        .channel(s("c"), channel("c", vec![("M", MessageOrRef::Message(broken))], None))
        .build();
    assert_eq!(validate_spec(&spec), invalid_schema("Message 'M' in channel 'c' has null schema"));
}

#[test]
fn test_component_null_schema_is_reported() {
    let mut broken = message(None);
    broken.payload.schema = JsonValue::Null;
    let spec = valid_base().component_message(s("Broken"), broken).build();
    assert_eq!(validate_spec(&spec), invalid_schema("Component message 'Broken' has null schema"));
}

#[test]
fn test_duplicate_between_channel_and_component() {
    let spec = valid_base().component_message(s("Shared"), message(Some("event-v1"))).build();
    assert_eq!(
        validate_spec(&spec),
        Err(ValidationError::DuplicateMessageId(s(
            "Message ID 'event-v1' is used by multiple messages. Found in component message 'Shared'"
        )))
    );
}

#[test]
fn test_distinct_ids_are_accepted() {
    let spec = valid_base()
        .channel(s("other"), channel("other", vec![("B", inline(Some("b-v1")))], None))
        .component_message(s("C"), message(Some("c-v1")))
        .component_message(s("D"), message(None))
        .build();
    assert_eq!(validate_spec(&spec), Ok(()));
}

#[test]
fn test_component_reference_texts() {
    let refers = |b: AsyncApiBuilder| {
        b.channel(s("c"), channel("c", vec![("M", MessageOrRef::component_ref("X"))], None))
    };
    let base = || AsyncApiBuilder::new().info(info("T", "1.0.0"));

    assert_eq!(
        validate_spec(&refers(base()).build()),
        invalid_schema(
            "Message 'M' in channel 'c' references component 'X' but no components section is defined"
        )
    );
    assert_eq!(
        validate_spec(&refers(base().component_schema(s("S"), JsonValue::Bool(true))).build()),
        invalid_schema(
            "Message 'M' in channel 'c' references component 'X' but no components.messages are defined"
        )
    );
    assert_eq!(
        validate_spec(&refers(base().component_message(s("Y"), message(None))).build()),
        invalid_schema(
            "Message 'M' in channel 'c' references component 'X' which does not exist in components.messages"
        )
    );
    assert_eq!(
        validate_spec(&refers(base().component_message(s("X"), message(None))).build()),
        Ok(())
    );
}

#[test]
fn test_channel_reference_resolution() {
    let build = |path: &str| {
        valid_base()
            .channel(s("second"), channel("second", vec![("R", reference(path))], None))
            .build()
    };
    assert_eq!(validate_spec(&build("#/channels/events/messages/Event")), Ok(()));
    assert_eq!(
        validate_spec(&build("#/channels/events/messages/Other")),
        invalid_schema(
            "Message 'R' in channel 'second' references message 'Other' in channel 'events' which does not exist"
        )
    );
    assert_eq!(
        validate_spec(&build("#/channels/nowhere/messages/Event")),
        invalid_schema(
            "Message 'R' in channel 'second' references channel 'nowhere' which does not exist"
        )
    );
    assert_eq!(validate_spec(&build("#/channels/second/messages/R")), Ok(()));
}

#[test]
fn test_channel_reference_splits_at_first_separator() {
    let spec = valid_base()
        .channel(
            s("größe"),
            channel(
                "größe",
                vec![
                    ("a/messages/b", inline(None)),
                    ("R", reference("#/channels/größe/messages/a/messages/b")),
                    ("S", reference("#/channels/größe/messages/R")),
                ],
                None,
            ),
        )
        .build();
    assert_eq!(validate_spec(&spec), Ok(()));

    let spec = valid_base()
        .channel(s("second"), channel("second", vec![("R", reference("#/channels//messages/x"))], None))
        .build();
    assert_eq!(
        validate_spec(&spec),
        invalid_schema("Message 'R' in channel 'second' references channel '' which does not exist")
    );
}

#[test]
fn test_reference_of_another_shape_is_invalid() {
    let build = |path: &str| {
        valid_base()
            .channel(s("second"), channel("second", vec![("R", reference(path))], None))
            .build()
    };
    assert_eq!(
        validate_spec(&build("#/definitions/Event")),
        invalid_schema(
            "Invalid message reference format in channel 'second', message 'R': #/definitions/Event. Expected '#/components/messages/...' or '#/channels/.../messages/...'"
        )
    );
    assert!(matches!(
        validate_spec(&build("#/channels/events")),
        Err(ValidationError::InvalidSchema(_))
    ));
    assert!(matches!(validate_spec(&build("")), Err(ValidationError::InvalidSchema(_))));
}

#[test]
fn test_operation_channel_reference_prefix() {
    let spec = with_operation(valid_base().build(), "op", operation("op", "events", vec![]));
    assert_eq!(validate_spec(&spec), Err(ValidationError::InvalidChannelReference(s("events"))));
}

#[test]
fn test_operation_message_reference_shapes() {
    let build = |path: &str| {
        with_operation(valid_base().build(), "op", operation("op", "#/channels/events", vec![path]))
    };
    assert_eq!(validate_spec(&build("#/channels/events/messages/Event")), Ok(()));
    assert_eq!(
        validate_spec(&build("Event")),
        invalid_schema(
            "Invalid message reference format in operation 'op': Event. Expected '#/channels/.../messages/...' or '#/components/messages/...'"
        )
    );
    assert_eq!(
        validate_spec(&build("#/components/messages/Event")),
        invalid_schema(
            "Operation 'op' references component message 'Event' but no components section is defined"
        )
    );
}

#[test]
fn test_first_violation_wins() {
    let spec = AsyncApiBuilder::new()
        .info(info("", "1.0.0"))
        .channel(s("empty"), channel("empty", vec![], Some(vec![s("prod")])))
        .build();
    assert_eq!(validate_spec(&spec), Err(ValidationError::MissingRequiredField(s("info.title"))));

    let spec = AsyncApiBuilder::new()
        .info(info("T", "1.0.0"))
        .channel(s("ok"), channel("ok", vec![("M", inline(None))], None))
        .channel(s("empty"), channel("empty", vec![], Some(vec![s("prod")])))
        .channel(s("late"), channel("late", vec![("N", inline(None))], Some(vec![s("prod")])))
        .build();
    assert_eq!(validate_spec(&spec), Err(ValidationError::ChannelWithoutMessages(s("empty"))));
}

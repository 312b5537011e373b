use protofolio::{
    validate_spec, AsyncApi, AsyncApiBuilder, AsyncApiSpec, Channel, Info, JsonMember, JsonValue,
    Message, MessageOrRef, MessagePayload, NameMap, SchemaError, ValidationError,
};

fn s(x: &str) -> String {
    x.to_string()
}

fn text(x: &str) -> JsonValue {
    JsonValue::String(s(x))
}

fn object(members: Vec<(&str, JsonValue)>) -> JsonValue {
    JsonValue::Object(
        members.into_iter().map(|(name, value)| JsonMember { name: s(name), value }).collect(),
    )
}

fn info(title: &str, version: &str) -> Info {
    Info {
        title: s(title),
        version: s(version),
        description: None,
        external_docs: None,
        contact: None,
        license: None,
        terms_of_service: None,
    }
}

fn message(id: Option<&str>) -> Message {
    Message {
        message_id: id.map(s),
        name: None,
        title: None,
        summary: None,
        description: None,
        content_type: None,
        tags: None,
        payload: MessagePayload { schema: object(vec![("type", text("object"))]) },
        external_docs: None,
        examples: None,
        headers: None,
        correlation_id: None,
        traits: None,
        bindings: None,
    }
}

fn channel(address: &str, entries: Vec<(&str, MessageOrRef)>, servers: Option<Vec<String>>) -> Channel {
    let mut messages = NameMap::new();
    for (name, entry) in entries {
        messages.insert(s(name), entry);
    }
    Channel { address: s(address), description: None, messages, servers, parameters: None, bindings: None }
}

struct TestAsyncApi;

impl AsyncApi for TestAsyncApi {
    fn asyncapi() -> AsyncApiSpec {
        let mut test_message = message(Some("test-message-v1"));
        test_message.name = Some(s("TestMessage"));
        AsyncApiBuilder::new()
            .info(info("Test API", "1.0.0"))
            .channel(
                s("test.channel"),
                channel(
                    "test.channel",
                    vec![("TestMessage", MessageOrRef::Message(test_message))],
                    None,
                ),
            )
            .build()
    }
}

struct BrokenApi;

impl AsyncApi for BrokenApi {
    fn asyncapi() -> AsyncApiSpec {
        AsyncApiBuilder::new().info(info("Broken", "1.0.0")).build()
    }
}

#[test]
fn error_handling_tests_test_try_asyncapi_success() {
    let result = TestAsyncApi::try_asyncapi();
    assert!(result.is_ok());

    let spec = result.unwrap();
    assert_eq!(spec.info.title, "Test API");
    assert_eq!(spec.info.version, "1.0.0");
    assert!(spec.channels.contains_key("test.channel"));
}

#[test]
fn error_handling_tests_test_try_asyncapi_matches_asyncapi() {
    let spec1 = TestAsyncApi::asyncapi();
    let spec2 = TestAsyncApi::try_asyncapi().unwrap();

    assert_eq!(spec1.info.title, spec2.info.title);
    assert_eq!(spec1.info.version, spec2.info.version);
    assert_eq!(spec1.asyncapi, spec2.asyncapi);
    assert_eq!(spec1.channels.len(), spec2.channels.len());
}

#[test]
fn test_try_asyncapi_reports_the_violation() {
    assert_eq!(BrokenApi::try_asyncapi().err(), Some(ValidationError::EmptyChannels));
}

#[test]
fn test_validation_error_on_invalid_spec() {
    let invalid_spec = AsyncApiBuilder::new().info(info("Test", "1.0.0")).build();

    let result = validate_spec(&invalid_spec);
    assert!(result.is_err());

    if let Err(ValidationError::EmptyChannels) = result {
        // Expected error
    } else {
        panic!("Expected EmptyChannels error, got: {:?}", result);
    }
}

#[test]
fn test_validation_error_channel_without_messages() {
    let invalid_spec = AsyncApiBuilder::new()
        .info(info("Test", "1.0.0"))
        .channel("empty.channel".to_string(), channel("empty.channel", vec![], None))
        .build();

    let result = validate_spec(&invalid_spec);
    assert!(result.is_err());

    if let Err(ValidationError::ChannelWithoutMessages(_)) = result {
        // Expected error
    } else {
        panic!("Expected ChannelWithoutMessages error, got: {:?}", result);
    }
}

#[test]
fn test_validation_error_duplicate_message_id() {
    let invalid_spec = AsyncApiBuilder::new()
        .info(info("Test", "1.0.0"))
        .channel(
            "channel1".to_string(),
            channel(
                "channel1",
                vec![("Message1", MessageOrRef::Message(message(Some("duplicate-id"))))],
                None,
            ),
        )
        .channel(
            "channel2".to_string(),
            channel(
                "channel2",
                vec![("Message2", MessageOrRef::Message(message(Some("duplicate-id"))))],
                None,
            ),
        )
        .build();

    let result = validate_spec(&invalid_spec);
    assert!(result.is_err());

    if let Err(ValidationError::DuplicateMessageId(_)) = result {
        // Expected error
    } else {
        panic!("Expected DuplicateMessageId error, got: {:?}", result);
    }
}

#[test]
fn test_error_message_quality() {
    let invalid_spec = AsyncApiBuilder::new().info(info("Test", "1.0.0")).build();

    let result = validate_spec(&invalid_spec);
    assert!(result.is_err());

    let error_msg = result.unwrap_err().to_string();
    assert!(error_msg.contains("Empty channels"));
    assert!(error_msg.contains("specification must have at least one channel"));
}

#[test]
fn test_error_texts() {
    assert_eq!(
        ValidationError::MissingRequiredField(s("info.title")).to_string(),
        "Missing required field: info.title\n\nHint: Add the missing field to your #[asyncapi] attribute. For info fields, use info(title = \"...\", version = \"...\")"
    );
    assert_eq!(
        ValidationError::InvalidAsyncApiVersion(s("2.0.0")).to_string(),
        "Invalid AsyncAPI version: 2.0.0. Expected 3.0.0\n\nHint: This library only supports AsyncAPI 3.0.0. The version field is automatically set and should not be modified"
    );
    assert_eq!(
        ValidationError::InvalidChannelReference(s("x")).to_string(),
        "Channel 'x' referenced in message but not defined in channels\n\nHint: Add 'x' to the channels(...) list in your #[asyncapi] attribute"
    );
    assert_eq!(
        ValidationError::ChannelWithoutMessages(s("c")).to_string(),
        "Channel 'c' has no messages\n\nHint: Add at least one message type to messages(...) in your #[asyncapi] attribute that uses this channel"
    );
    assert_eq!(
        ValidationError::UnsupportedProtocol { protocol: s("amqp"), supported: vec![s("nats"), s("kafka")] }
            .to_string(),
        "Unsupported protocol: amqp\n\nHint: Supported protocols: [\"nats\", \"kafka\"]. Enable the corresponding feature flag (e.g., `features = [\"nats\"]`) in your Cargo.toml"
    );
    assert_eq!(
        ValidationError::SchemaGenerationFailed(s("T"), s("boom")).to_string(),
        "Schema generation failed for type 'T': boom\n\nHint: Ensure the type implements JsonSchema (usually via #[derive(JsonSchema)]) and all nested types also implement JsonSchema"
    );
    assert_eq!(
        ValidationError::MessageNotFound { channel: s("c"), message: s("m") }.to_string(),
        "Message 'm' not found in channel 'c'\n\nHint: Ensure the message type is included in messages(...) in your #[asyncapi] attribute and uses the correct channel"
    );
    assert!(ValidationError::InvalidServerReference(s("p")).to_string().starts_with("Server 'p' referenced"));
    assert!(ValidationError::InvalidSchema(s("p")).to_string().starts_with("Invalid schema: p\n"));
    assert!(ValidationError::DuplicateMessageId(s("p")).to_string().starts_with("Duplicate message ID: p\n"));
    assert!(ValidationError::InvalidProtocol(s("p")).to_string().starts_with("Invalid protocol: p\n"));
    assert_eq!(
        SchemaError::Serialization(s("bad")).to_string(),
        "Failed to serialize schema to JSON: bad\n\nHint: This is typically an internal error. Ensure your types are properly serializable"
    );
}

use protofolio::{
    validate_spec, AsyncApi, AsyncApiBuilder, AsyncApiOperation, AsyncApiSpec, Channel, Contact,
    ExternalDocumentation, Info, JsonMember, JsonValue, License, Message, MessageOrRef,
    MessagePayload, NameMap, Server, ServerVariable, Tag,
};

fn s(x: &str) -> String {
    x.to_string()
}

fn text(x: &str) -> JsonValue {
    JsonValue::String(s(x))
}

fn object(members: Vec<(&str, JsonValue)>) -> JsonValue {
    JsonValue::Object(
        members.into_iter().map(|(name, value)| JsonMember { name: s(name), value }).collect(),
    )
}

fn info(title: &str, version: &str) -> Info {
    Info {
        title: s(title),
        version: s(version),
        description: None,
        external_docs: None,
        contact: None,
        license: None,
        terms_of_service: None,
    }
}

fn message(id: Option<&str>) -> Message {
    Message {
        message_id: id.map(s),
        name: None,
        title: None,
        summary: None,
        description: None,
        content_type: None,
        tags: None,
        payload: MessagePayload { schema: object(vec![("type", text("object"))]) },
        external_docs: None,
        examples: None,
        headers: None,
        correlation_id: None,
        traits: None,
        bindings: None,
    }
}

fn channel(address: &str, entries: Vec<(&str, MessageOrRef)>, servers: Option<Vec<String>>) -> Channel {
    let mut messages = NameMap::new();
    for (name, entry) in entries {
        messages.insert(s(name), entry);
    }
    Channel { address: s(address), description: None, messages, servers, parameters: None, bindings: None }
}

fn tag(name: &str) -> Tag {
    Tag { name: s(name), description: None }
}

fn test_message() -> Message {
    let mut m = message(Some("test-message-v1"));
    m.name = Some(s("TestMessage"));
    m.title = Some(s("Test Message"));
    m.summary = Some(s("A test message"));
    m.description = Some(s("This is a test message for integration testing"));
    m.content_type = Some(s("application/json"));
    m.tags = Some(vec![tag("test"), tag("integration")]);
    m
}

fn simple_message() -> Message {
    let mut m = message(None);
    m.summary = Some(s("Simple message"));
    m
}

fn nats_server(url: &str) -> Server {
    Server { url: s(url), protocol: s("nats"), description: None, security: None, variables: None }
}

fn two_channels(title: &str, description: &str) -> AsyncApiBuilder {
    let mut about = info(title, "1.0.0");
    about.description = Some(s(description));
    AsyncApiBuilder::new()
        .info(about)
        .server(s("nats"), nats_server("nats://localhost:4222"))
        .channel(s("test.channel"), channel("test.channel", vec![], None))
        .channel(s("simple.channel"), channel("simple.channel", vec![], None))
        .channel_message(s("test.channel"), s("TestMessage"), test_message())
        .channel_message(s("simple.channel"), s("SimpleMessage"), simple_message())
}

fn one_channel(about: Info) -> AsyncApiBuilder {
    AsyncApiBuilder::new()
        .info(about)
        .channel(s("test.channel"), channel("test.channel", vec![], None))
        .channel_message(s("test.channel"), s("TestMessage"), test_message())
}

struct TestAsyncApi;

impl AsyncApi for TestAsyncApi {
    fn asyncapi() -> AsyncApiSpec {
        two_channels("Test AsyncAPI", "Test AsyncAPI specification for integration tests").build()
    }
}

struct TestAsyncApiWithVariables;

impl AsyncApi for TestAsyncApiWithVariables {
    fn asyncapi() -> AsyncApiSpec {
        let mut variables = NameMap::new();
        variables.insert(
            s("host"),
            ServerVariable {
                enum_values: None,
                default: Some(s("localhost")),
                description: Some(s("Server hostname")),
                examples: None,
            },
        );
        variables.insert(
            s("port"),
            ServerVariable {
                enum_values: Some(vec![s("4222"), s("4223"), s("4224")]),
                default: Some(s("4222")),
                description: Some(s("Server port")),
                examples: None,
            },
        );
        let mut server = nats_server("nats://{host}:{port}");
        server.variables = Some(variables);
        one_channel(info("Test AsyncAPI with Variables", "1.0.0")).server(s("nats"), server).build()
    }
}

struct PublishTestMessage;

impl AsyncApiOperation for PublishTestMessage {
    fn operation_id() -> &'static str {
        "publish-test-message"
    }

    fn action() -> &'static str {
        "send"
    }

    fn channel() -> &'static str {
        "test.channel"
    }

    fn message_types() -> &'static [&'static str] {
        &["TestMessage"]
    }

    fn message_names() -> Vec<String> {
        vec![s("TestMessage")]
    }

    fn summary() -> Option<&'static str> {
        Some("Publish test message")
    }

    fn description() -> Option<&'static str> {
        Some("Publishes a test message to the test channel")
    }

    fn tags() -> Option<Vec<Tag>> {
        Some(vec![tag("test"), tag("publish")])
    }
}

struct SubscribeSimpleMessage;

impl AsyncApiOperation for SubscribeSimpleMessage {
    fn operation_id() -> &'static str {
        "subscribe-simple-message"
    }

    fn action() -> &'static str {
        "receive"
    }

    fn channel() -> &'static str {
        "simple.channel"
    }

    fn message_types() -> &'static [&'static str] {
        &["SimpleMessage"]
    }

    fn message_names() -> Vec<String> {
        vec![s("SimpleMessage")]
    }

    fn summary() -> Option<&'static str> {
        Some("Subscribe to simple messages")
    }

    fn description() -> Option<&'static str> {
        None
    }

    fn tags() -> Option<Vec<Tag>> {
        None
    }
}

struct TestAsyncApiWithOperations;

impl AsyncApi for TestAsyncApiWithOperations {
    fn asyncapi() -> AsyncApiSpec {
        let mut spec = two_channels(
            "Test AsyncAPI with Operations",
            "Test AsyncAPI specification with operations",
        )
        .build();
        let mut operations = NameMap::new();
        operations.insert(s(PublishTestMessage::operation_id()), PublishTestMessage::to_operation());
        operations.insert(
            s(SubscribeSimpleMessage::operation_id()),
            SubscribeSimpleMessage::to_operation(),
        );
        spec.operations = Some(operations);
        spec
    }
}

struct TestAsyncApiWithTags;

impl AsyncApi for TestAsyncApiWithTags {
    fn asyncapi() -> AsyncApiSpec {
        one_channel(info("Test API with Tags", "1.0.0"))
            .tags(vec![
                Tag { name: s("orders"), description: Some(s("Order-related operations")) },
                Tag { name: s("events"), description: Some(s("Event notifications")) },
                tag("users"),
            ])
            .build()
    }
}

#[test]
fn test_asyncapi_derive() {
    let spec = TestAsyncApi::asyncapi();
    assert_eq!(spec.asyncapi, "3.0.0");
    assert_eq!(spec.info.title, "Test AsyncAPI");
    assert_eq!(spec.info.version, "1.0.0");
}

#[test]
fn test_asyncapi_has_channels() {
    let spec = TestAsyncApi::asyncapi();
    assert!(spec.channels.contains_key("test.channel"));
    assert!(spec.channels.contains_key("simple.channel"));
}

#[test]
fn test_asyncapi_has_servers() {
    let spec = TestAsyncApi::asyncapi();
    assert!(spec.servers.is_some());
    let servers = spec.servers.as_ref().unwrap();
    assert!(servers.contains_key("nats"));
    assert_eq!(servers.get("nats").unwrap().url, "nats://localhost:4222");
}

#[test]
fn test_asyncapi_server_variables() {
    let spec = TestAsyncApiWithVariables::asyncapi();
    assert!(spec.servers.is_some());
    let servers = spec.servers.as_ref().unwrap();
    assert!(servers.contains_key("nats"));
    let server = servers.get("nats").unwrap();
    assert_eq!(server.url, "nats://{host}:{port}");
    assert!(server.variables.is_some());
    let vars = server.variables.as_ref().unwrap();
    assert!(vars.contains_key("host"));
    assert!(vars.contains_key("port"));
    assert_eq!(vars.get("host").unwrap().default, Some("localhost".to_string()));
    assert_eq!(vars.get("host").unwrap().description, Some("Server hostname".to_string()));
    assert_eq!(vars.get("port").unwrap().default, Some("4222".to_string()));
    assert_eq!(vars.get("port").unwrap().description, Some("Server port".to_string()));
    assert_eq!(
        vars.get("port").unwrap().enum_values,
        Some(vec!["4222".to_string(), "4223".to_string(), "4224".to_string()])
    );
}

#[test]
fn test_validate_spec() {
    let spec = TestAsyncApi::asyncapi();
    assert!(validate_spec(&spec).is_ok());
}

#[test]
fn test_operation_derive() {
    assert_eq!(PublishTestMessage::operation_id(), "publish-test-message");
    assert_eq!(PublishTestMessage::action(), "send");
    assert_eq!(PublishTestMessage::channel(), "test.channel");
    assert_eq!(PublishTestMessage::summary(), Some("Publish test message"));
    assert_eq!(
        PublishTestMessage::description(),
        Some("Publishes a test message to the test channel")
    );

    let tags = PublishTestMessage::tags().unwrap();
    assert_eq!(tags.len(), 2);
    assert!(tags.contains(&Tag { name: "test".to_string(), description: None }));
}

#[test]
fn test_operation_message_types() {
    let message_types = PublishTestMessage::message_types();
    assert_eq!(message_types.len(), 1);
    assert_eq!(message_types[0], "TestMessage");

    let message_names = PublishTestMessage::message_names();
    assert_eq!(message_names.len(), 1);
    assert_eq!(message_names[0], "TestMessage");
}

#[test]
fn test_operation_to_operation() {
    let operation = PublishTestMessage::to_operation();
    assert_eq!(operation.action, "send");
    assert_eq!(operation.channel.ref_path, "#/channels/test.channel");
    assert_eq!(operation.messages.len(), 1);
    assert_eq!(operation.messages[0].ref_path, "#/channels/test.channel/messages/TestMessage");
    assert_eq!(operation.summary, Some("Publish test message".to_string()));
    assert!(operation.tags.is_some());
    assert!(operation.external_docs.is_none());
}

#[test]
fn test_asyncapi_with_operations() {
    let spec = TestAsyncApiWithOperations::asyncapi();
    assert!(spec.operations.is_some());
    let operations = spec.operations.as_ref().unwrap();

    assert!(operations.contains_key("publish-test-message"));
    assert!(operations.contains_key("subscribe-simple-message"));

    let publish_op = operations.get("publish-test-message").unwrap();
    assert_eq!(publish_op.action, "send");
    assert_eq!(publish_op.channel.ref_path, "#/channels/test.channel");

    let subscribe_op = operations.get("subscribe-simple-message").unwrap();
    assert_eq!(subscribe_op.action, "receive");
    assert_eq!(subscribe_op.channel.ref_path, "#/channels/simple.channel");
}

#[test]
fn test_operation_with_tags() {
    let operation = PublishTestMessage::to_operation();
    assert!(operation.tags.is_some());
    let tags = operation.tags.as_ref().unwrap();
    assert_eq!(tags.len(), 2);
    assert!(tags.iter().any(|t| t.name == "test"));
    assert!(tags.iter().any(|t| t.name == "publish"));
}

#[test]
fn test_operation_without_optional_fields() {
    let operation = SubscribeSimpleMessage::to_operation();
    assert_eq!(operation.action, "receive");
    assert_eq!(operation.summary, Some("Subscribe to simple messages".to_string()));
    assert!(operation.description.is_none());
    assert!(operation.tags.is_none());
}

#[test]
fn integration_test_test_try_asyncapi_success() {
    let result = TestAsyncApi::try_asyncapi();
    assert!(result.is_ok());

    let spec = result.unwrap();
    assert_eq!(spec.asyncapi, "3.0.0");
    assert_eq!(spec.info.title, "Test AsyncAPI");
    assert_eq!(spec.info.version, "1.0.0");
}

#[test]
fn integration_test_test_try_asyncapi_matches_asyncapi() {
    let spec1 = TestAsyncApi::asyncapi();
    let spec2 = TestAsyncApi::try_asyncapi().unwrap();

    assert_eq!(spec1.asyncapi, spec2.asyncapi);
    assert_eq!(spec1.info.title, spec2.info.title);
    assert_eq!(spec1.info.version, spec2.info.version);
    assert_eq!(spec1.channels.len(), spec2.channels.len());
    let mut keys1: Vec<_> = spec1.channels.names();
    let mut keys2: Vec<_> = spec2.channels.names();
    keys1.sort();
    keys2.sort();
    assert_eq!(keys1, keys2);
}

#[test]
fn test_try_asyncapi_with_operations() {
    let result = TestAsyncApiWithOperations::try_asyncapi();
    assert!(result.is_ok());

    let spec = result.unwrap();
    assert!(spec.operations.is_some());
    let operations = spec.operations.as_ref().unwrap();
    assert!(operations.contains_key("publish-test-message"));
    assert!(operations.contains_key("subscribe-simple-message"));
}

#[test]
fn test_try_asyncapi_error_recovery() {
    let result = TestAsyncApi::try_asyncapi();

    match result {
        Ok(spec) => {
            assert_eq!(spec.info.title, "Test AsyncAPI");
            let validation_result = validate_spec(&spec);
            assert!(validation_result.is_ok(), "Generated spec should be valid");
        }
        Err(e) => {
            let error_msg = e.to_string();
            assert!(!error_msg.is_empty());
            panic!(
                "try_asyncapi() should succeed for valid TestAsyncApi, got error: {}",
                error_msg
            );
        }
    }
}

#[test]
fn test_channel_address_field() {
    let spec = TestAsyncApi::asyncapi();
    let channel = spec.channels.get("test.channel").unwrap();

    assert_eq!(channel.address, "test.channel");
}

#[test]
fn test_info_contact_license_terms() {
    let mut about = info("Info Fields Test API", "1.0.0");
    about.description = Some(s("Test API with contact, license, and terms of service"));
    about.contact = Some(Contact {
        name: Some(s("API Support")),
        email: Some(s("support@example.com")),
        url: Some(s("https://example.com/contact")),
    });
    about.license = Some(License {
        name: s("Apache 2.0"),
        url: Some(s("https://www.apache.org/licenses/LICENSE-2.0")),
    });
    about.terms_of_service = Some(s("https://example.com/terms"));
    let spec = one_channel(about).build();

    assert!(spec.info.contact.is_some());
    let contact = spec.info.contact.as_ref().unwrap();
    assert_eq!(contact.name, Some("API Support".to_string()));
    assert_eq!(contact.email, Some("support@example.com".to_string()));
    assert_eq!(contact.url, Some("https://example.com/contact".to_string()));

    assert!(spec.info.license.is_some());
    let license = spec.info.license.as_ref().unwrap();
    assert_eq!(license.name, "Apache 2.0");
    assert_eq!(license.url, Some("https://www.apache.org/licenses/LICENSE-2.0".to_string()));

    assert_eq!(spec.info.terms_of_service, Some("https://example.com/terms".to_string()));
}

#[test]
fn test_info_optional_fields() {
    let mut about = info("Minimal Info API", "1.0.0");
    about.contact = Some(Contact { name: Some(s("Support")), email: None, url: None });
    let spec = one_channel(about).build();

    assert!(spec.info.contact.is_some());
    let contact = spec.info.contact.as_ref().unwrap();
    assert_eq!(contact.name, Some("Support".to_string()));
    assert!(contact.email.is_none());
    assert!(contact.url.is_none());

    assert!(spec.info.license.is_none());
    assert!(spec.info.terms_of_service.is_none());
}

#[test]
fn test_operation_id_field() {
    let spec = TestAsyncApiWithOperations::asyncapi();
    let operations = spec.operations.as_ref().unwrap();

    let publish_op = operations.get("publish-test-message").unwrap();
    assert_eq!(publish_op.operation_id, "publish-test-message");

    let subscribe_op = operations.get("subscribe-simple-message").unwrap();
    assert_eq!(subscribe_op.operation_id, "subscribe-simple-message");
}

#[test]
fn test_root_level_tags() {
    let spec = TestAsyncApiWithTags::asyncapi();

    assert!(spec.tags.is_some());
    let tags = spec.tags.as_ref().unwrap();
    assert_eq!(tags.len(), 3);

    let tag_names: Vec<&str> = tags.iter().map(|t| t.name.as_str()).collect();
    assert!(tag_names.contains(&"orders"));
    assert!(tag_names.contains(&"events"));
    assert!(tag_names.contains(&"users"));

    let orders_tag = tags.iter().find(|t| t.name == "orders").unwrap();
    assert_eq!(orders_tag.description, Some("Order-related operations".to_string()));

    let events_tag = tags.iter().find(|t| t.name == "events").unwrap();
    assert_eq!(events_tag.description, Some("Event notifications".to_string()));

    let users_tag = tags.iter().find(|t| t.name == "users").unwrap();
    assert_eq!(users_tag.description, None);
}

#[test]
fn test_root_level_tags_with_try_asyncapi() {
    let result = TestAsyncApiWithTags::try_asyncapi();
    assert!(result.is_ok());

    let spec = result.unwrap();
    assert!(spec.tags.is_some());
    assert_eq!(spec.tags.as_ref().unwrap().len(), 3);
}

#[test]
fn test_operation_external_docs_default() {
    assert!(PublishTestMessage::external_docs().is_none());
    let docs: Option<ExternalDocumentation> = SubscribeSimpleMessage::external_docs();
    assert!(docs.is_none());
}

#[test]
fn test_operations_of_valid_document_pass() {
    assert_eq!(validate_spec(&TestAsyncApiWithOperations::asyncapi()), Ok(()));
}

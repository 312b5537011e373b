use crate::error::ValidationError;
use crate::json::JsonValue;
use crate::model::{
    AsyncApiSpec, Channel, ChannelBindingsOrRef, Components, Info, Message, MessageOrRef,
    MessageReference, MessageTrait, OperationTrait, Parameter, SecurityScheme, Server, Tag,
};
use crate::name_map::{first_index_of, has_name, inserted, NameMap};
use crate::protocol::bindings::{is_binding, kafka_channel_fields, mqtt_channel_fields};
use crate::protocol::{kafka, mqtt, KafkaProtocol, MqttProtocol, MqttQos};
use crate::text::joined;
use crate::types::ASYNCAPI_VERSION;
use crate::validation::laws::well_formed;
use crate::validation::rules::first_violation;
use crate::validation::validator::validate_spec;
use vstd::prelude::*;

verus! {

/// Assembles a document step by step. Each step takes the builder and gives
/// back a new one; nothing is checked before `build_and_validate`.
#[derive(Debug, Clone)]
pub struct AsyncApiBuilder {
    document: AsyncApiSpec,
}

impl View for AsyncApiBuilder {
    type V = AsyncApiSpec;

    closed spec fn view(&self) -> AsyncApiSpec {
        self.document
    }
}

/// The entries of a map that may be absent.
pub open spec fn entries_of<V>(slot: Option<NameMap<V>>) -> Seq<(String, V)> {
    match slot {
        Some(entries) => entries@,
        None => Seq::empty(),
    }
}

/// Components without any collection.
pub open spec fn no_components() -> Components {
    Components {
        messages: None,
        schemas: None,
        security_schemes: None,
        parameters: None,
        channel_bindings: None,
        message_bindings: None,
        server_bindings: None,
        operation_traits: None,
        message_traits: None,
    }
}

/// The components of a document, empty ones where it has none.
pub open spec fn components_of(doc: AsyncApiSpec) -> Components {
    match doc.components {
        Some(components) => components,
        None => no_components(),
    }
}

/// Whether `after` is `before` with `entry` stored under `message` in the
/// channel `channel`, or `before` itself where it has no such channel.
pub open spec fn channel_gained(
    before: Seq<(String, Channel)>,
    after: Seq<(String, Channel)>,
    channel: Seq<char>,
    message: String,
    entry: MessageOrRef,
) -> bool {
    if has_name(before, channel) {
        let at = first_index_of(before, channel);
        &&& after.len() == before.len()
        &&& forall|i: int| 0 <= i < before.len() && i != at ==> after[i] == before[i]
        &&& after[at].0 == before[at].0
        &&& after[at].1 == Channel { messages: after[at].1.messages, ..before[at].1 }
        &&& after[at].1.messages@ == inserted(before[at].1.messages@, message, entry)
    } else {
        after == before
    }
}

/// Stores `value` under `name` in a map that may be absent.
fn stored<V>(slot: Option<NameMap<V>>, name: String, value: V) -> (filled: Option<NameMap<V>>)
    ensures
        filled is Some,
        filled->Some_0@ == inserted(entries_of(slot), name, value),
{
    let mut entries = match slot {
        Some(entries) => entries,
        None => NameMap::new(),
    };
    entries.insert(name, value);
    Some(entries)
}

fn present(components: Option<Components>) -> (c: Components)
    ensures
        components is Some ==> c == components->Some_0,
        components is None ==> c == no_components(),
{
    match components {
        Some(c) => c,
        None => Components::new(),
    }
}

impl AsyncApiBuilder {
    /// A builder whose document has the supported version, an info section
    /// with empty title and version, and nothing else.
    pub fn new() -> (b: Self)
        ensures
            b@.asyncapi@ == "3.0.0"@,
            b@.info.title@.len() == 0,
            b@.info.version@.len() == 0,
            b@.info.description is None,
            b@.info.external_docs is None,
            b@.info.contact is None,
            b@.info.license is None,
            b@.info.terms_of_service is None,
            b@.servers is None,
            b@.channels@.len() == 0,
            b@.operations is None,
            b@.components is None,
            b@.tags is None,
    {
        AsyncApiBuilder {
            document: AsyncApiSpec {
                asyncapi: String::from_str(ASYNCAPI_VERSION),
                info: Info {
                    title: String::new(),
                    version: String::new(),
                    description: None,
                    external_docs: None,
                    contact: None,
                    license: None,
                    terms_of_service: None,
                },
                servers: None,
                channels: NameMap::new(),
                operations: None,
                components: None,
                tags: None,
            },
        }
    }

    /// Sets the info section.
    #[must_use]
    pub fn info(self, info: Info) -> (b: Self)
        ensures
            b@ == (AsyncApiSpec { info, ..self@ }),
    {
        let mut document = self.document;
        document.info = info;
        AsyncApiBuilder { document }
    }

    /// Stores a server under `name`.
    #[must_use]
    pub fn server(self, name: String, server: Server) -> (b: Self)
        ensures
            b@ == (AsyncApiSpec { servers: b@.servers, ..self@ }),
            b@.servers is Some,
            b@.servers->Some_0@ == inserted(entries_of(self@.servers), name, server),
    {
        let mut document = self.document;
        document.servers = stored(document.servers, name, server);
        AsyncApiBuilder { document }
    }

    /// Stores a channel under `name`.
    #[must_use]
    pub fn channel(self, name: String, channel: Channel) -> (b: Self)
        ensures
            b@ == (AsyncApiSpec { channels: b@.channels, ..self@ }),
            b@.channels@ == inserted(self@.channels@, name, channel),
    {
        let mut document = self.document;
        document.channels.insert(name, channel);
        AsyncApiBuilder { document }
    }

    fn channel_entry(self, channel_name: String, message_name: String, entry: MessageOrRef) -> (b:
        Self)
        ensures
            b@ == (AsyncApiSpec { channels: b@.channels, ..self@ }),
            channel_gained(self@.channels@, b@.channels@, channel_name@, message_name, entry),
    {
        let mut document = self.document;
        match document.channels.position(channel_name.as_str()) {
            Some(at) => {
                let channel = document.channels.value_at_mut(at);
                channel.messages.insert(message_name, entry);
            },
            None => {},
        }
        AsyncApiBuilder { document }
    }

    /// Stores an inline message under `message_name` in the channel
    /// `channel_name`; does nothing where there is no such channel.
    #[must_use]
    pub fn channel_message(self, channel_name: String, message_name: String, message: Message) -> (b:
        Self)
        ensures
            b@ == (AsyncApiSpec { channels: b@.channels, ..self@ }),
            channel_gained(
                self@.channels@,
                b@.channels@,
                channel_name@,
                message_name,
                MessageOrRef::Message(message),
            ),
    {
        self.channel_entry(channel_name, message_name, MessageOrRef::message(message))
    }

    /// Stores under `message_name` in the channel `channel_name` a reference
    /// to the component message `component_name`; does nothing where there is
    /// no such channel.
    #[must_use]
    pub fn channel_message_ref(
        self,
        channel_name: String,
        message_name: String,
        component_name: String,
    ) -> (b: Self)
        ensures
            b@ == (AsyncApiSpec { channels: b@.channels, ..self@ }),
            exists|reference: MessageReference|
                (#[trigger] reference.ref_path)@ == "#/components/messages/"@ + component_name@
                    && channel_gained(
                    self@.channels@,
                    b@.channels@,
                    channel_name@,
                    message_name,
                    MessageOrRef::Ref(reference),
                ),
    {
        let reference = MessageReference {
            ref_path: joined("#/components/messages/", component_name.as_str()),
        };
        let ghost stored_reference = reference;
        let b = self.channel_entry(channel_name, message_name, MessageOrRef::Ref(reference));
        proof {
            assert(stored_reference.ref_path@ == "#/components/messages/"@ + component_name@);
        }
        b
    }

    /// Stores a channel under `name`, with the given parameters.
    #[must_use]
    pub fn channel_with_params(self, name: String, channel: Channel, parameters: NameMap<Parameter>) -> (b:
        Self)
        ensures
            b@ == (AsyncApiSpec { channels: b@.channels, ..self@ }),
            b@.channels@ == inserted(
                self@.channels@,
                name,
                Channel { parameters: Some(parameters), ..channel },
            ),
    {
        let mut channel = channel;
        channel.parameters = Some(parameters);
        self.channel(name, channel)
    }

    /// Stores a channel under `name`, with the given inline bindings.
    #[must_use]
    pub fn channel_with_bindings(self, name: String, channel: Channel, bindings: JsonValue) -> (b:
        Self)
        ensures
            b@ == (AsyncApiSpec { channels: b@.channels, ..self@ }),
            b@.channels@ == inserted(
                self@.channels@,
                name,
                Channel { bindings: Some(ChannelBindingsOrRef::Bindings(bindings)), ..channel },
            ),
    {
        let mut channel = channel;
        channel.bindings = Some(ChannelBindingsOrRef::bindings(bindings));
        self.channel(name, channel)
    }

    /// Stores a channel under `name`, with a reference to the component
    /// channel bindings `component_name`.
    #[must_use]
    pub fn channel_with_bindings_ref(self, name: String, channel: Channel, component_name: String) -> (b:
        Self)
        ensures
            b@ == (AsyncApiSpec { channels: b@.channels, ..self@ }),
            exists|reference: MessageReference|
                (#[trigger] reference.ref_path)@ == "#/components/channelBindings/"@
                    + component_name@
                    && b@.channels@ == inserted(
                    self@.channels@,
                    name,
                    Channel {
                        bindings: Some(ChannelBindingsOrRef::Ref(reference)),
                        ..channel
                    },
                ),
    {
        let mut channel = channel;
        channel.bindings = Some(ChannelBindingsOrRef::component_ref(component_name.as_str()));
        self.channel(name, channel)
    }

    /// Stores a reusable message under `name`.
    #[must_use]
    pub fn component_message(self, name: String, message: Message) -> (b: Self)
        ensures
            b@ == (AsyncApiSpec { components: b@.components, ..self@ }),
            b@.components is Some,
            b@.components->Some_0 == (Components {
                messages: b@.components->Some_0.messages,
                ..components_of(self@)
            }),
            b@.components->Some_0.messages is Some,
            b@.components->Some_0.messages->Some_0@ == inserted(
                entries_of(components_of(self@).messages),
                name,
                message,
            ),
    {
        let mut document = self.document;
        let mut components = present(document.components);
        components.messages = stored(components.messages, name, message);
        document.components = Some(components);
        AsyncApiBuilder { document }
    }

    /// Stores a reusable schema under `name`.
    #[must_use]
    pub fn component_schema(self, name: String, schema: JsonValue) -> (b: Self)
        ensures
            b@ == (AsyncApiSpec { components: b@.components, ..self@ }),
            b@.components is Some,
            b@.components->Some_0 == (Components {
                schemas: b@.components->Some_0.schemas,
                ..components_of(self@)
            }),
            b@.components->Some_0.schemas is Some,
            b@.components->Some_0.schemas->Some_0@ == inserted(
                entries_of(components_of(self@).schemas),
                name,
                schema,
            ),
    {
        let mut document = self.document;
        let mut components = present(document.components);
        components.schemas = stored(components.schemas, name, schema);
        document.components = Some(components);
        AsyncApiBuilder { document }
    }

    /// Stores a reusable security scheme under `name`.
    #[must_use]
    pub fn component_security_scheme(self, name: String, scheme: SecurityScheme) -> (b: Self)
        ensures
            b@ == (AsyncApiSpec { components: b@.components, ..self@ }),
            b@.components is Some,
            b@.components->Some_0 == (Components {
                security_schemes: b@.components->Some_0.security_schemes,
                ..components_of(self@)
            }),
            b@.components->Some_0.security_schemes is Some,
            b@.components->Some_0.security_schemes->Some_0@ == inserted(
                entries_of(components_of(self@).security_schemes),
                name,
                scheme,
            ),
    {
        let mut document = self.document;
        let mut components = present(document.components);
        components.security_schemes = stored(components.security_schemes, name, scheme);
        document.components = Some(components);
        AsyncApiBuilder { document }
    }

    /// Sets the root-level tags.
    #[must_use]
    pub fn tags(self, tags: Vec<Tag>) -> (b: Self)
        ensures
            b@ == (AsyncApiSpec { tags: Some(tags), ..self@ }),
    {
        let mut document = self.document;
        document.tags = Some(tags);
        AsyncApiBuilder { document }
    }

    /// Stores a reusable parameter under `name`.
    #[must_use]
    pub fn component_parameter(self, name: String, parameter: Parameter) -> (b: Self)
        ensures
            b@ == (AsyncApiSpec { components: b@.components, ..self@ }),
            b@.components is Some,
            b@.components->Some_0 == (Components {
                parameters: b@.components->Some_0.parameters,
                ..components_of(self@)
            }),
            b@.components->Some_0.parameters is Some,
            b@.components->Some_0.parameters->Some_0@ == inserted(
                entries_of(components_of(self@).parameters),
                name,
                parameter,
            ),
    {
        let mut document = self.document;
        let mut components = present(document.components);
        components.parameters = stored(components.parameters, name, parameter);
        document.components = Some(components);
        AsyncApiBuilder { document }
    }

    /// Stores reusable channel bindings under `name`.
    #[must_use]
    pub fn component_channel_bindings(self, name: String, bindings: JsonValue) -> (b: Self)
        ensures
            b@ == (AsyncApiSpec { components: b@.components, ..self@ }),
            b@.components is Some,
            b@.components->Some_0 == (Components {
                channel_bindings: b@.components->Some_0.channel_bindings,
                ..components_of(self@)
            }),
            b@.components->Some_0.channel_bindings is Some,
            b@.components->Some_0.channel_bindings->Some_0@ == inserted(
                entries_of(components_of(self@).channel_bindings),
                name,
                bindings,
            ),
    {
        let mut document = self.document;
        let mut components = present(document.components);
        components.channel_bindings = stored(components.channel_bindings, name, bindings);
        document.components = Some(components);
        AsyncApiBuilder { document }
    }

    /// Stores reusable message bindings under `name`.
    #[must_use]
    pub fn component_message_bindings(self, name: String, bindings: JsonValue) -> (b: Self)
        ensures
            b@ == (AsyncApiSpec { components: b@.components, ..self@ }),
            b@.components is Some,
            b@.components->Some_0 == (Components {
                message_bindings: b@.components->Some_0.message_bindings,
                ..components_of(self@)
            }),
            b@.components->Some_0.message_bindings is Some,
            b@.components->Some_0.message_bindings->Some_0@ == inserted(
                entries_of(components_of(self@).message_bindings),
                name,
                bindings,
            ),
    {
        let mut document = self.document;
        let mut components = present(document.components);
        components.message_bindings = stored(components.message_bindings, name, bindings);
        document.components = Some(components);
        AsyncApiBuilder { document }
    }

    /// Stores reusable server bindings under `name`.
    #[must_use]
    pub fn component_server_bindings(self, name: String, bindings: JsonValue) -> (b: Self)
        ensures
            b@ == (AsyncApiSpec { components: b@.components, ..self@ }),
            b@.components is Some,
            b@.components->Some_0 == (Components {
                server_bindings: b@.components->Some_0.server_bindings,
                ..components_of(self@)
            }),
            b@.components->Some_0.server_bindings is Some,
            b@.components->Some_0.server_bindings->Some_0@ == inserted(
                entries_of(components_of(self@).server_bindings),
                name,
                bindings,
            ),
    {
        let mut document = self.document;
        let mut components = present(document.components);
        components.server_bindings = stored(components.server_bindings, name, bindings);
        document.components = Some(components);
        AsyncApiBuilder { document }
    }

    /// Stores a reusable operation trait under `name`.
    #[must_use]
    pub fn component_operation_trait(self, name: String, trait_: OperationTrait) -> (b: Self)
        ensures
            b@ == (AsyncApiSpec { components: b@.components, ..self@ }),
            b@.components is Some,
            b@.components->Some_0 == (Components {
                operation_traits: b@.components->Some_0.operation_traits,
                ..components_of(self@)
            }),
            b@.components->Some_0.operation_traits is Some,
            b@.components->Some_0.operation_traits->Some_0@ == inserted(
                entries_of(components_of(self@).operation_traits),
                name,
                trait_,
            ),
    {
        let mut document = self.document;
        let mut components = present(document.components);
        components.operation_traits = stored(components.operation_traits, name, trait_);
        document.components = Some(components);
        AsyncApiBuilder { document }
    }

    /// Stores a reusable message trait under `name`.
    #[must_use]
    pub fn component_message_trait(self, name: String, trait_: MessageTrait) -> (b: Self)
        ensures
            b@ == (AsyncApiSpec { components: b@.components, ..self@ }),
            b@.components is Some,
            b@.components->Some_0 == (Components {
                message_traits: b@.components->Some_0.message_traits,
                ..components_of(self@)
            }),
            b@.components->Some_0.message_traits is Some,
            b@.components->Some_0.message_traits->Some_0@ == inserted(
                entries_of(components_of(self@).message_traits),
                name,
                trait_,
            ),
    {
        let mut document = self.document;
        let mut components = present(document.components);
        components.message_traits = stored(components.message_traits, name, trait_);
        document.components = Some(components);
        AsyncApiBuilder { document }
    }

    /// The document as assembled, unchecked.
    #[must_use]
    pub fn build(self) -> (doc: AsyncApiSpec)
        ensures
            doc == self@,
    {
        self.document
    }

    /// The document as assembled where it keeps every rule, else the first
    /// rule that it breaks.
    pub fn build_and_validate(self) -> (result: Result<AsyncApiSpec, ValidationError>)
        ensures
            result is Ok <==> first_violation(self@) is None,
            result is Ok <==> well_formed(self@),
            result is Ok ==> result->Ok_0 == self@,
            result is Err ==> Some(result->Err_0@) == first_violation(self@),
    {
        let doc = self.build();
        match validate_spec(&doc) {
            Ok(_) => Ok(doc),
            Err(e) => Err(e),
        }
    }

    /// Stores a channel under `name`, with the Kafka channel binding for the
    /// given topic, partition count and replica count.
    #[must_use]
    pub fn kafka_channel(
        self,
        name: String,
        channel: Channel,
        topic: Option<String>,
        partitions: Option<u32>,
        replicas: Option<u32>,
    ) -> (b: Self)
        ensures
            b@ == (AsyncApiSpec { channels: b@.channels, ..self@ }),
            exists|bindings: JsonValue, version: String|
                version@ == "0.4.0"@ && #[trigger] is_binding(
                    bindings,
                    "kafka"@,
                    kafka_channel_fields(
                        kafka::channel_config(topic, partitions, replicas, version),
                        None,
                    ),
                ) && b@.channels@ == inserted(
                    self@.channels@,
                    name,
                    Channel {
                        bindings: Some(ChannelBindingsOrRef::Bindings(bindings)),
                        ..channel
                    },
                ),
    {
        let bindings = KafkaProtocol::channel_binding(topic, partitions, replicas);
        self.channel_with_bindings(name, channel, bindings)
    }

    /// Stores a channel under `name`, with the MQTT channel binding for the
    /// given topic, quality of service and retain flag.
    #[must_use]
    pub fn mqtt_channel(
        self,
        name: String,
        channel: Channel,
        topic: Option<String>,
        qos: Option<MqttQos>,
        retain: Option<bool>,
    ) -> (b: Self)
        ensures
            b@ == (AsyncApiSpec { channels: b@.channels, ..self@ }),
            exists|bindings: JsonValue, version: String|
                version@ == "0.2.0"@ && #[trigger] is_binding(
                    bindings,
                    "mqtt"@,
                    mqtt_channel_fields(mqtt::channel_config(topic, qos, retain, version)),
                ) && b@.channels@ == inserted(
                    self@.channels@,
                    name,
                    Channel {
                        bindings: Some(ChannelBindingsOrRef::Bindings(bindings)),
                        ..channel
                    },
                ),
    {
        let bindings = MqttProtocol::channel_binding(topic, qos, retain);
        self.channel_with_bindings(name, channel, bindings)
    }
}

impl Default for AsyncApiBuilder {
    /// The same as `new`.
    fn default() -> (b: Self)
        ensures
            b@.asyncapi@ == "3.0.0"@,
            b@.info.title@.len() == 0,
            b@.info.version@.len() == 0,
            b@.info.description is None,
            b@.info.external_docs is None,
            b@.info.contact is None,
            b@.info.license is None,
            b@.info.terms_of_service is None,
            b@.servers is None,
            b@.channels@.len() == 0,
            b@.operations is None,
            b@.components is None,
            b@.tags is None,
    {
        AsyncApiBuilder::new()
    }
}

} // verus!

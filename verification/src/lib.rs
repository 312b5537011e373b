//! Builds, in memory, a document that describes an asynchronous messaging
//! API in the shape of AsyncAPI 3.0, and checks that the document is
//! consistent before it is written out.
//!
//! The parts: the document model (`model`), a builder that assembles a
//! document step by step (`builder`), a validator that reports the first rule
//! a document breaks (`validation`), the supported protocols with their
//! binding payloads (`protocol`), and a cache of payload schemas (`schema`).

pub mod builder;
pub mod error;
pub mod format;
pub mod json;
pub mod model;
pub mod name_map;
pub mod protocol;
pub mod schema;
pub mod text;
pub mod traits;
pub mod types;
pub mod validation;

pub use builder::AsyncApiBuilder;
pub use error::{SchemaError, ValidationError};
pub use format::SpecFormat;
pub use json::{JsonMember, JsonValue};
pub use model::{
    AsyncApiSpec, Channel, ChannelBindingsOrRef, ChannelReference, Channels, Components, Contact,
    CorrelationId, ExternalDocumentation, Info, License, Message, MessageBindingsOrRef,
    MessageOrRef, MessagePayload, MessageReference, MessageTrait, MessageTraitOrRef, Messages,
    OAuth2Flow, OAuth2Flows, Operation, OperationBindingsOrRef, OperationTrait,
    OperationTraitOrRef, Operations, Parameter, SecurityRequirement, SecurityScheme, Server,
    ServerVariable, Servers, Tag,
};
pub use name_map::NameMap;
pub use protocol::kafka::{DEFAULT_PORT as KAFKA_DEFAULT_PORT, PROTOCOL as KAFKA_PROTOCOL};
pub use protocol::mqtt::{
    DEFAULT_PORT as MQTT_DEFAULT_PORT, DEFAULT_SECURE_PORT as MQTT_DEFAULT_SECURE_PORT,
    PROTOCOL as MQTT_PROTOCOL,
};
pub use protocol::nats::{DEFAULT_PORT as NATS_DEFAULT_PORT, PROTOCOL as NATS_PROTOCOL};
pub use protocol::{
    validate_protocol, KafkaChannelBinding, KafkaChannelConfig, KafkaMessageBinding,
    KafkaMessageConfig, KafkaProtocol, MqttChannelBinding, MqttChannelConfig, MqttMessageBinding,
    MqttMessageConfig, MqttProtocol, MqttQos, NatsChannelBinding, NatsChannelConfig,
    NatsMessageBinding, NatsMessageConfig, NatsProtocol, Protocol,
};
pub use schema::SchemaCache;
pub use traits::{AsyncApi, AsyncApiOperation};
pub use types::{OperationAction, ASYNCAPI_VERSION};
pub use validation::validate_spec;

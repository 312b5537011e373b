use crate::json::JsonValue;
use crate::protocol::bindings::{
    is_binding, kafka_channel_fields, kafka_message_fields, KafkaChannelBinding,
    KafkaChannelConfig, KafkaMessageBinding, KafkaMessageConfig,
};
use crate::protocol::traits::Protocol;
use vstd::prelude::*;

verus! {

/// Kafka protocol identifier
pub const PROTOCOL: &'static str = "kafka";

/// Default Kafka port
pub const DEFAULT_PORT: u16 = 9092;

/// The Apache Kafka protocol.
pub struct KafkaProtocol;

impl Protocol for KafkaProtocol {
    fn name() -> (name: &'static str)
        ensures
            name@ == "Apache Kafka"@,
    {
        "Apache Kafka"
    }

    fn identifier() -> (id: &'static str)
        ensures
            id@ == "kafka"@,
    {
        PROTOCOL
    }
}

/// The channel configuration that `channel_binding` writes.
pub open spec fn channel_config(
    topic: Option<String>,
    partitions: Option<u32>,
    replicas: Option<u32>,
    version: String,
) -> KafkaChannelConfig {
    KafkaChannelConfig {
        topic,
        partitions,
        replicas,
        topic_configuration: None,
        binding_version: Some(version),
    }
}

/// The message configuration that `message_binding` writes.
pub open spec fn message_config(key: Option<JsonValue>, version: String) -> KafkaMessageConfig {
    KafkaMessageConfig {
        key,
        schema_id_location: None,
        schema_id_payload_encoding: None,
        schema_lookup_strategy: None,
        binding_version: Some(version),
    }
}

impl KafkaProtocol {
    /// The channel binding `{ "kafka": { .. } }` with the given topic, partition
    /// count and replica count, as far as they are set, and the binding
    /// version `0.4.0`.
    pub fn channel_binding(
        topic: Option<String>,
        partitions: Option<u32>,
        replicas: Option<u32>,
    ) -> (value: JsonValue)
        ensures
            exists|version: String|
                version@ == "0.4.0"@ && is_binding(
                    value,
                    "kafka"@,
                    kafka_channel_fields(
                        #[trigger] channel_config(topic, partitions, replicas, version),
                        None,
                    ),
                ),
    {
        let version = String::from_str("0.4.0");
        let binding = KafkaChannelBinding {
            config: KafkaChannelConfig {
                topic,
                partitions,
                replicas,
                topic_configuration: None,
                binding_version: Some(version),
            },
        };
        proof {
            assert(binding.config == channel_config(topic, partitions, replicas, version));
        }
        binding.to_value()
    }

    /// The message binding `{ "kafka": { .. } }` with the given key schema, if
    /// any, and the binding version `0.4.0`.
    pub fn message_binding(key_schema: Option<JsonValue>) -> (value: JsonValue)
        ensures
            exists|version: String|
                version@ == "0.4.0"@ && is_binding(
                    value,
                    "kafka"@,
                    kafka_message_fields(#[trigger] message_config(key_schema, version)),
                ),
    {
        let version = String::from_str("0.4.0");
        let binding = KafkaMessageBinding {
            config: KafkaMessageConfig {
                key: key_schema,
                schema_id_location: None,
                schema_id_payload_encoding: None,
                schema_lookup_strategy: None,
                binding_version: Some(version),
            },
        };
        proof {
            assert(binding.config == message_config(key_schema, version));
        }
        binding.to_value()
    }
}

} // verus!

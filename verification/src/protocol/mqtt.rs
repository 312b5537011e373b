use crate::json::JsonValue;
use crate::protocol::bindings::{
    is_binding, mqtt_channel_fields, mqtt_message_fields, MqttChannelBinding, MqttChannelConfig,
    MqttMessageBinding, MqttMessageConfig,
};
use crate::protocol::traits::Protocol;
use vstd::prelude::*;

verus! {

/// MQTT protocol identifier
pub const PROTOCOL: &'static str = "mqtt";

/// Default MQTT port
pub const DEFAULT_PORT: u16 = 1883;

/// Default MQTT port over TLS
pub const DEFAULT_SECURE_PORT: u16 = 8883;

/// MQTT quality-of-service level.
#[derive(Debug, Clone, Copy, PartialEq, Eq)]
pub enum MqttQos {
    /// At most once (0)
    AtMostOnce,
    /// At least once (1)
    AtLeastOnce,
    /// Exactly once (2)
    ExactlyOnce,
}

impl MqttQos {
    /// The numeric encoding of a level.
    pub open spec fn code(self) -> u8 {
        match self {
            MqttQos::AtMostOnce => 0,
            MqttQos::AtLeastOnce => 1,
            MqttQos::ExactlyOnce => 2,
        }
    }

    /// The level that a number encodes, if any.
    pub open spec fn decode(value: u8) -> Option<MqttQos> {
        if value == 0 {
            Some(MqttQos::AtMostOnce)
        } else if value == 1 {
            Some(MqttQos::AtLeastOnce)
        } else if value == 2 {
            Some(MqttQos::ExactlyOnce)
        } else {
            None
        }
    }

    /// The numeric encoding of the level.
    pub fn as_u8(self) -> (value: u8)
        ensures
            value == self.code(),
            Self::decode(value) == Some(self),
    {
        match self {
            MqttQos::AtMostOnce => 0,
            MqttQos::AtLeastOnce => 1,
            MqttQos::ExactlyOnce => 2,
        }
    }

    /// The level that `value` encodes; `None` for a number above 2.
    pub fn from_u8(value: u8) -> (level: Option<Self>)
        ensures
            level == Self::decode(value),
            level is Some <==> value <= 2,
            level is Some ==> level->Some_0.code() == value,
    {
        match value {
            0 => Some(MqttQos::AtMostOnce),
            1 => Some(MqttQos::AtLeastOnce),
            2 => Some(MqttQos::ExactlyOnce),
            _ => None,
        }
    }

    /// Encoding a level and decoding the number gives the level back, and a
    /// number that decodes to a level is that level's encoding.
    pub proof fn lemma_round_trip(level: MqttQos, value: u8)
        ensures
            Self::decode(level.code()) == Some(level),
            Self::decode(value) is Some ==> Self::decode(value)->Some_0.code() == value,
            value > 2 ==> Self::decode(value) is None,
    {
    }
}

/// The MQTT protocol.
pub struct MqttProtocol;

impl Protocol for MqttProtocol {
    fn name() -> (name: &'static str)
        ensures
            name@ == "MQTT"@,
    {
        "MQTT"
    }

    fn identifier() -> (id: &'static str)
        ensures
            id@ == "mqtt"@,
    {
        PROTOCOL
    }
}

/// The numeric encoding of an optional level.
pub open spec fn qos_code(qos: Option<MqttQos>) -> Option<u8> {
    match qos {
        Some(level) => Some(level.code()),
        None => None,
    }
}

/// The channel configuration that `channel_binding` writes.
pub open spec fn channel_config(
    topic: Option<String>,
    qos: Option<MqttQos>,
    retain: Option<bool>,
    version: String,
) -> MqttChannelConfig {
    MqttChannelConfig { qos: qos_code(qos), retain, topic, binding_version: Some(version) }
}

/// The message configuration that `message_binding` writes.
pub open spec fn message_config(qos: Option<MqttQos>, retain: Option<bool>, version: String) -> MqttMessageConfig {
    MqttMessageConfig { qos: qos_code(qos), retain, binding_version: Some(version) }
}

impl MqttProtocol {
    /// The channel binding `{ "mqtt": { .. } }` with the given quality of
    /// service, retain flag and topic, as far as they are set, and the binding
    /// version `0.2.0`.
    pub fn channel_binding(topic: Option<String>, qos: Option<MqttQos>, retain: Option<bool>) -> (value:
        JsonValue)
        ensures
            exists|version: String|
                version@ == "0.2.0"@ && is_binding(
                    value,
                    "mqtt"@,
                    mqtt_channel_fields(#[trigger] channel_config(topic, qos, retain, version)),
                ),
    {
        let version = String::from_str("0.2.0");
        let code = match qos {
            Some(level) => Some(level.as_u8()),
            None => None,
        };
        let binding = MqttChannelBinding {
            config: MqttChannelConfig {
                qos: code,
                retain,
                topic,
                binding_version: Some(version),
            },
        };
        proof {
            assert(binding.config == channel_config(topic, qos, retain, version));
        }
        binding.to_value()
    }

    /// The message binding `{ "mqtt": { .. } }` with the given quality of
    /// service and retain flag, as far as they are set, and the binding
    /// version `0.2.0`.
    pub fn message_binding(qos: Option<MqttQos>, retain: Option<bool>) -> (value: JsonValue)
        ensures
            exists|version: String|
                version@ == "0.2.0"@ && is_binding(
                    value,
                    "mqtt"@,
                    mqtt_message_fields(#[trigger] message_config(qos, retain, version)),
                ),
    {
        let version = String::from_str("0.2.0");
        let code = match qos {
            Some(level) => Some(level.as_u8()),
            None => None,
        };
        let binding = MqttMessageBinding {
            config: MqttMessageConfig { qos: code, retain, binding_version: Some(version) },
        };
        proof {
            assert(binding.config == message_config(qos, retain, version));
        }
        binding.to_value()
    }
}

} // verus!

use crate::json::{JsonMember, JsonValue};
use crate::name_map::NameMap;
use vstd::prelude::*;

verus! {

/// NATS channel binding
#[derive(Debug, Clone)]
pub struct NatsChannelBinding {
    pub config: NatsChannelConfig,
}

/// NATS channel configuration
#[derive(Debug, Clone)]
pub struct NatsChannelConfig {
    pub queue: Option<String>,
    pub binding_version: Option<String>,
}

/// NATS message binding
#[derive(Debug, Clone)]
pub struct NatsMessageBinding {
    pub config: NatsMessageConfig,
}

/// NATS message configuration
#[derive(Debug, Clone)]
pub struct NatsMessageConfig {
    pub headers: Option<NameMap<String>>,
    pub binding_version: Option<String>,
}

/// Kafka channel binding
#[derive(Debug, Clone)]
pub struct KafkaChannelBinding {
    pub config: KafkaChannelConfig,
}

/// Kafka channel configuration
#[derive(Debug, Clone)]
pub struct KafkaChannelConfig {
    pub topic: Option<String>,
    pub partitions: Option<u32>,
    pub replicas: Option<u32>,
    pub topic_configuration: Option<NameMap<String>>,
    pub binding_version: Option<String>,
}

/// Kafka message binding
#[derive(Debug, Clone)]
pub struct KafkaMessageBinding {
    pub config: KafkaMessageConfig,
}

/// Kafka message configuration
#[derive(Debug, Clone)]
pub struct KafkaMessageConfig {
    pub key: Option<JsonValue>,
    pub schema_id_location: Option<String>,
    pub schema_id_payload_encoding: Option<String>,
    pub schema_lookup_strategy: Option<String>,
    pub binding_version: Option<String>,
}

/// MQTT channel binding
#[derive(Debug, Clone)]
pub struct MqttChannelBinding {
    pub config: MqttChannelConfig,
}

/// MQTT channel configuration
#[derive(Debug, Clone)]
pub struct MqttChannelConfig {
    pub qos: Option<u8>,
    pub retain: Option<bool>,
    pub topic: Option<String>,
    pub binding_version: Option<String>,
}

/// MQTT message binding
#[derive(Debug, Clone)]
pub struct MqttMessageBinding {
    pub config: MqttMessageConfig,
}

/// MQTT message configuration
#[derive(Debug, Clone)]
pub struct MqttMessageConfig {
    pub qos: Option<u8>,
    pub retain: Option<bool>,
    pub binding_version: Option<String>,
}

/// An optional field of a binding: its key, and its value where it is set.
pub type Field = (Seq<char>, Option<JsonValue>);

/// Whether `members` are exactly the fields of `fields` that are set, in
/// their order, each under its key.
pub open spec fn holds_fields(members: Seq<JsonMember>, fields: Seq<Field>) -> bool
    decreases fields.len(),
{
    if fields.len() == 0 {
        members.len() == 0
    } else {
        match fields.last().1 {
            None => holds_fields(members, fields.drop_last()),
            Some(value) => members.len() > 0 && members.last().name@ == fields.last().0
                && members.last().value == value && holds_fields(
                members.drop_last(),
                fields.drop_last(),
            ),
        }
    }
}

/// Whether `value` is the payload `{ key: { fields } }`: an object with the one
/// member `key`, which is an object that holds the fields that are set.
pub open spec fn is_binding(value: JsonValue, key: Seq<char>, fields: Seq<Field>) -> bool {
    &&& value is Object
    &&& value->Object_0@.len() == 1
    &&& value->Object_0@[0].name@ == key
    &&& value->Object_0@[0].value is Object
    &&& holds_fields(value->Object_0@[0].value->Object_0@, fields)
}

/// A string field.
pub open spec fn text_field(key: Seq<char>, value: Option<String>) -> Field {
    (
        key,
        match value {
            Some(s) => Some(JsonValue::String(s)),
            None => None,
        },
    )
}

/// An integer field.
pub open spec fn number_field(key: Seq<char>, value: Option<int>) -> Field {
    (
        key,
        match value {
            Some(n) => Some(JsonValue::Number(n as i64)),
            None => None,
        },
    )
}

/// A boolean field.
pub open spec fn flag_field(key: Seq<char>, value: Option<bool>) -> Field {
    (
        key,
        match value {
            Some(b) => Some(JsonValue::Bool(b)),
            None => None,
        },
    )
}

/// Adds the field `name` to `members` where `value` is set.
pub(crate) fn push_field(
    members: &mut Vec<JsonMember>,
    name: &str,
    value: Option<JsonValue>,
    Ghost(fields): Ghost<Seq<Field>>,
)
    requires
        holds_fields(old(members)@, fields),
    ensures
        holds_fields(final(members)@, fields.push((name@, value))),
{
    let ghost after = fields.push((name@, value));
    proof {
        assert(after.drop_last() =~= fields);
        assert(after.last() == (name@, value));
    }
    match value {
        Some(v) => {
            let ghost before = members@;
            members.push(JsonMember { name: String::from_str(name), value: v });
            proof {
                assert(members@.drop_last() =~= before);
            }
        },
        None => {},
    }
}

/// Wraps the fields `members` as `{ key: { members } }`.
pub(crate) fn wrap_binding(key: &str, members: Vec<JsonMember>, Ghost(fields): Ghost<Seq<Field>>) -> (value:
    JsonValue)
    requires
        holds_fields(members@, fields),
    ensures
        is_binding(value, key@, fields),
{
    let mut outer: Vec<JsonMember> = Vec::new();
    outer.push(JsonMember { name: String::from_str(key), value: JsonValue::Object(members) });
    JsonValue::Object(outer)
}

fn text_value(value: Option<String>) -> (json: Option<JsonValue>)
    ensures
        json == text_field(Seq::<char>::empty(), value).1,
{
    match value {
        Some(s) => Some(JsonValue::String(s)),
        None => None,
    }
}

fn flag_value(value: Option<bool>) -> (json: Option<JsonValue>)
    ensures
        json == flag_field(Seq::<char>::empty(), value).1,
{
    match value {
        Some(b) => Some(JsonValue::Bool(b)),
        None => None,
    }
}

/// Whether `value` holds the entries of `entries` as an object of strings, in
/// their order, or nothing where there are none.
pub open spec fn encodes_texts(value: Option<JsonValue>, entries: Option<NameMap<String>>) -> bool {
    match entries {
        None => value is None,
        Some(map) => {
            &&& value is Some
            &&& value->Some_0 is Object
            &&& value->Some_0->Object_0@.len() == map@.len()
            &&& forall|i: int|
                0 <= i < map@.len() ==> (#[trigger] value->Some_0->Object_0@[i]).name@
                    == map@[i].0@ && value->Some_0->Object_0@[i].value == JsonValue::String(
                    map@[i].1,
                )
        },
    }
}

fn texts_value(entries: &Option<NameMap<String>>) -> (value: Option<JsonValue>)
    ensures
        encodes_texts(value, *entries),
{
    match entries {
        None => None,
        Some(map) => {
            let mut members: Vec<JsonMember> = Vec::new();
            let mut i: usize = 0;
            while i < map.len()
                invariant
                    i <= map@.len(),
                    members@.len() == i,
                    forall|j: int|
                        0 <= j < i ==> (#[trigger] members@[j]).name@ == map@[j].0@
                            && members@[j].value == JsonValue::String(map@[j].1),
                decreases map@.len() - i,
            {
                members.push(
                    JsonMember {
                        name: map.name_at(i).clone(),
                        value: JsonValue::String(map.value_at(i).clone()),
                    },
                );
                i = i + 1;
            }
            Some(JsonValue::Object(members))
        },
    }
}

/// The fields of a Kafka channel configuration; `topic_configuration` is the
/// value that holds its topic configuration.
pub open spec fn kafka_channel_fields(
    config: KafkaChannelConfig,
    topic_configuration: Option<JsonValue>,
) -> Seq<Field> {
    seq![
        text_field("topic"@, config.topic),
        number_field(
            "partitions"@,
            match config.partitions {
                Some(n) => Some(n as int),
                None => None,
            },
        ),
        number_field(
            "replicas"@,
            match config.replicas {
                Some(n) => Some(n as int),
                None => None,
            },
        ),
        ("topic_configuration"@, topic_configuration),
        text_field("binding_version"@, config.binding_version),
    ]
}

/// The fields of a Kafka message configuration.
pub open spec fn kafka_message_fields(config: KafkaMessageConfig) -> Seq<Field> {
    seq![
        ("key"@, config.key),
        text_field("schema_id_location"@, config.schema_id_location),
        text_field("schema_id_payload_encoding"@, config.schema_id_payload_encoding),
        text_field("schema_lookup_strategy"@, config.schema_lookup_strategy),
        text_field("binding_version"@, config.binding_version),
    ]
}

/// The fields of an MQTT channel configuration.
pub open spec fn mqtt_channel_fields(config: MqttChannelConfig) -> Seq<Field> {
    seq![
        number_field(
            "qos"@,
            match config.qos {
                Some(n) => Some(n as int),
                None => None,
            },
        ),
        flag_field("retain"@, config.retain),
        text_field("topic"@, config.topic),
        text_field("binding_version"@, config.binding_version),
    ]
}

/// The fields of an MQTT message configuration.
pub open spec fn mqtt_message_fields(config: MqttMessageConfig) -> Seq<Field> {
    seq![
        number_field(
            "qos"@,
            match config.qos {
                Some(n) => Some(n as int),
                None => None,
            },
        ),
        flag_field("retain"@, config.retain),
        text_field("binding_version"@, config.binding_version),
    ]
}

impl KafkaChannelBinding {
    /// The payload `{ "kafka": { .. } }` with the fields that are set; a topic
    /// configuration is written as an object of strings.
    pub fn to_value(self) -> (value: JsonValue)
        ensures
            exists|topic_configuration: Option<JsonValue>|
                encodes_texts(topic_configuration, self.config.topic_configuration)
                    && #[trigger] is_binding(
                    value,
                    "kafka"@,
                    kafka_channel_fields(self.config, topic_configuration),
                ),
    {
        let config = self.config;
        let mut members: Vec<JsonMember> = Vec::new();
        let ghost f0 = Seq::<Field>::empty();
        push_field(&mut members, "topic", text_value(config.topic), Ghost(f0));
        let ghost f1 = f0.push(text_field("topic"@, config.topic));
        let partitions = match config.partitions {
            Some(n) => Some(JsonValue::Number(n as i64)),
            None => None,
        };
        push_field(&mut members, "partitions", partitions, Ghost(f1));
        let ghost f2 = f1.push(("partitions"@, partitions));
        let replicas = match config.replicas {
            Some(n) => Some(JsonValue::Number(n as i64)),
            None => None,
        };
        push_field(&mut members, "replicas", replicas, Ghost(f2));
        let ghost f3 = f2.push(("replicas"@, replicas));
        let topic_configuration = texts_value(&config.topic_configuration);
        let ghost written = topic_configuration;
        push_field(&mut members, "topic_configuration", topic_configuration, Ghost(f3));
        let ghost f4 = f3.push(("topic_configuration"@, written));
        push_field(&mut members, "binding_version", text_value(config.binding_version), Ghost(f4));
        let ghost f5 = f4.push(text_field("binding_version"@, config.binding_version));
        proof {
            assert(f5 =~= kafka_channel_fields(config, written));
        }
        wrap_binding("kafka", members, Ghost(f5))
    }
}

impl KafkaMessageBinding {
    /// The payload `{ "kafka": { .. } }` with the fields that are set.
    pub fn to_value(self) -> (value: JsonValue)
        ensures
            is_binding(value, "kafka"@, kafka_message_fields(self.config)),
    {
        let config = self.config;
        let mut members: Vec<JsonMember> = Vec::new();
        let ghost f0 = Seq::<Field>::empty();
        push_field(&mut members, "key", config.key, Ghost(f0));
        let ghost f1 = f0.push(("key"@, config.key));
        push_field(
            &mut members,
            "schema_id_location",
            text_value(config.schema_id_location),
            Ghost(f1),
        );
        let ghost f2 = f1.push(text_field("schema_id_location"@, config.schema_id_location));
        push_field(
            &mut members,
            "schema_id_payload_encoding",
            text_value(config.schema_id_payload_encoding),
            Ghost(f2),
        );
        let ghost f3 = f2.push(
            text_field("schema_id_payload_encoding"@, config.schema_id_payload_encoding),
        );
        push_field(
            &mut members,
            "schema_lookup_strategy",
            text_value(config.schema_lookup_strategy),
            Ghost(f3),
        );
        let ghost f4 = f3.push(text_field("schema_lookup_strategy"@, config.schema_lookup_strategy));
        push_field(&mut members, "binding_version", text_value(config.binding_version), Ghost(f4));
        let ghost f5 = f4.push(text_field("binding_version"@, config.binding_version));
        proof {
            assert(f5 =~= kafka_message_fields(config));
        }
        wrap_binding("kafka", members, Ghost(f5))
    }
}

impl MqttChannelBinding {
    /// The payload `{ "mqtt": { .. } }` with the fields that are set.
    pub fn to_value(self) -> (value: JsonValue)
        ensures
            is_binding(value, "mqtt"@, mqtt_channel_fields(self.config)),
    {
        let config = self.config;
        let mut members: Vec<JsonMember> = Vec::new();
        let ghost f0 = Seq::<Field>::empty();
        let qos = match config.qos {
            Some(n) => Some(JsonValue::Number(n as i64)),
            None => None,
        };
        push_field(&mut members, "qos", qos, Ghost(f0));
        let ghost f1 = f0.push(("qos"@, qos));
        push_field(&mut members, "retain", flag_value(config.retain), Ghost(f1));
        let ghost f2 = f1.push(flag_field("retain"@, config.retain));
        push_field(&mut members, "topic", text_value(config.topic), Ghost(f2));
        let ghost f3 = f2.push(text_field("topic"@, config.topic));
        push_field(&mut members, "binding_version", text_value(config.binding_version), Ghost(f3));
        let ghost f4 = f3.push(text_field("binding_version"@, config.binding_version));
        proof {
            assert(f4 =~= mqtt_channel_fields(config));
        }
        wrap_binding("mqtt", members, Ghost(f4))
    }
}

impl MqttMessageBinding {
    /// The payload `{ "mqtt": { .. } }` with the fields that are set.
    pub fn to_value(self) -> (value: JsonValue)
        ensures
            is_binding(value, "mqtt"@, mqtt_message_fields(self.config)),
    {
        let config = self.config;
        let mut members: Vec<JsonMember> = Vec::new();
        let ghost f0 = Seq::<Field>::empty();
        let qos = match config.qos {
            Some(n) => Some(JsonValue::Number(n as i64)),
            None => None,
        };
        push_field(&mut members, "qos", qos, Ghost(f0));
        let ghost f1 = f0.push(("qos"@, qos));
        push_field(&mut members, "retain", flag_value(config.retain), Ghost(f1));
        let ghost f2 = f1.push(flag_field("retain"@, config.retain));
        push_field(&mut members, "binding_version", text_value(config.binding_version), Ghost(f2));
        let ghost f3 = f2.push(text_field("binding_version"@, config.binding_version));
        proof {
            assert(f3 =~= mqtt_message_fields(config));
        }
        wrap_binding("mqtt", members, Ghost(f3))
    }
}

} // verus!

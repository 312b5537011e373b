use crate::error::ValidationError;
use crate::text::{same_text, texts_of};
use vstd::prelude::*;

pub mod bindings;
pub mod kafka;
pub mod mqtt;
pub mod nats;
pub mod traits;

pub use bindings::{
    KafkaChannelBinding, KafkaChannelConfig, KafkaMessageBinding, KafkaMessageConfig,
    MqttChannelBinding, MqttChannelConfig, MqttMessageBinding, MqttMessageConfig,
    NatsChannelBinding, NatsChannelConfig, NatsMessageBinding, NatsMessageConfig,
};
pub use kafka::KafkaProtocol;
pub use mqtt::{MqttProtocol, MqttQos};
pub use nats::NatsProtocol;
pub use traits::Protocol;

verus! {

/// Whether `identifier` names one of the supported protocols.
pub open spec fn is_supported_protocol(identifier: Seq<char>) -> bool {
    identifier == "nats"@ || identifier == "kafka"@ || identifier == "mqtt"@
}

/// The identifiers of the supported protocols, in the order in which they
/// are reported.
pub open spec fn supported_protocols() -> Seq<Seq<char>> {
    seq!["nats"@, "kafka"@, "mqtt"@]
}

/// The supported protocol identifiers as owned strings.
pub fn supported_protocol_list() -> (list: Vec<String>)
    ensures
        texts_of(list@) == supported_protocols(),
{
    let mut list: Vec<String> = Vec::new();
    list.push(String::from_str(nats::PROTOCOL));
    list.push(String::from_str(kafka::PROTOCOL));
    list.push(String::from_str(mqtt::PROTOCOL));
    proof {
        assert(texts_of(list@) =~= supported_protocols());
    }
    list
}

/// Accepts the identifier of a supported protocol; otherwise reports the
/// identifier together with the supported ones.
pub fn validate_protocol(protocol: &str) -> (result: Result<(), ValidationError>)
    ensures
        result is Ok <==> is_supported_protocol(protocol@),
        result is Err ==> result->Err_0 is UnsupportedProtocol
            && result->Err_0->UnsupportedProtocol_protocol@ == protocol@ && texts_of(
            result->Err_0->UnsupportedProtocol_supported@,
        ) == supported_protocols(),
{
    if same_text(protocol, nats::PROTOCOL) {
        return Ok(());
    }
    if same_text(protocol, kafka::PROTOCOL) {
        return Ok(());
    }
    if same_text(protocol, mqtt::PROTOCOL) {
        return Ok(());
    }
    Err(
        ValidationError::UnsupportedProtocol {
            protocol: String::from_str(protocol),
            supported: supported_protocol_list(),
        },
    )
}

} // verus!

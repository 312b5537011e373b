use crate::error::{outcome, ValidationError};
use crate::json::JsonValue;
use crate::model::{AsyncApiSpec, Channel};
use crate::text::same_text;
use crate::validation::rules::{
    binding_violation, channel_protocol, protocol_of_refs, server_refs, servers_of,
};
use crate::validation::texts::binding_key_message;
use vstd::prelude::*;

verus! {

/// The protocol of a channel: that of the first server it lists that the
/// document defines.
pub fn get_channel_protocol(channel: &Channel, spec: &AsyncApiSpec) -> (protocol: Option<String>)
    ensures
        protocol is Some <==> channel_protocol(*channel, *spec) is Some,
        protocol is Some ==> protocol->Some_0@ == channel_protocol(*channel, *spec)->Some_0,
{
    match &channel.servers {
        Some(refs) => match &spec.servers {
            Some(servers) => {
                let mut i: usize = 0;
                while i < refs.len()
                    invariant
                        i <= refs@.len(),
                        refs@ == server_refs(*channel),
                        servers@ == servers_of(*spec),
                        protocol_of_refs(*spec, refs@, i as nat) is None,
                    decreases refs@.len() - i,
                {
                    match servers.get(refs[i].as_str()) {
                        Some(server) => {
                            proof {
                                assert(protocol_of_refs(*spec, refs@, (i + 1) as nat) == Some(
                                    server.protocol@,
                                ));
                                lemma_protocol_stays(*spec, refs@, (i + 1) as nat, refs@.len());
                            }
                            return Some(server.protocol.clone());
                        },
                        None => {},
                    }
                    i = i + 1;
                }
                None
            },
            None => {
                proof {
                    lemma_no_servers_no_protocol(*spec, refs@, refs@.len());
                }
                None
            },
        },
        None => None,
    }
}

/// Once a listed server has given the protocol, later ones do not change it.
pub proof fn lemma_protocol_stays(doc: AsyncApiSpec, refs: Seq<String>, k: nat, n: nat)
    requires
        k <= n,
        protocol_of_refs(doc, refs, k) is Some,
    ensures
        protocol_of_refs(doc, refs, n) == protocol_of_refs(doc, refs, k),
    decreases n,
{
    if n > k {
        lemma_protocol_stays(doc, refs, k, (n - 1) as nat);
    }
}

/// Without servers no channel has a protocol.
pub proof fn lemma_no_servers_no_protocol(doc: AsyncApiSpec, refs: Seq<String>, n: nat)
    requires
        servers_of(doc).len() == 0,
        n <= refs.len(),
    ensures
        protocol_of_refs(doc, refs, n) is None,
    decreases n,
{
    if n > 0 {
        lemma_no_servers_no_protocol(doc, refs, (n - 1) as nat);
    }
}

/// Checks that inline channel bindings carry the key of the protocol: `kafka`,
/// `mqtt` or `nats`. Bindings for another protocol are not looked at.
pub fn validate_channel_bindings(protocol: &str, bindings: &JsonValue, channel_name: &str) -> (result:
    Result<(), ValidationError>)
    ensures
        outcome(result) == binding_violation(protocol@, *bindings, channel_name@),
{
    if same_text(protocol, "kafka") {
        if bindings.get("kafka").is_none() {
            return Err(
                ValidationError::InvalidSchema(binding_key_message(channel_name, "Kafka", "kafka")),
            );
        }
    } else if same_text(protocol, "mqtt") {
        if bindings.get("mqtt").is_none() {
            return Err(
                ValidationError::InvalidSchema(binding_key_message(channel_name, "MQTT", "mqtt")),
            );
        }
    } else if same_text(protocol, "nats") {
        if bindings.get("nats").is_none() {
            return Err(
                ValidationError::InvalidSchema(binding_key_message(channel_name, "NATS", "nats")),
            );
        }
    }
    Ok(())
}

} // verus!

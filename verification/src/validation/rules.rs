use crate::error::Violation;
use crate::json::JsonValue;
use crate::model::{
    AsyncApiSpec, Channel, ChannelBindingsOrRef, Message, MessageOrRef, MessageReference,
    Operation, Server,
};
use crate::name_map::{first_index_of, has_name, names_of};
use crate::protocol::{is_supported_protocol, supported_protocols};
use crate::text::{contains_text, debug_list_text, first_position, is_prefix_of};
use crate::validation::texts::{
    bad_operation_reference_text, bad_reference_text, binding_key_text, component_duplicate_id_text, component_null_schema_text, duplicate_id_text, missing_channel_message_text, missing_channel_text, missing_component_text, no_component_messages_text, no_components_text, no_servers_text, null_schema_text, operation_missing_component_text, operation_no_component_messages_text, operation_no_components_text, unknown_server_text, unsupported_protocol_text,
};
use vstd::prelude::*;

verus! {

/// The first of two findings.
pub open spec fn or_else(first: Option<Violation>, second: Option<Violation>) -> Option<
    Violation,
> {
    if first is Some {
        first
    } else {
        second
    }
}

/// The prefix of a reference to a component message.
pub open spec fn component_prefix() -> Seq<char> {
    "#/components/messages/"@
}

/// The prefix of a reference into the channels.
pub open spec fn channel_prefix() -> Seq<char> {
    "#/channels/"@
}

/// What separates the channel's name from the message's in a channel-scoped
/// reference.
pub open spec fn message_separator() -> Seq<char> {
    "/messages/"@
}

/// What follows the first `skip` characters of `path`.
pub open spec fn after(path: Seq<char>, skip: Seq<char>) -> Seq<char> {
    path.subrange(skip.len() as int, path.len() as int)
}

/// The document's servers, none where the map is absent.
pub open spec fn servers_of(doc: AsyncApiSpec) -> Seq<(String, Server)> {
    match doc.servers {
        Some(servers) => servers@,
        None => Seq::empty(),
    }
}

/// The server names that a channel lists, none where the list is absent.
pub open spec fn server_refs(channel: Channel) -> Seq<String> {
    match channel.servers {
        Some(refs) => refs@,
        None => Seq::empty(),
    }
}

/// The version, title and version of the info section.
pub open spec fn header_violation(doc: AsyncApiSpec) -> Option<Violation> {
    if doc.asyncapi@ != "3.0.0"@ {
        Some(Violation::InvalidAsyncApiVersion(doc.asyncapi@))
    } else if doc.info.title@.len() == 0 {
        Some(Violation::MissingRequiredField("info.title"@))
    } else if doc.info.version@.len() == 0 {
        Some(Violation::MissingRequiredField("info.version"@))
    } else {
        None
    }
}

/// The text that reports the unknown server `name`.
pub open spec fn server_ref_text(doc: AsyncApiSpec, name: Seq<char>) -> Seq<char> {
    if servers_of(doc).len() == 0 {
        no_servers_text(name)
    } else {
        unknown_server_text(name, debug_list_text(names_of(servers_of(doc))))
    }
}

/// The first of the first `n` server names of `refs` that the document does
/// not define.
pub open spec fn server_refs_violation(doc: AsyncApiSpec, refs: Seq<String>, n: nat) -> Option<
    Violation,
>
    decreases n,
{
    if n == 0 {
        None
    } else {
        or_else(
            server_refs_violation(doc, refs, (n - 1) as nat),
            if has_name(servers_of(doc), refs[n - 1]@) {
                None
            } else {
                Some(Violation::InvalidServerReference(server_ref_text(doc, refs[n - 1]@)))
            },
        )
    }
}

/// How a reference to a component message fares.
#[derive(Debug, Clone, Copy, PartialEq, Eq)]
pub enum Lookup {
    /// The components hold a message of that name.
    Found,
    /// The components' messages hold no entry of that name.
    Missing,
    /// The components hold no messages.
    NoMessages,
    /// The document has no components.
    NoComponents,
}

/// How a reference to the component message `component` fares.
pub open spec fn component_lookup(doc: AsyncApiSpec, component: Seq<char>) -> Lookup {
    match doc.components {
        None => Lookup::NoComponents,
        Some(components) => match components.messages {
            None => Lookup::NoMessages,
            Some(messages) => if messages.has(component) {
                Lookup::Found
            } else {
                Lookup::Missing
            },
        },
    }
}

/// Whether a reference to the component message `component` resolves; the
/// three texts report a missing entry, missing messages and missing
/// components.
pub open spec fn component_violation(
    doc: AsyncApiSpec,
    component: Seq<char>,
    missing: Seq<char>,
    no_messages: Seq<char>,
    no_components: Seq<char>,
) -> Option<Violation> {
    match component_lookup(doc, component) {
        Lookup::Found => None,
        Lookup::Missing => Some(Violation::InvalidSchema(missing)),
        Lookup::NoMessages => Some(Violation::InvalidSchema(no_messages)),
        Lookup::NoComponents => Some(Violation::InvalidSchema(no_components)),
    }
}

/// Whether the reference `path` of the message `message` in `channel`
/// resolves.
pub open spec fn reference_violation(
    doc: AsyncApiSpec,
    channel: Seq<char>,
    message: Seq<char>,
    path: Seq<char>,
) -> Option<Violation> {
    if is_prefix_of(component_prefix(), path) {
        let component = after(path, component_prefix());
        component_violation(
            doc,
            component,
            missing_component_text(message, channel, component),
            no_component_messages_text(message, channel, component),
            no_components_text(message, channel, component),
        )
    } else if is_prefix_of(channel_prefix(), path) && contains_text(
        after(path, channel_prefix()),
        message_separator(),
    ) {
        let rest = after(path, channel_prefix());
        let at = first_position(rest, message_separator());
        let target_channel = rest.subrange(0, at);
        let target_message = rest.subrange(at + message_separator().len(), rest.len() as int);
        if !doc.channels.has(target_channel) {
            Some(
                Violation::InvalidSchema(missing_channel_text(message, channel, target_channel)),
            )
        } else if !doc.channels.value_of(target_channel).messages.has(target_message) {
            Some(
                Violation::InvalidSchema(
                    missing_channel_message_text(message, channel, target_message, target_channel),
                ),
            )
        } else {
            None
        }
    } else {
        Some(Violation::InvalidSchema(bad_reference_text(channel, message, path)))
    }
}

/// What is wrong with one message of a channel, given the ids seen before it.
pub open spec fn message_violation(
    doc: AsyncApiSpec,
    channel: Seq<char>,
    name: Seq<char>,
    message: MessageOrRef,
    seen: Set<Seq<char>>,
) -> Option<Violation> {
    match message {
        MessageOrRef::Message(inline) => if inline.payload.schema == JsonValue::Null {
            Some(Violation::InvalidSchema(null_schema_text(name, channel)))
        } else {
            match inline.message_id {
                Some(id) => if seen.contains(id@) {
                    Some(Violation::DuplicateMessageId(duplicate_id_text(id@, channel, name)))
                } else {
                    None
                },
                None => None,
            }
        },
        MessageOrRef::Ref(reference) => reference_violation(
            doc,
            channel,
            name,
            reference.ref_path@,
        ),
    }
}

/// The ids seen after one message of a channel.
pub open spec fn seen_after_message(message: MessageOrRef, seen: Set<Seq<char>>) -> Set<
    Seq<char>,
> {
    match message {
        MessageOrRef::Message(inline) => match inline.message_id {
            Some(id) => seen.insert(id@),
            None => seen,
        },
        MessageOrRef::Ref(_) => seen,
    }
}

/// The ids seen after the first `n` messages of a channel.
pub open spec fn seen_after_messages(
    messages: Seq<(String, MessageOrRef)>,
    seen: Set<Seq<char>>,
    n: nat,
) -> Set<Seq<char>>
    decreases n,
{
    if n == 0 {
        seen
    } else {
        seen_after_message(messages[n - 1].1, seen_after_messages(messages, seen, (n - 1) as nat))
    }
}

/// The first violation among the first `n` messages of a channel.
pub open spec fn messages_violation(
    doc: AsyncApiSpec,
    channel: Seq<char>,
    messages: Seq<(String, MessageOrRef)>,
    seen: Set<Seq<char>>,
    n: nat,
) -> Option<Violation>
    decreases n,
{
    if n == 0 {
        None
    } else {
        or_else(
            messages_violation(doc, channel, messages, seen, (n - 1) as nat),
            message_violation(
                doc,
                channel,
                messages[n - 1].0@,
                messages[n - 1].1,
                seen_after_messages(messages, seen, (n - 1) as nat),
            ),
        )
    }
}

/// What is wrong with one channel, given the ids seen before it: no message,
/// an unknown server, or a message that breaks a rule.
pub open spec fn channel_violation(
    doc: AsyncApiSpec,
    name: Seq<char>,
    channel: Channel,
    seen: Set<Seq<char>>,
) -> Option<Violation> {
    if channel.messages@.len() == 0 {
        Some(Violation::ChannelWithoutMessages(name))
    } else {
        or_else(
            server_refs_violation(doc, server_refs(channel), server_refs(channel).len()),
            messages_violation(doc, name, channel.messages@, seen, channel.messages@.len()),
        )
    }
}

/// The ids seen after the first `n` channels.
pub open spec fn seen_after_channels(doc: AsyncApiSpec, n: nat) -> Set<Seq<char>>
    decreases n,
{
    if n == 0 {
        Set::empty()
    } else {
        seen_after_messages(
            doc.channels@[n - 1].1.messages@,
            seen_after_channels(doc, (n - 1) as nat),
            doc.channels@[n - 1].1.messages@.len(),
        )
    }
}

/// The first violation among the first `n` channels.
pub open spec fn channels_violation(doc: AsyncApiSpec, n: nat) -> Option<Violation>
    decreases n,
{
    if n == 0 {
        None
    } else {
        or_else(
            channels_violation(doc, (n - 1) as nat),
            channel_violation(
                doc,
                doc.channels@[n - 1].0@,
                doc.channels@[n - 1].1,
                seen_after_channels(doc, (n - 1) as nat),
            ),
        )
    }
}

/// What is wrong with one message reference of the operation `operation`.
pub open spec fn operation_ref_violation(doc: AsyncApiSpec, operation: Seq<char>, path: Seq<char>) -> Option<
    Violation,
> {
    if is_prefix_of(component_prefix(), path) {
        let component = after(path, component_prefix());
        component_violation(
            doc,
            component,
            operation_missing_component_text(operation, component),
            operation_no_component_messages_text(operation, component),
            operation_no_components_text(operation, component),
        )
    } else if is_prefix_of(channel_prefix(), path) {
        None
    } else {
        Some(Violation::InvalidSchema(bad_operation_reference_text(operation, path)))
    }
}

/// The first violation among the first `n` message references of an operation.
pub open spec fn operation_refs_violation(
    doc: AsyncApiSpec,
    operation: Seq<char>,
    refs: Seq<MessageReference>,
    n: nat,
) -> Option<Violation>
    decreases n,
{
    if n == 0 {
        None
    } else {
        or_else(
            operation_refs_violation(doc, operation, refs, (n - 1) as nat),
            operation_ref_violation(doc, operation, refs[n - 1].ref_path@),
        )
    }
}

/// What is wrong with the operation stored under `id`.
pub open spec fn operation_violation(doc: AsyncApiSpec, id: Seq<char>, operation: Operation) -> Option<
    Violation,
> {
    if !is_prefix_of(channel_prefix(), operation.channel.ref_path@) {
        Some(Violation::InvalidChannelReference(operation.channel.ref_path@))
    } else {
        operation_refs_violation(doc, id, operation.messages@, operation.messages@.len())
    }
}

/// The first violation among the first `n` of the operations.
pub open spec fn operations_violation(
    doc: AsyncApiSpec,
    operations: Seq<(String, Operation)>,
    n: nat,
) -> Option<Violation>
    decreases n,
{
    if n == 0 {
        None
    } else {
        or_else(
            operations_violation(doc, operations, (n - 1) as nat),
            operation_violation(doc, operations[n - 1].0@, operations[n - 1].1),
        )
    }
}

/// The first violation among all operations, none where there are none.
pub open spec fn all_operations_violation(doc: AsyncApiSpec) -> Option<Violation> {
    match doc.operations {
        Some(operations) => operations_violation(doc, operations@, operations@.len()),
        None => None,
    }
}

/// The first of the first `n` servers whose protocol is not supported.
pub open spec fn protocols_violation(servers: Seq<(String, Server)>, n: nat) -> Option<Violation>
    decreases n,
{
    if n == 0 {
        None
    } else {
        or_else(
            protocols_violation(servers, (n - 1) as nat),
            if is_supported_protocol(servers[n - 1].1.protocol@) {
                None
            } else {
                Some(
                    Violation::InvalidProtocol(
                        unsupported_protocol_text(
                            servers[n - 1].0@,
                            servers[n - 1].1.protocol@,
                            debug_list_text(supported_protocols()),
                        ),
                    ),
                )
            },
        )
    }
}

/// The protocol of the first of the first `n` server names of `refs` that the
/// document defines.
pub open spec fn protocol_of_refs(doc: AsyncApiSpec, refs: Seq<String>, n: nat) -> Option<
    Seq<char>,
>
    decreases n,
{
    if n == 0 {
        None
    } else {
        match protocol_of_refs(doc, refs, (n - 1) as nat) {
            Some(protocol) => Some(protocol),
            None => if has_name(servers_of(doc), refs[n - 1]@) {
                Some(
                    servers_of(doc)[first_index_of(servers_of(doc), refs[n - 1]@)].1.protocol@,
                )
            } else {
                None
            },
        }
    }
}

/// The protocol of a channel: that of the first server it lists that the
/// document defines.
pub open spec fn channel_protocol(channel: Channel, doc: AsyncApiSpec) -> Option<Seq<char>> {
    protocol_of_refs(doc, server_refs(channel), server_refs(channel).len())
}

/// Whether inline bindings carry the key of the channel's protocol.
pub open spec fn binding_violation(protocol: Seq<char>, bindings: JsonValue, channel: Seq<char>) -> Option<
    Violation,
> {
    if protocol == "kafka"@ && !bindings.has_member("kafka"@) {
        Some(Violation::InvalidSchema(binding_key_text(channel, "Kafka"@, "kafka"@)))
    } else if protocol == "mqtt"@ && !bindings.has_member("mqtt"@) {
        Some(Violation::InvalidSchema(binding_key_text(channel, "MQTT"@, "mqtt"@)))
    } else if protocol == "nats"@ && !bindings.has_member("nats"@) {
        Some(Violation::InvalidSchema(binding_key_text(channel, "NATS"@, "nats"@)))
    } else {
        None
    }
}

/// What is wrong with the bindings of one channel.
pub open spec fn channel_bindings_violation(doc: AsyncApiSpec, name: Seq<char>, channel: Channel) -> Option<
    Violation,
> {
    match channel.bindings {
        Some(ChannelBindingsOrRef::Bindings(bindings)) => match channel_protocol(channel, doc) {
            Some(protocol) => binding_violation(protocol, bindings, name),
            None => None,
        },
        _ => None,
    }
}

/// The first violation among the bindings of the first `n` channels.
pub open spec fn bindings_violation(doc: AsyncApiSpec, n: nat) -> Option<Violation>
    decreases n,
{
    if n == 0 {
        None
    } else {
        or_else(
            bindings_violation(doc, (n - 1) as nat),
            channel_bindings_violation(doc, doc.channels@[n - 1].0@, doc.channels@[n - 1].1),
        )
    }
}

/// What is wrong with one component message, given the ids seen before it.
pub open spec fn component_message_violation(name: Seq<char>, message: Message, seen: Set<Seq<char>>) -> Option<
    Violation,
> {
    if message.payload.schema == JsonValue::Null {
        Some(Violation::InvalidSchema(component_null_schema_text(name)))
    } else {
        match message.message_id {
            Some(id) => if seen.contains(id@) {
                Some(Violation::DuplicateMessageId(component_duplicate_id_text(id@, name)))
            } else {
                None
            },
            None => None,
        }
    }
}

/// The ids seen after the first `n` component messages.
pub open spec fn seen_after_components(messages: Seq<(String, Message)>, seen: Set<Seq<char>>, n: nat) -> Set<
    Seq<char>,
>
    decreases n,
{
    if n == 0 {
        seen
    } else {
        let before = seen_after_components(messages, seen, (n - 1) as nat);
        match messages[n - 1].1.message_id {
            Some(id) => before.insert(id@),
            None => before,
        }
    }
}

/// The first violation among the first `n` component messages.
pub open spec fn components_violation(messages: Seq<(String, Message)>, seen: Set<Seq<char>>, n: nat) -> Option<
    Violation,
>
    decreases n,
{
    if n == 0 {
        None
    } else {
        or_else(
            components_violation(messages, seen, (n - 1) as nat),
            component_message_violation(
                messages[n - 1].0@,
                messages[n - 1].1,
                seen_after_components(messages, seen, (n - 1) as nat),
            ),
        )
    }
}

/// The component messages of the document, none where they are absent.
pub open spec fn component_messages(doc: AsyncApiSpec) -> Seq<(String, Message)> {
    match doc.components {
        Some(components) => match components.messages {
            Some(messages) => messages@,
            None => Seq::empty(),
        },
        None => Seq::empty(),
    }
}

/// The first rule that the document breaks, in the order in which they are
/// checked: version and info; at least one channel; each channel in turn;
/// each operation in turn; each server's protocol; each channel's bindings;
/// each component message. `None` where no rule is broken.
pub open spec fn first_violation(doc: AsyncApiSpec) -> Option<Violation> {
    let channels = doc.channels@.len();
    or_else(
        header_violation(doc),
        or_else(
            if channels == 0 {
                Some(Violation::EmptyChannels)
            } else {
                None
            },
            or_else(
                channels_violation(doc, channels),
                or_else(
                    all_operations_violation(doc),
                    or_else(
                        protocols_violation(servers_of(doc), servers_of(doc).len()),
                        or_else(
                            bindings_violation(doc, channels),
                            components_violation(
                                component_messages(doc),
                                seen_after_channels(doc, channels),
                                component_messages(doc).len(),
                            ),
                        ),
                    ),
                ),
            ),
        ),
    )
}

} // verus!

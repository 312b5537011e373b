use crate::error::{outcome, ValidationError};
use crate::model::{
    AsyncApiSpec, Channel, ChannelBindingsOrRef, Message, MessageOrRef, MessageReference,
    Operation,
};
use crate::name_map::{has_name, NameMap};
use crate::protocol::{supported_protocol_list, validate_protocol};
use crate::text::{debug_list, find_first, same_text, starts_with, strip_prefix};
use crate::types::ASYNCAPI_VERSION;
use crate::validation::bindings::{get_channel_protocol, validate_channel_bindings};
use crate::validation::laws::{lemma_accepted_iff_well_formed, well_formed};
use crate::validation::rules::{
    all_operations_violation, bindings_violation, channel_bindings_violation, channel_violation,
    channels_violation, component_lookup, component_messages, component_message_violation,
    components_violation, first_violation, header_violation, message_violation,
    messages_violation, operation_ref_violation, operation_refs_violation, operation_violation,
    operations_violation, protocols_violation, reference_violation, seen_after_channels,
    seen_after_components, seen_after_message, seen_after_messages, server_ref_text,
    server_refs_violation, servers_of, Lookup,
};
use crate::validation::texts::{
    bad_operation_reference_message, bad_reference_message, component_duplicate_id_message,
    component_null_schema_message, duplicate_id_message, missing_channel_message,
    missing_channel_message_message, missing_component_message, no_component_messages_message,
    no_components_message, no_servers_message, null_schema_message,
    operation_missing_component_message, operation_no_component_messages_message,
    operation_no_components_message, unknown_server_message, unsupported_protocol_message,
};
use vstd::prelude::*;
use vstd::string::*;

verus! {

/// The message ids that a list holds.
pub open spec fn id_set(ids: Seq<String>) -> Set<Seq<char>> {
    Set::new(|id: Seq<char>| exists|i: int| 0 <= i < ids.len() && (#[trigger] ids[i])@ == id)
}

fn contains_id(seen: &Vec<String>, id: &str) -> (found: bool)
    ensures
        found == id_set(seen@).contains(id@),
{
    let mut i: usize = 0;
    while i < seen.len()
        invariant
            i <= seen@.len(),
            forall|j: int| 0 <= j < i ==> (#[trigger] seen@[j])@ != id@,
        decreases seen@.len() - i,
    {
        if same_text(seen[i].as_str(), id) {
            return true;
        }
        i = i + 1;
    }
    false
}

fn remember_id(seen: &mut Vec<String>, id: &str)
    ensures
        id_set(final(seen)@) == id_set(old(seen)@).insert(id@),
{
    let ghost before = seen@;
    seen.push(String::from_str(id));
    proof {
        let after = seen@;
        assert forall|x: Seq<char>| id_set(after).contains(x) <==> id_set(before).insert(
            id@,
        ).contains(x) by {
            if id_set(after).contains(x) {
                let i = choose|i: int| 0 <= i < after.len() && (#[trigger] after[i])@ == x;
                if i < before.len() {
                    assert(before[i]@ == x);
                }
            }
            if id_set(before).contains(x) {
                let i = choose|i: int| 0 <= i < before.len() && (#[trigger] before[i])@ == x;
                assert(after[i]@ == x);
            }
            if x == id@ {
                assert(after[before.len() as int]@ == x);
            }
        }
        assert(id_set(after) =~= id_set(before).insert(id@));
    }
}

fn check_header(doc: &AsyncApiSpec) -> (result: Result<(), ValidationError>)
    ensures
        outcome(result) == header_violation(*doc),
{
    if !same_text(doc.asyncapi.as_str(), ASYNCAPI_VERSION) {
        return Err(ValidationError::InvalidAsyncApiVersion(doc.asyncapi.clone()));
    }
    if doc.info.title.as_str().is_empty() {
        return Err(ValidationError::MissingRequiredField(String::from_str("info.title")));
    }
    if doc.info.version.as_str().is_empty() {
        return Err(ValidationError::MissingRequiredField(String::from_str("info.version")));
    }
    Ok(())
}

fn has_server(doc: &AsyncApiSpec, name: &str) -> (found: bool)
    ensures
        found == has_name(servers_of(*doc), name@),
{
    match &doc.servers {
        Some(servers) => servers.contains_key(name),
        None => false,
    }
}

fn server_ref_message(doc: &AsyncApiSpec, name: &str) -> (text: String)
    ensures
        text@ == server_ref_text(*doc, name@),
{
    match &doc.servers {
        Some(servers) => {
            if servers.is_empty() {
                no_servers_message(name)
            } else {
                let available = servers.names();
                let listed = debug_list(&available);
                unknown_server_message(name, listed.as_str())
            }
        },
        None => no_servers_message(name),
    }
}

fn check_server_refs(doc: &AsyncApiSpec, refs: &Vec<String>) -> (result: Result<
    (),
    ValidationError,
>)
    ensures
        outcome(result) == server_refs_violation(*doc, refs@, refs@.len()),
{
    let mut i: usize = 0;
    while i < refs.len()
        invariant
            i <= refs@.len(),
            server_refs_violation(*doc, refs@, i as nat) is None,
        decreases refs@.len() - i,
    {
        let name = refs[i].as_str();
        if !has_server(doc, name) {
            proof {
                lemma_server_refs_found(*doc, refs@, (i + 1) as nat, refs@.len());
            }
            return Err(ValidationError::InvalidServerReference(server_ref_message(doc, name)));
        }
        i = i + 1;
    }
    Ok(())
}

/// A violation found among the first `k` server names is the one found among
/// the first `n`, for `n` at least `k`.
pub proof fn lemma_server_refs_found(doc: AsyncApiSpec, refs: Seq<String>, k: nat, n: nat)
    requires
        k <= n,
        server_refs_violation(doc, refs, k) is Some,
    ensures
        server_refs_violation(doc, refs, n) == server_refs_violation(doc, refs, k),
    decreases n,
{
    if n > k {
        lemma_server_refs_found(doc, refs, k, (n - 1) as nat);
    }
}

fn resolve_component(doc: &AsyncApiSpec, component: &str) -> (lookup: Lookup)
    ensures
        lookup == component_lookup(*doc, component@),
{
    match &doc.components {
        None => Lookup::NoComponents,
        Some(components) => match &components.messages {
            None => Lookup::NoMessages,
            Some(messages) => if messages.contains_key(component) {
                Lookup::Found
            } else {
                Lookup::Missing
            },
        },
    }
}

fn check_reference(doc: &AsyncApiSpec, channel: &str, name: &str, path: &str) -> (result: Result<
    (),
    ValidationError,
>)
    ensures
        outcome(result) == reference_violation(*doc, channel@, name@, path@),
{
    match strip_prefix(path, "#/components/messages/") {
        Some(component) => {
            return match resolve_component(doc, component) {
                Lookup::Found => Ok(()),
                Lookup::Missing => Err(
                    ValidationError::InvalidSchema(
                        missing_component_message(name, channel, component),
                    ),
                ),
                Lookup::NoMessages => Err(
                    ValidationError::InvalidSchema(
                        no_component_messages_message(name, channel, component),
                    ),
                ),
                Lookup::NoComponents => Err(
                    ValidationError::InvalidSchema(no_components_message(name, channel, component)),
                ),
            };
        },
        None => {},
    }
    match strip_prefix(path, "#/channels/") {
        Some(rest) => match find_first(rest, "/messages/") {
            Some(at) => {
                let width = "/messages/".unicode_len();
                let end = rest.unicode_len();
                let target_channel = rest.substring_char(0, at);
                let target_message = rest.substring_char(at + width, end);
                match doc.channels.get(target_channel) {
                    None => Err(
                        ValidationError::InvalidSchema(
                            missing_channel_message(name, channel, target_channel),
                        ),
                    ),
                    Some(target) => if target.messages.contains_key(target_message) {
                        Ok(())
                    } else {
                        Err(
                            ValidationError::InvalidSchema(
                                missing_channel_message_message(
                                    name,
                                    channel,
                                    target_message,
                                    target_channel,
                                ),
                            ),
                        )
                    },
                }
            },
            None => Err(ValidationError::InvalidSchema(bad_reference_message(channel, name, path))),
        },
        None => Err(ValidationError::InvalidSchema(bad_reference_message(channel, name, path))),
    }
}

fn check_message(
    doc: &AsyncApiSpec,
    channel: &str,
    name: &str,
    message: &MessageOrRef,
    seen: &mut Vec<String>,
) -> (result: Result<(), ValidationError>)
    ensures
        outcome(result) == message_violation(*doc, channel@, name@, *message, id_set(old(seen)@)),
        result is Ok ==> id_set(final(seen)@) == seen_after_message(
            *message,
            id_set(old(seen)@),
        ),
{
    match message {
        MessageOrRef::Message(inline) => {
            if inline.payload.schema.is_null() {
                return Err(ValidationError::InvalidSchema(null_schema_message(name, channel)));
            }
            match &inline.message_id {
                Some(id) => {
                    if contains_id(seen, id.as_str()) {
                        return Err(
                            ValidationError::DuplicateMessageId(
                                duplicate_id_message(id.as_str(), channel, name),
                            ),
                        );
                    }
                    remember_id(seen, id.as_str());
                },
                None => {},
            }
            Ok(())
        },
        MessageOrRef::Ref(reference) => check_reference(
            doc,
            channel,
            name,
            reference.ref_path.as_str(),
        ),
    }
}

/// A violation found among the first `k` messages is the one found among the
/// first `n`, for `n` at least `k`.
pub proof fn lemma_messages_found(
    doc: AsyncApiSpec,
    channel: Seq<char>,
    messages: Seq<(String, MessageOrRef)>,
    seen: Set<Seq<char>>,
    k: nat,
    n: nat,
)
    requires
        k <= n,
        messages_violation(doc, channel, messages, seen, k) is Some,
    ensures
        messages_violation(doc, channel, messages, seen, n) == messages_violation(
            doc,
            channel,
            messages,
            seen,
            k,
        ),
    decreases n,
{
    if n > k {
        lemma_messages_found(doc, channel, messages, seen, k, (n - 1) as nat);
    }
}

fn check_messages(
    doc: &AsyncApiSpec,
    channel: &str,
    messages: &NameMap<MessageOrRef>,
    seen: &mut Vec<String>,
) -> (result: Result<(), ValidationError>)
    ensures
        outcome(result) == messages_violation(
            *doc,
            channel@,
            messages@,
            id_set(old(seen)@),
            messages@.len(),
        ),
        result is Ok ==> id_set(final(seen)@) == seen_after_messages(
            messages@,
            id_set(old(seen)@),
            messages@.len(),
        ),
{
    let ghost seen0 = id_set(seen@);
    let mut i: usize = 0;
    while i < messages.len()
        invariant
            i <= messages@.len(),
            seen0 == id_set(old(seen)@),
            messages_violation(*doc, channel@, messages@, seen0, i as nat) is None,
            id_set(seen@) == seen_after_messages(messages@, seen0, i as nat),
        decreases messages@.len() - i,
    {
        let checked = check_message(
            doc,
            channel,
            messages.name_at(i).as_str(),
            messages.value_at(i),
            seen,
        );
        match checked {
            Err(e) => {
                proof {
                    assert(messages_violation(*doc, channel@, messages@, seen0, (i + 1) as nat)
                        == Some(e@));
                    lemma_messages_found(
                        *doc,
                        channel@,
                        messages@,
                        seen0,
                        (i + 1) as nat,
                        messages@.len(),
                    );
                }
                return Err(e);
            },
            Ok(_) => {},
        }
        i = i + 1;
    }
    Ok(())
}

fn check_channel(doc: &AsyncApiSpec, name: &str, channel: &Channel, seen: &mut Vec<String>) -> (result:
    Result<(), ValidationError>)
    ensures
        outcome(result) == channel_violation(*doc, name@, *channel, id_set(old(seen)@)),
        result is Ok ==> id_set(final(seen)@) == seen_after_messages(
            channel.messages@,
            id_set(old(seen)@),
            channel.messages@.len(),
        ),
{
    if channel.messages.is_empty() {
        return Err(ValidationError::ChannelWithoutMessages(String::from_str(name)));
    }
    match &channel.servers {
        Some(refs) => {
            match check_server_refs(doc, refs) {
                Err(e) => {
                    return Err(e);
                },
                Ok(_) => {},
            }
        },
        None => {},
    }
    check_messages(doc, name, &channel.messages, seen)
}

/// A violation found among the first `k` channels is the one found among the
/// first `n`, for `n` at least `k`.
pub proof fn lemma_channels_found(doc: AsyncApiSpec, k: nat, n: nat)
    requires
        k <= n,
        channels_violation(doc, k) is Some,
    ensures
        channels_violation(doc, n) == channels_violation(doc, k),
    decreases n,
{
    if n > k {
        lemma_channels_found(doc, k, (n - 1) as nat);
    }
}

fn check_channels(doc: &AsyncApiSpec, seen: &mut Vec<String>) -> (result: Result<
    (),
    ValidationError,
>)
    requires
        old(seen)@.len() == 0,
    ensures
        outcome(result) == channels_violation(*doc, doc.channels@.len()),
        result is Ok ==> id_set(final(seen)@) == seen_after_channels(*doc, doc.channels@.len()),
{
    proof {
        assert(id_set(seen@) =~= Set::<Seq<char>>::empty());
    }
    let mut i: usize = 0;
    while i < doc.channels.len()
        invariant
            i <= doc.channels@.len(),
            channels_violation(*doc, i as nat) is None,
            id_set(seen@) == seen_after_channels(*doc, i as nat),
        decreases doc.channels@.len() - i,
    {
        let checked = check_channel(
            doc,
            doc.channels.name_at(i).as_str(),
            doc.channels.value_at(i),
            seen,
        );
        match checked {
            Err(e) => {
                proof {
                    assert(channels_violation(*doc, (i + 1) as nat) == Some(e@));
                    lemma_channels_found(*doc, (i + 1) as nat, doc.channels@.len());
                }
                return Err(e);
            },
            Ok(_) => {},
        }
        i = i + 1;
    }
    Ok(())
}

fn check_operation_ref(doc: &AsyncApiSpec, operation: &str, path: &str) -> (result: Result<
    (),
    ValidationError,
>)
    ensures
        outcome(result) == operation_ref_violation(*doc, operation@, path@),
{
    match strip_prefix(path, "#/components/messages/") {
        Some(component) => match resolve_component(doc, component) {
            Lookup::Found => Ok(()),
            Lookup::Missing => Err(
                ValidationError::InvalidSchema(
                    operation_missing_component_message(operation, component),
                ),
            ),
            Lookup::NoMessages => Err(
                ValidationError::InvalidSchema(
                    operation_no_component_messages_message(operation, component),
                ),
            ),
            Lookup::NoComponents => Err(
                ValidationError::InvalidSchema(
                    operation_no_components_message(operation, component),
                ),
            ),
        },
        None => if starts_with(path, "#/channels/") {
            Ok(())
        } else {
            Err(ValidationError::InvalidSchema(bad_operation_reference_message(operation, path)))
        },
    }
}

/// A violation found among the first `k` references is the one found among
/// the first `n`, for `n` at least `k`.
pub proof fn lemma_operation_refs_found(
    doc: AsyncApiSpec,
    operation: Seq<char>,
    refs: Seq<MessageReference>,
    k: nat,
    n: nat,
)
    requires
        k <= n,
        operation_refs_violation(doc, operation, refs, k) is Some,
    ensures
        operation_refs_violation(doc, operation, refs, n) == operation_refs_violation(
            doc,
            operation,
            refs,
            k,
        ),
    decreases n,
{
    if n > k {
        lemma_operation_refs_found(doc, operation, refs, k, (n - 1) as nat);
    }
}

fn check_operation(doc: &AsyncApiSpec, id: &str, operation: &Operation) -> (result: Result<
    (),
    ValidationError,
>)
    ensures
        outcome(result) == operation_violation(*doc, id@, *operation),
{
    if !starts_with(operation.channel.ref_path.as_str(), "#/channels/") {
        return Err(ValidationError::InvalidChannelReference(operation.channel.ref_path.clone()));
    }
    let refs = &operation.messages;
    let mut i: usize = 0;
    while i < refs.len()
        invariant
            i <= refs@.len(),
            refs@ == operation.messages@,
            crate::text::is_prefix_of("#/channels/"@, operation.channel.ref_path@),
            operation_refs_violation(*doc, id@, refs@, i as nat) is None,
        decreases refs@.len() - i,
    {
        match check_operation_ref(doc, id, refs[i].ref_path.as_str()) {
            Err(e) => {
                proof {
                    assert(operation_refs_violation(*doc, id@, refs@, (i + 1) as nat) == Some(e@));
                    lemma_operation_refs_found(*doc, id@, refs@, (i + 1) as nat, refs@.len());
                }
                return Err(e);
            },
            Ok(_) => {},
        }
        i = i + 1;
    }
    Ok(())
}

/// A violation found among the first `k` operations is the one found among
/// the first `n`, for `n` at least `k`.
pub proof fn lemma_operations_found(
    doc: AsyncApiSpec,
    operations: Seq<(String, Operation)>,
    k: nat,
    n: nat,
)
    requires
        k <= n,
        operations_violation(doc, operations, k) is Some,
    ensures
        operations_violation(doc, operations, n) == operations_violation(doc, operations, k),
    decreases n,
{
    if n > k {
        lemma_operations_found(doc, operations, k, (n - 1) as nat);
    }
}

fn check_operations(doc: &AsyncApiSpec) -> (result: Result<(), ValidationError>)
    ensures
        outcome(result) == all_operations_violation(*doc),
{
    match &doc.operations {
        Some(operations) => {
            let mut i: usize = 0;
            while i < operations.len()
                invariant
                    i <= operations@.len(),
                    doc.operations == Some(*operations),
                    operations_violation(*doc, operations@, i as nat) is None,
                decreases operations@.len() - i,
            {
                match check_operation(
                    doc,
                    operations.name_at(i).as_str(),
                    operations.value_at(i),
                ) {
                    Err(e) => {
                        proof {
                            assert(operations_violation(*doc, operations@, (i + 1) as nat) == Some(
                                e@,
                            ));
                            lemma_operations_found(
                                *doc,
                                operations@,
                                (i + 1) as nat,
                                operations@.len(),
                            );
                        }
                        return Err(e);
                    },
                    Ok(_) => {},
                }
                i = i + 1;
            }
            Ok(())
        },
        None => Ok(()),
    }
}

/// A violation found among the first `k` servers is the one found among the
/// first `n`, for `n` at least `k`.
pub proof fn lemma_protocols_found(servers: Seq<(String, crate::model::Server)>, k: nat, n: nat)
    requires
        k <= n,
        protocols_violation(servers, k) is Some,
    ensures
        protocols_violation(servers, n) == protocols_violation(servers, k),
    decreases n,
{
    if n > k {
        lemma_protocols_found(servers, k, (n - 1) as nat);
    }
}

fn check_protocols(doc: &AsyncApiSpec) -> (result: Result<(), ValidationError>)
    ensures
        outcome(result) == protocols_violation(servers_of(*doc), servers_of(*doc).len()),
{
    match &doc.servers {
        Some(servers) => {
            let mut i: usize = 0;
            while i < servers.len()
                invariant
                    i <= servers@.len(),
                    servers@ == servers_of(*doc),
                    protocols_violation(servers@, i as nat) is None,
                decreases servers@.len() - i,
            {
                let server = servers.value_at(i);
                match validate_protocol(server.protocol.as_str()) {
                    Err(_) => {
                        let supported = supported_protocol_list();
                        let listed = debug_list(&supported);
                        let text = unsupported_protocol_message(
                            servers.name_at(i).as_str(),
                            server.protocol.as_str(),
                            listed.as_str(),
                        );
                        proof {
                            assert(protocols_violation(servers@, (i + 1) as nat) == Some(
                                crate::error::Violation::InvalidProtocol(text@),
                            ));
                            lemma_protocols_found(servers@, (i + 1) as nat, servers@.len());
                        }
                        return Err(ValidationError::InvalidProtocol(text));
                    },
                    Ok(_) => {},
                }
                i = i + 1;
            }
            Ok(())
        },
        None => Ok(()),
    }
}

fn check_channel_bindings(doc: &AsyncApiSpec, name: &str, channel: &Channel) -> (result: Result<
    (),
    ValidationError,
>)
    ensures
        outcome(result) == channel_bindings_violation(*doc, name@, *channel),
{
    match &channel.bindings {
        Some(ChannelBindingsOrRef::Bindings(bindings)) => match get_channel_protocol(channel, doc) {
            Some(protocol) => validate_channel_bindings(protocol.as_str(), bindings, name),
            None => Ok(()),
        },
        _ => Ok(()),
    }
}

/// A violation found among the bindings of the first `k` channels is the one
/// found among the first `n`, for `n` at least `k`.
pub proof fn lemma_bindings_found(doc: AsyncApiSpec, k: nat, n: nat)
    requires
        k <= n,
        bindings_violation(doc, k) is Some,
    ensures
        bindings_violation(doc, n) == bindings_violation(doc, k),
    decreases n,
{
    if n > k {
        lemma_bindings_found(doc, k, (n - 1) as nat);
    }
}

fn check_bindings(doc: &AsyncApiSpec) -> (result: Result<(), ValidationError>)
    ensures
        outcome(result) == bindings_violation(*doc, doc.channels@.len()),
{
    let mut i: usize = 0;
    while i < doc.channels.len()
        invariant
            i <= doc.channels@.len(),
            bindings_violation(*doc, i as nat) is None,
        decreases doc.channels@.len() - i,
    {
        match check_channel_bindings(
            doc,
            doc.channels.name_at(i).as_str(),
            doc.channels.value_at(i),
        ) {
            Err(e) => {
                proof {
                    assert(bindings_violation(*doc, (i + 1) as nat) == Some(e@));
                    lemma_bindings_found(*doc, (i + 1) as nat, doc.channels@.len());
                }
                return Err(e);
            },
            Ok(_) => {},
        }
        i = i + 1;
    }
    Ok(())
}

fn check_component_message(name: &str, message: &Message, seen: &mut Vec<String>) -> (result:
    Result<(), ValidationError>)
    ensures
        outcome(result) == component_message_violation(name@, *message, id_set(old(seen)@)),
        result is Ok ==> id_set(final(seen)@) == (match message.message_id {
            Some(id) => id_set(old(seen)@).insert(id@),
            None => id_set(old(seen)@),
        }),
{
    if message.payload.schema.is_null() {
        return Err(ValidationError::InvalidSchema(component_null_schema_message(name)));
    }
    match &message.message_id {
        Some(id) => {
            if contains_id(seen, id.as_str()) {
                return Err(
                    ValidationError::DuplicateMessageId(
                        component_duplicate_id_message(id.as_str(), name),
                    ),
                );
            }
            remember_id(seen, id.as_str());
        },
        None => {},
    }
    Ok(())
}

/// A violation found among the first `k` component messages is the one found
/// among the first `n`, for `n` at least `k`.
pub proof fn lemma_components_found(
    messages: Seq<(String, Message)>,
    seen: Set<Seq<char>>,
    k: nat,
    n: nat,
)
    requires
        k <= n,
        components_violation(messages, seen, k) is Some,
    ensures
        components_violation(messages, seen, n) == components_violation(messages, seen, k),
    decreases n,
{
    if n > k {
        lemma_components_found(messages, seen, k, (n - 1) as nat);
    }
}

fn check_components(doc: &AsyncApiSpec, seen: &mut Vec<String>) -> (result: Result<
    (),
    ValidationError,
>)
    ensures
        outcome(result) == components_violation(
            component_messages(*doc),
            id_set(old(seen)@),
            component_messages(*doc).len(),
        ),
{
    match &doc.components {
        Some(components) => match &components.messages {
            Some(messages) => {
                let ghost seen0 = id_set(seen@);
                let mut i: usize = 0;
                while i < messages.len()
                    invariant
                        i <= messages@.len(),
                        messages@ == component_messages(*doc),
                        seen0 == id_set(old(seen)@),
                        components_violation(messages@, seen0, i as nat) is None,
                        id_set(seen@) == seen_after_components(messages@, seen0, i as nat),
                    decreases messages@.len() - i,
                {
                    match check_component_message(
                        messages.name_at(i).as_str(),
                        messages.value_at(i),
                        seen,
                    ) {
                        Err(e) => {
                            proof {
                                assert(components_violation(messages@, seen0, (i + 1) as nat)
                                    == Some(e@));
                                lemma_components_found(
                                    messages@,
                                    seen0,
                                    (i + 1) as nat,
                                    messages@.len(),
                                );
                            }
                            return Err(e);
                        },
                        Ok(_) => {},
                    }
                    i = i + 1;
                }
                Ok(())
            },
            None => Ok(()),
        },
        None => Ok(()),
    }
}

/// Checks a document against the rules, in a fixed order, and reports the
/// first one that it breaks: version and info, at least one channel, each
/// channel with its server names and messages, each operation, each server's
/// protocol, each channel's inline bindings, each component message. The
/// documents that pass are exactly the well-formed ones.
pub fn validate_spec(spec: &AsyncApiSpec) -> (result: Result<(), ValidationError>)
    ensures
        outcome(result) == first_violation(*spec),
        result is Ok <==> well_formed(*spec),
{
    proof {
        lemma_accepted_iff_well_formed(*spec);
    }
    match check_header(spec) {
        Err(e) => {
            return Err(e);
        },
        Ok(_) => {},
    }
    if spec.channels.is_empty() {
        return Err(ValidationError::EmptyChannels);
    }
    let mut seen: Vec<String> = Vec::new();
    match check_channels(spec, &mut seen) {
        Err(e) => {
            return Err(e);
        },
        Ok(_) => {},
    }
    match check_operations(spec) {
        Err(e) => {
            return Err(e);
        },
        Ok(_) => {},
    }
    match check_protocols(spec) {
        Err(e) => {
            return Err(e);
        },
        Ok(_) => {},
    }
    match check_bindings(spec) {
        Err(e) => {
            return Err(e);
        },
        Ok(_) => {},
    }
    check_components(spec, &mut seen)
}

} // verus!

use crate::json::JsonValue;
use crate::model::info::ExternalDocumentation;
use crate::model::operation::MessageReference;
use crate::model::traits::MessageTrait;
use crate::name_map::NameMap;
use crate::text::{is_prefix_of, joined, starts_with, strip_prefix};
use vstd::prelude::*;

verus! {

/// A message, inline or by reference.
#[derive(Debug, Clone)]
pub enum MessageOrRef {
    Message(Message),
    Ref(MessageReference),
}

impl MessageOrRef {
    /// Whether the value is a reference into the components' messages.
    pub open spec fn spec_is_component_ref(self) -> bool {
        self is Ref && is_prefix_of("#/components/messages/"@, self->Ref_0.ref_path@)
    }

    /// An inline message.
    pub fn message(message: Message) -> (r: Self)
        ensures
            r == MessageOrRef::Message(message),
    {
        MessageOrRef::Message(message)
    }

    /// A reference to the message `component_name` of the components.
    pub fn component_ref(component_name: &str) -> (r: Self)
        ensures
            r is Ref,
            r->Ref_0.ref_path@ == "#/components/messages/"@ + component_name@,
    {
        MessageOrRef::Ref(
            MessageReference { ref_path: joined("#/components/messages/", component_name) },
        )
    }

    /// A reference to the message `message_name` of the channel `channel_name`.
    pub fn channel_ref(channel_name: &str, message_name: &str) -> (r: Self)
        ensures
            r is Ref,
            r->Ref_0.ref_path@ == "#/channels/"@ + channel_name@ + "/messages/"@ + message_name@,
    {
        let mut path = joined("#/channels/", channel_name);
        path.append("/messages/");
        path.append(message_name);
        MessageOrRef::Ref(MessageReference { ref_path: path })
    }

    /// A reference made by `component_ref` for a component is a component
    /// reference, and `component_name` reads that component's name from it.
    pub proof fn lemma_component_ref_round_trip(reference: MessageOrRef, name: Seq<char>)
        requires
            reference is Ref,
            reference->Ref_0.ref_path@ == "#/components/messages/"@ + name,
        ensures
            reference.spec_is_component_ref(),
            reference->Ref_0.ref_path@.subrange(
                "#/components/messages/"@.len() as int,
                reference->Ref_0.ref_path@.len() as int,
            ) == name,
    {
        let prefix = "#/components/messages/"@;
        let path = reference->Ref_0.ref_path@;
        assert(path.subrange(0, prefix.len() as int) =~= prefix);
        assert(path.subrange(prefix.len() as int, path.len() as int) =~= name);
    }

    /// Whether the value is a reference into the components' messages.
    pub fn is_component_ref(&self) -> (b: bool)
        ensures
            b == self.spec_is_component_ref(),
    {
        match self {
            MessageOrRef::Ref(reference) => starts_with(
                reference.ref_path.as_str(),
                "#/components/messages/",
            ),
            _ => false,
        }
    }

    /// The name of the component that the value refers to, where it is a
    /// reference into the components' messages.
    pub fn component_name(&self) -> (name: Option<&str>)
        ensures
            name.is_some() <==> self.spec_is_component_ref(),
            name.is_some() ==> name.unwrap()@ == self->Ref_0.ref_path@.subrange(
                "#/components/messages/"@.len() as int,
                self->Ref_0.ref_path@.len() as int,
            ),
    {
        match self {
            MessageOrRef::Ref(reference) => strip_prefix(
                reference.ref_path.as_str(),
                "#/components/messages/",
            ),
            _ => None,
        }
    }
}

/// A named addressable path over which messages flow.
#[derive(Debug, Clone)]
pub struct Channel {
    /// Channel address
    pub address: String,
    pub description: Option<String>,
    /// Messages by name
    pub messages: NameMap<MessageOrRef>,
    /// Names of the servers on which the channel is available
    pub servers: Option<Vec<String>>,
    pub parameters: Option<NameMap<Parameter>>,
    pub bindings: Option<ChannelBindingsOrRef>,
}

/// Where to find the identifier that correlates messages.
#[derive(Debug, Clone)]
pub struct CorrelationId {
    /// Runtime expression that locates the identifier
    pub location: String,
    pub description: Option<String>,
}

/// A message definition.
#[derive(Debug, Clone)]
pub struct Message {
    pub message_id: Option<String>,
    pub name: Option<String>,
    pub title: Option<String>,
    pub summary: Option<String>,
    pub description: Option<String>,
    pub content_type: Option<String>,
    pub tags: Option<Vec<Tag>>,
    pub payload: MessagePayload,
    pub external_docs: Option<ExternalDocumentation>,
    pub examples: Option<Vec<JsonValue>>,
    pub headers: Option<MessagePayload>,
    pub correlation_id: Option<CorrelationId>,
    pub traits: Option<Vec<MessageTraitOrRef>>,
    pub bindings: Option<MessageBindingsOrRef>,
}

/// The schema of a message's payload or headers.
#[derive(Debug, Clone)]
pub struct MessagePayload {
    pub schema: JsonValue,
}

/// A label for grouping.
#[derive(Debug, Clone, PartialEq, Eq, Hash)]
pub struct Tag {
    pub name: String,
    pub description: Option<String>,
}

/// Channel bindings, inline or by reference.
#[derive(Debug, Clone)]
pub enum ChannelBindingsOrRef {
    Bindings(JsonValue),
    Ref(MessageReference),
}

impl ChannelBindingsOrRef {
    /// Inline bindings.
    pub fn bindings(bindings: JsonValue) -> (r: Self)
        ensures
            r == ChannelBindingsOrRef::Bindings(bindings),
    {
        ChannelBindingsOrRef::Bindings(bindings)
    }

    /// A reference to the channel bindings `component_name` of the components.
    pub fn component_ref(component_name: &str) -> (r: Self)
        ensures
            r is Ref,
            r->Ref_0.ref_path@ == "#/components/channelBindings/"@ + component_name@,
    {
        ChannelBindingsOrRef::Ref(
            MessageReference { ref_path: joined("#/components/channelBindings/", component_name) },
        )
    }
}

/// A message trait, inline or by reference.
#[derive(Debug, Clone)]
pub enum MessageTraitOrRef {
    Trait(MessageTrait),
    Ref(MessageReference),
}

impl MessageTraitOrRef {
    /// An inline trait.
    pub fn trait_(trait_: MessageTrait) -> (r: Self)
        ensures
            r == MessageTraitOrRef::Trait(trait_),
    {
        MessageTraitOrRef::Trait(trait_)
    }

    /// A reference to the message trait `component_name` of the components.
    pub fn component_ref(component_name: &str) -> (r: Self)
        ensures
            r is Ref,
            r->Ref_0.ref_path@ == "#/components/messageTraits/"@ + component_name@,
    {
        MessageTraitOrRef::Ref(
            MessageReference { ref_path: joined("#/components/messageTraits/", component_name) },
        )
    }
}

/// Message bindings, inline or by reference.
#[derive(Debug, Clone)]
pub enum MessageBindingsOrRef {
    Bindings(JsonValue),
    Ref(MessageReference),
}

impl MessageBindingsOrRef {
    /// Inline bindings.
    pub fn bindings(bindings: JsonValue) -> (r: Self)
        ensures
            r == MessageBindingsOrRef::Bindings(bindings),
    {
        MessageBindingsOrRef::Bindings(bindings)
    }

    /// A reference to the message bindings `component_name` of the components.
    pub fn component_ref(component_name: &str) -> (r: Self)
        ensures
            r is Ref,
            r->Ref_0.ref_path@ == "#/components/messageBindings/"@ + component_name@,
    {
        MessageBindingsOrRef::Ref(
            MessageReference { ref_path: joined("#/components/messageBindings/", component_name) },
        )
    }
}

/// A parameter of a channel address.
#[derive(Debug, Clone, PartialEq, Eq)]
pub struct Parameter {
    pub description: Option<String>,
    pub schema: Option<JsonValue>,
    pub location: Option<String>,
}

} // verus!

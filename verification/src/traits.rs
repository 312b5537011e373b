use crate::error::ValidationError;
use crate::model::{
    AsyncApiSpec, ChannelReference, ExternalDocumentation, MessageReference, Operation, Tag,
};
use crate::text::joined;
use crate::validation::laws::well_formed;
use crate::validation::rules::first_violation;
use crate::validation::validator::validate_spec;
use vstd::prelude::*;
use vstd::string::*;

verus! {

/// The document where it keeps every rule, else the first rule that it
/// breaks.
pub fn validated(doc: AsyncApiSpec) -> (result: Result<AsyncApiSpec, ValidationError>)
    ensures
        result is Ok <==> first_violation(doc) is None,
        result is Ok <==> well_formed(doc),
        result is Ok ==> result->Ok_0 == doc,
        result is Err ==> Some(result->Err_0@) == first_violation(doc),
{
    match validate_spec(&doc) {
        Ok(_) => Ok(doc),
        Err(e) => Err(e),
    }
}

/// Whether `result` is what validation makes of `doc`: the document itself
/// where it is well formed, else the first rule that it breaks.
pub open spec fn checks(result: Result<AsyncApiSpec, ValidationError>, doc: AsyncApiSpec) -> bool {
    &&& result is Ok <==> well_formed(doc)
    &&& result is Ok <==> first_violation(doc) is None
    &&& result is Ok ==> result->Ok_0 == doc
    &&& result is Err ==> Some(result->Err_0@) == first_violation(doc)
}

/// A type that describes an API as a document.
pub trait AsyncApi {
    /// The document, unchecked.
    fn asyncapi() -> AsyncApiSpec;

    /// The document, where it keeps every rule. As provided here, it is the
    /// document that `asyncapi` gives where that one is well formed, and
    /// otherwise the first rule that it breaks.
    fn try_asyncapi() -> (result: Result<AsyncApiSpec, ValidationError>)
        ensures
            result is Ok ==> well_formed(result->Ok_0),
        default_ensures
            exists|doc: AsyncApiSpec|
                call_ensures(Self::asyncapi, (), doc) && #[trigger] checks(result, doc),
    {
        let doc = Self::asyncapi();
        let result = validated(doc);
        proof {
            assert(checks(result, doc));
        }
        result
    }
}

/// The path of the reference to the channel `channel`.
pub open spec fn channel_path(channel: Seq<char>) -> Seq<char> {
    "#/channels/"@ + channel
}

/// The path of the reference to the message `message` of the channel
/// `channel`.
pub open spec fn message_path(channel: Seq<char>, message: Seq<char>) -> Seq<char> {
    "#/channels/"@ + channel + "/messages/"@ + message
}

/// The text of an optional static string.
pub open spec fn optional_text(value: Option<&'static str>) -> Option<Seq<char>> {
    match value {
        Some(s) => Some(s@),
        None => None,
    }
}

/// The text of an optional string.
pub open spec fn optional_string(value: Option<String>) -> Option<Seq<char>> {
    match value {
        Some(s) => Some(s@),
        None => None,
    }
}

fn owned_text(value: Option<&'static str>) -> (text: Option<String>)
    ensures
        optional_string(text) == optional_text(value),
{
    match value {
        Some(s) => Some(String::from_str(s)),
        None => None,
    }
}

/// Whether `operation` is the operation `operation_id` with the given action
/// on the channel `channel`: it refers to the channel by
/// `#/channels/{channel}` and to each of the named messages by
/// `#/channels/{channel}/messages/{name}`, in their order, carries the given
/// summary, description, tags and documentation, and has neither traits nor
/// bindings.
pub open spec fn built_from(
    operation: Operation,
    operation_id: Seq<char>,
    action: Seq<char>,
    channel: Seq<char>,
    message_names: Seq<String>,
    summary: Option<&'static str>,
    description: Option<&'static str>,
    tags: Option<Vec<Tag>>,
    external_docs: Option<ExternalDocumentation>,
) -> bool {
    &&& operation.operation_id@ == operation_id
    &&& operation.action@ == action
    &&& operation.channel.ref_path@ == channel_path(channel)
    &&& operation.messages@.len() == message_names.len()
    &&& forall|i: int|
        0 <= i < message_names.len() ==> (#[trigger] operation.messages@[i]).ref_path@
            == message_path(channel, message_names[i]@)
    &&& optional_string(operation.summary) == optional_text(summary)
    &&& optional_string(operation.description) == optional_text(description)
    &&& operation.tags == tags
    &&& operation.external_docs == external_docs
    &&& operation.traits is None
    &&& operation.bindings is None
}

/// The operation `operation_id` with the given action on the channel
/// `channel`: it refers to the channel by `#/channels/{channel}` and to each
/// of the named messages by `#/channels/{channel}/messages/{name}`, in their
/// order, and has neither traits nor bindings.
pub fn operation_from_parts(
    operation_id: &str,
    action: &str,
    channel: &str,
    message_names: Vec<String>,
    summary: Option<&'static str>,
    description: Option<&'static str>,
    tags: Option<Vec<Tag>>,
    external_docs: Option<ExternalDocumentation>,
) -> (operation: Operation)
    ensures
        operation.operation_id@ == operation_id@,
        operation.action@ == action@,
        operation.channel.ref_path@ == channel_path(channel@),
        operation.messages@.len() == message_names@.len(),
        forall|i: int|
            0 <= i < message_names@.len() ==> (#[trigger] operation.messages@[i]).ref_path@
                == message_path(channel@, message_names@[i]@),
        optional_string(operation.summary) == optional_text(summary),
        optional_string(operation.description) == optional_text(description),
        operation.tags == tags,
        operation.external_docs == external_docs,
        operation.traits is None,
        operation.bindings is None,
        built_from(
            operation,
            operation_id@,
            action@,
            channel@,
            message_names@,
            summary,
            description,
            tags,
            external_docs,
        ),
{
    let mut messages: Vec<MessageReference> = Vec::new();
    let mut i: usize = 0;
    while i < message_names.len()
        invariant
            i <= message_names@.len(),
            messages@.len() == i,
            forall|j: int|
                0 <= j < i ==> (#[trigger] messages@[j]).ref_path@ == message_path(
                    channel@,
                    message_names@[j]@,
                ),
        decreases message_names@.len() - i,
    {
        let mut path = joined("#/channels/", channel);
        path.append("/messages/");
        path.append(message_names[i].as_str());
        messages.push(MessageReference { ref_path: path });
        i = i + 1;
    }
    Operation {
        operation_id: String::from_str(operation_id),
        action: String::from_str(action),
        channel: ChannelReference { ref_path: joined("#/channels/", channel) },
        messages,
        summary: owned_text(summary),
        description: owned_text(description),
        tags,
        external_docs,
        traits: None,
        bindings: None,
    }
}

/// A type that describes one operation.
pub trait AsyncApiOperation {
    /// The operation's id.
    fn operation_id() -> &'static str;

    /// The action: `send` or `receive`.
    fn action() -> &'static str;

    /// The name of the channel.
    fn channel() -> &'static str;

    /// The names of the message types.
    fn message_types() -> &'static [&'static str];

    /// The names of the messages in the channel.
    fn message_names() -> Vec<String>;

    /// A short summary.
    fn summary() -> Option<&'static str>;

    /// A description.
    fn description() -> Option<&'static str>;

    /// Tags for grouping.
    fn tags() -> Option<Vec<Tag>>;

    /// A pointer to documentation kept elsewhere. As provided here, there is
    /// none.
    fn external_docs() -> (docs: Option<ExternalDocumentation>)
        default_ensures
            docs is None,
    {
        None
    }

    /// The operation as it stands in a document. As provided here, it is
    /// built from what the other methods give: the id, the action, the
    /// channel, the message names, the summary, the description, the tags and
    /// the documentation.
    fn to_operation() -> (operation: Operation)
        ensures
            operation.traits is None,
            operation.bindings is None,
        default_ensures
            exists|
                operation_id: &'static str,
                action: &'static str,
                channel: &'static str,
                message_names: Vec<String>,
                summary: Option<&'static str>,
                description: Option<&'static str>,
                tags: Option<Vec<Tag>>,
                external_docs: Option<ExternalDocumentation>,
            |
                call_ensures(Self::operation_id, (), operation_id) && call_ensures(
                    Self::action,
                    (),
                    action,
                ) && call_ensures(Self::channel, (), channel) && call_ensures(
                    Self::message_names,
                    (),
                    message_names,
                ) && call_ensures(Self::summary, (), summary) && call_ensures(
                    Self::description,
                    (),
                    description,
                ) && call_ensures(Self::tags, (), tags) && call_ensures(
                    Self::external_docs,
                    (),
                    external_docs,
                ) && #[trigger] built_from(
                    operation,
                    operation_id@,
                    action@,
                    channel@,
                    message_names@,
                    summary,
                    description,
                    tags,
                    external_docs,
                ),
    {
        let operation_id = Self::operation_id();
        let action = Self::action();
        let channel = Self::channel();
        let message_names = Self::message_names();
        let summary = Self::summary();
        let description = Self::description();
        let tags = Self::tags();
        let external_docs = Self::external_docs();
        let ghost names = message_names@;
        let operation = operation_from_parts(
            operation_id,
            action,
            channel,
            message_names,
            summary,
            description,
            tags,
            external_docs,
        );
        proof {
            assert(built_from(
                operation,
                operation_id@,
                action@,
                channel@,
                names,
                summary,
                description,
                tags,
                external_docs,
            ));
        }
        operation
    }
}

} // verus!

use crate::text::{debug_list, debug_list_text, texts_of};
use vstd::string::*;
use vstd::prelude::*;

verus! {

/// Why a payload schema could not be produced.
#[derive(Debug, Clone, PartialEq)]
pub enum SchemaError {
    /// The schema could not be turned into a JSON value.
    Serialization(String),
}

/// The first rule that a document breaks.
#[derive(Debug, Clone, PartialEq)]
pub enum ValidationError {
    /// A required field, named by its path, is empty.
    MissingRequiredField(String),
    /// The document's version string is not the supported one.
    InvalidAsyncApiVersion(String),
    /// An operation's channel reference has the wrong shape.
    InvalidChannelReference(String),
    /// A channel names a server that the document does not define.
    InvalidServerReference(String),
    /// A schema is null or a message reference does not resolve.
    InvalidSchema(String),
    /// The document has no channel.
    EmptyChannels,
    /// The named channel has no message.
    ChannelWithoutMessages(String),
    /// Two messages share a message id.
    DuplicateMessageId(String),
    /// The protocol identifier is none of the supported ones.
    UnsupportedProtocol { protocol: String, supported: Vec<String> },
    /// A server uses a protocol that is not supported.
    InvalidProtocol(String),
    /// A schema could not be generated for the named type.
    SchemaGenerationFailed(String, String),
    /// The named message is not in the named channel.
    MessageNotFound { channel: String, message: String },
}

/// A broken rule with its texts as character sequences: what a
/// `ValidationError` says.
pub enum Violation {
    MissingRequiredField(Seq<char>),
    InvalidAsyncApiVersion(Seq<char>),
    InvalidChannelReference(Seq<char>),
    InvalidServerReference(Seq<char>),
    InvalidSchema(Seq<char>),
    EmptyChannels,
    ChannelWithoutMessages(Seq<char>),
    DuplicateMessageId(Seq<char>),
    UnsupportedProtocol { protocol: Seq<char>, supported: Seq<Seq<char>> },
    InvalidProtocol(Seq<char>),
    SchemaGenerationFailed(Seq<char>, Seq<char>),
    MessageNotFound { channel: Seq<char>, message: Seq<char> },
}

impl View for ValidationError {
    type V = Violation;

    open spec fn view(&self) -> Violation {
        match *self {
            ValidationError::MissingRequiredField(s) => Violation::MissingRequiredField(s@),
            ValidationError::InvalidAsyncApiVersion(s) => Violation::InvalidAsyncApiVersion(s@),
            ValidationError::InvalidChannelReference(s) => Violation::InvalidChannelReference(s@),
            ValidationError::InvalidServerReference(s) => Violation::InvalidServerReference(s@),
            ValidationError::InvalidSchema(s) => Violation::InvalidSchema(s@),
            ValidationError::EmptyChannels => Violation::EmptyChannels,
            ValidationError::ChannelWithoutMessages(s) => Violation::ChannelWithoutMessages(s@),
            ValidationError::DuplicateMessageId(s) => Violation::DuplicateMessageId(s@),
            ValidationError::UnsupportedProtocol { protocol, supported } => {
                Violation::UnsupportedProtocol {
                    protocol: protocol@,
                    supported: texts_of(supported@),
                }
            },
            ValidationError::InvalidProtocol(s) => Violation::InvalidProtocol(s@),
            ValidationError::SchemaGenerationFailed(name, cause) => {
                Violation::SchemaGenerationFailed(name@, cause@)
            },
            ValidationError::MessageNotFound { channel, message } => Violation::MessageNotFound {
                channel: channel@,
                message: message@,
            },
        }
    }
}

/// What a validation result says: nothing for success, the violation for an
/// error.
pub open spec fn outcome(result: Result<(), ValidationError>) -> Option<Violation> {
    match result {
        Ok(_) => None,
        Err(e) => Some(e@),
    }
}

/// What is shown for a violation: what went wrong, and a hint.
pub open spec fn display_text(violation: Violation) -> Seq<char> {
    match violation {
        Violation::MissingRequiredField(a) => "Missing required field: "@ + a + "\n\nHint: Add the missing field to your #[asyncapi] attribute. For info fields, use info(title = \"...\", version = \"...\")"@,
        Violation::InvalidAsyncApiVersion(a) => "Invalid AsyncAPI version: "@ + a + ". Expected 3.0.0\n\nHint: This library only supports AsyncAPI 3.0.0. The version field is automatically set and should not be modified"@,
        Violation::InvalidChannelReference(a) => "Channel '"@ + a + "' referenced in message but not defined in channels\n\nHint: Add '"@ + a + "' to the channels(...) list in your #[asyncapi] attribute"@,
        Violation::InvalidServerReference(a) => "Server '"@ + a + "' referenced in channel but not defined in servers\n\nHint: Add the server to servers(...) in your #[asyncapi] attribute, or remove the server reference from the channel"@,
        Violation::InvalidSchema(a) => "Invalid schema: "@ + a + "\n\nHint: Ensure all message types implement JsonSchema and have valid schemas"@,
        Violation::EmptyChannels => "Empty channels: specification must have at least one channel\n\nHint: Add at least one channel to channels(...) in your #[asyncapi] attribute"@,
        Violation::ChannelWithoutMessages(a) => "Channel '"@ + a + "' has no messages\n\nHint: Add at least one message type to messages(...) in your #[asyncapi] attribute that uses this channel"@,
        Violation::DuplicateMessageId(a) => "Duplicate message ID: "@ + a + "\n\nHint: Each message must have a unique messageId. Update one of the conflicting messages to use a different messageId"@,
        Violation::UnsupportedProtocol { protocol, supported } => "Unsupported protocol: "@ + protocol + "\n\nHint: Supported protocols: "@ + debug_list_text(supported) + ". Enable the corresponding feature flag (e.g., `features = [\"nats\"]`) in your Cargo.toml"@,
        Violation::InvalidProtocol(a) => "Invalid protocol: "@ + a + "\n\nHint: Check that the protocol name matches exactly (case-sensitive) and the corresponding feature flag is enabled"@,
        Violation::SchemaGenerationFailed(a, b) => "Schema generation failed for type '"@ + a + "': "@ + b + "\n\nHint: Ensure the type implements JsonSchema (usually via #[derive(JsonSchema)]) and all nested types also implement JsonSchema"@,
        Violation::MessageNotFound { channel, message } => "Message '"@ + message + "' not found in channel '"@ + channel + "'\n\nHint: Ensure the message type is included in messages(...) in your #[asyncapi] attribute and uses the correct channel"@,
    }
}

impl ValidationError {
    /// The text for the user: what went wrong, and a hint.
    pub fn to_string(&self) -> (text: String)
        ensures
            text@ == display_text(self@),
    {
        match self {
            ValidationError::MissingRequiredField(a) => {
                let mut text = String::from_str("Missing required field: ");
                text.append(a.as_str());
                text.append("\n\nHint: Add the missing field to your #[asyncapi] attribute. For info fields, use info(title = \"...\", version = \"...\")");
                text
            },
            ValidationError::InvalidAsyncApiVersion(a) => {
                let mut text = String::from_str("Invalid AsyncAPI version: ");
                text.append(a.as_str());
                text.append(". Expected 3.0.0\n\nHint: This library only supports AsyncAPI 3.0.0. The version field is automatically set and should not be modified");
                text
            },
            ValidationError::InvalidChannelReference(a) => {
                let mut text = String::from_str("Channel '");
                text.append(a.as_str());
                text.append("' referenced in message but not defined in channels\n\nHint: Add '");
                text.append(a.as_str());
                text.append("' to the channels(...) list in your #[asyncapi] attribute");
                text
            },
            ValidationError::InvalidServerReference(a) => {
                let mut text = String::from_str("Server '");
                text.append(a.as_str());
                text.append("' referenced in channel but not defined in servers\n\nHint: Add the server to servers(...) in your #[asyncapi] attribute, or remove the server reference from the channel");
                text
            },
            ValidationError::InvalidSchema(a) => {
                let mut text = String::from_str("Invalid schema: ");
                text.append(a.as_str());
                text.append("\n\nHint: Ensure all message types implement JsonSchema and have valid schemas");
                text
            },
            ValidationError::EmptyChannels => {
                let mut text = String::from_str("Empty channels: specification must have at least one channel\n\nHint: Add at least one channel to channels(...) in your #[asyncapi] attribute");
                text
            },
            ValidationError::ChannelWithoutMessages(a) => {
                let mut text = String::from_str("Channel '");
                text.append(a.as_str());
                text.append("' has no messages\n\nHint: Add at least one message type to messages(...) in your #[asyncapi] attribute that uses this channel");
                text
            },
            ValidationError::DuplicateMessageId(a) => {
                let mut text = String::from_str("Duplicate message ID: ");
                text.append(a.as_str());
                text.append("\n\nHint: Each message must have a unique messageId. Update one of the conflicting messages to use a different messageId");
                text
            },
            ValidationError::UnsupportedProtocol { protocol, supported } => {
                let mut text = String::from_str("Unsupported protocol: ");
                text.append(protocol.as_str());
                text.append("\n\nHint: Supported protocols: ");
                text.append(debug_list(supported).as_str());
                text.append(". Enable the corresponding feature flag (e.g., `features = [\"nats\"]`) in your Cargo.toml");
                text
            },
            ValidationError::InvalidProtocol(a) => {
                let mut text = String::from_str("Invalid protocol: ");
                text.append(a.as_str());
                text.append("\n\nHint: Check that the protocol name matches exactly (case-sensitive) and the corresponding feature flag is enabled");
                text
            },
            ValidationError::SchemaGenerationFailed(a, b) => {
                let mut text = String::from_str("Schema generation failed for type '");
                text.append(a.as_str());
                text.append("': ");
                text.append(b.as_str());
                text.append("\n\nHint: Ensure the type implements JsonSchema (usually via #[derive(JsonSchema)]) and all nested types also implement JsonSchema");
                text
            },
            ValidationError::MessageNotFound { channel, message } => {
                let mut text = String::from_str("Message '");
                text.append(message.as_str());
                text.append("' not found in channel '");
                text.append(channel.as_str());
                text.append("'\n\nHint: Ensure the message type is included in messages(...) in your #[asyncapi] attribute and uses the correct channel");
                text
            },
        }
    }
}

/// What is shown for a schema error.
pub open spec fn schema_error_text(cause: Seq<char>) -> Seq<char> {
    "Failed to serialize schema to JSON: "@ + cause
        + "\n\nHint: This is typically an internal error. Ensure your types are properly serializable"@
}

impl SchemaError {
    /// The text for the user: what went wrong, and a hint.
    pub fn to_string(&self) -> (text: String)
        ensures
            text@ == schema_error_text(self->Serialization_0@),
    {
        match self {
            SchemaError::Serialization(cause) => {
                let mut text = String::from_str("Failed to serialize schema to JSON: ");
                text.append(cause.as_str());
                text.append(
                    "\n\nHint: This is typically an internal error. Ensure your types are properly serializable",
                );
                text
            },
        }
    }
}

} // verus!

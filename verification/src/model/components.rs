use crate::json::JsonValue;
use crate::model::channel::{Message, Parameter};
use crate::model::security::SecurityScheme;
use crate::model::traits::{MessageTrait, OperationTrait};
use crate::name_map::NameMap;
use vstd::prelude::*;

verus! {

/// Reusable definitions, each collection by name.
#[derive(Debug, Clone)]
pub struct Components {
    pub messages: Option<NameMap<Message>>,
    pub schemas: Option<NameMap<JsonValue>>,
    pub security_schemes: Option<NameMap<SecurityScheme>>,
    pub parameters: Option<NameMap<Parameter>>,
    pub channel_bindings: Option<NameMap<JsonValue>>,
    pub message_bindings: Option<NameMap<JsonValue>>,
    pub server_bindings: Option<NameMap<JsonValue>>,
    pub operation_traits: Option<NameMap<OperationTrait>>,
    pub message_traits: Option<NameMap<MessageTrait>>,
}

impl Components {
    /// Components without any collection.
    pub fn new() -> (c: Self)
        ensures
            c.messages is None,
            c.schemas is None,
            c.security_schemes is None,
            c.parameters is None,
            c.channel_bindings is None,
            c.message_bindings is None,
            c.server_bindings is None,
            c.operation_traits is None,
            c.message_traits is None,
    {
        Components {
            messages: None,
            schemas: None,
            security_schemes: None,
            parameters: None,
            channel_bindings: None,
            message_bindings: None,
            server_bindings: None,
            operation_traits: None,
            message_traits: None,
        }
    }
}

impl Default for Components {
    fn default() -> (c: Self)
        ensures
            c.messages is None,
            c.schemas is None,
            c.security_schemes is None,
            c.parameters is None,
            c.channel_bindings is None,
            c.message_bindings is None,
            c.server_bindings is None,
            c.operation_traits is None,
            c.message_traits is None,
    {
        Components::new()
    }
}

} // verus!

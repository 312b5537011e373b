use crate::name_map::NameMap;
use vstd::prelude::*;

pub mod channel;
pub mod components;
pub mod info;
pub mod operation;
pub mod security;
pub mod traits;

pub use channel::{
    Channel, ChannelBindingsOrRef, CorrelationId, Message, MessageBindingsOrRef, MessageOrRef,
    MessagePayload, MessageTraitOrRef, Parameter, Tag,
};
pub use components::Components;
pub use info::{Contact, ExternalDocumentation, Info, License, Server, ServerVariable};
pub use operation::{
    ChannelReference, MessageReference, Operation, OperationBindingsOrRef, OperationTraitOrRef,
};
pub use security::{OAuth2Flow, OAuth2Flows, SecurityRequirement, SecurityScheme};
pub use traits::{MessageTrait, OperationTrait};

verus! {

/// Channels by name.
pub type Channels = NameMap<Channel>;

/// Messages by name.
pub type Messages = NameMap<Message>;

/// Servers by name.
pub type Servers = NameMap<Server>;

/// Operations by id.
pub type Operations = NameMap<Operation>;

/// The root of an AsyncAPI 3.0 document.
#[derive(Debug, Clone)]
pub struct AsyncApiSpec {
    /// AsyncAPI version
    pub asyncapi: String,
    /// API information
    pub info: Info,
    /// Servers, if any
    pub servers: Option<Servers>,
    /// Channels
    pub channels: Channels,
    /// Operations, if any
    pub operations: Option<Operations>,
    /// Reusable definitions, if any
    pub components: Option<Components>,
    /// Root-level tags, if any
    pub tags: Option<Vec<Tag>>,
}

} // verus!

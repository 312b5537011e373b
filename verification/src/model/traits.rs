use crate::json::JsonValue;
use crate::model::channel::{CorrelationId, MessagePayload, Tag};
use crate::model::info::ExternalDocumentation;
use vstd::prelude::*;

verus! {

/// Properties that several operations share.
#[derive(Debug, Clone)]
pub struct OperationTrait {
    pub summary: Option<String>,
    pub description: Option<String>,
    pub tags: Option<Vec<Tag>>,
    pub external_docs: Option<ExternalDocumentation>,
    pub bindings: Option<JsonValue>,
}

/// Properties that several messages share.
#[derive(Debug, Clone)]
pub struct MessageTrait {
    pub headers: Option<MessagePayload>,
    pub correlation_id: Option<CorrelationId>,
    pub content_type: Option<String>,
    pub name: Option<String>,
    pub title: Option<String>,
    pub summary: Option<String>,
    pub description: Option<String>,
    pub tags: Option<Vec<Tag>>,
    pub external_docs: Option<ExternalDocumentation>,
    pub examples: Option<Vec<JsonValue>>,
    pub bindings: Option<JsonValue>,
}

} // verus!

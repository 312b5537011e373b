use crate::json::JsonValue;
use crate::model::channel::Tag;
use crate::model::info::ExternalDocumentation;
use crate::model::traits::OperationTrait;
use crate::text::joined;
use vstd::prelude::*;

verus! {

/// A declared intent to send or receive messages on a channel.
#[derive(Debug, Clone)]
pub struct Operation {
    pub operation_id: String,
    /// `"send"` or `"receive"`
    pub action: String,
    pub channel: ChannelReference,
    pub messages: Vec<MessageReference>,
    pub summary: Option<String>,
    pub description: Option<String>,
    pub tags: Option<Vec<Tag>>,
    pub external_docs: Option<ExternalDocumentation>,
    pub traits: Option<Vec<OperationTraitOrRef>>,
    pub bindings: Option<OperationBindingsOrRef>,
}

/// A reference to a channel, by path.
#[derive(Debug, Clone)]
pub struct ChannelReference {
    pub ref_path: String,
}

/// A reference to a message or another definition, by path.
#[derive(Debug, Clone)]
pub struct MessageReference {
    pub ref_path: String,
}

/// An operation trait, inline or by reference.
#[derive(Debug, Clone)]
pub enum OperationTraitOrRef {
    Trait(OperationTrait),
    Ref(MessageReference),
}

impl OperationTraitOrRef {
    /// An inline trait.
    pub fn trait_(trait_: OperationTrait) -> (r: Self)
        ensures
            r == OperationTraitOrRef::Trait(trait_),
    {
        OperationTraitOrRef::Trait(trait_)
    }

    /// A reference to the operation trait `component_name` of the components.
    pub fn component_ref(component_name: &str) -> (r: Self)
        ensures
            r is Ref,
            r->Ref_0.ref_path@ == "#/components/operationTraits/"@ + component_name@,
    {
        OperationTraitOrRef::Ref(
            MessageReference { ref_path: joined("#/components/operationTraits/", component_name) },
        )
    }
}

/// Operation bindings, inline or by reference.
#[derive(Debug, Clone)]
pub enum OperationBindingsOrRef {
    Bindings(JsonValue),
    Ref(MessageReference),
}

impl OperationBindingsOrRef {
    /// Inline bindings.
    pub fn bindings(bindings: JsonValue) -> (r: Self)
        ensures
            r == OperationBindingsOrRef::Bindings(bindings),
    {
        OperationBindingsOrRef::Bindings(bindings)
    }

    /// A reference to the operation bindings `component_name` of the components.
    pub fn component_ref(component_name: &str) -> (r: Self)
        ensures
            r is Ref,
            r->Ref_0.ref_path@ == "#/components/operationBindings/"@ + component_name@,
    {
        OperationBindingsOrRef::Ref(
            MessageReference { ref_path: joined("#/components/operationBindings/", component_name) },
        )
    }
}

} // verus!

use crate::model::security::SecurityRequirement;
use crate::name_map::NameMap;
use vstd::prelude::*;

verus! {

/// A pointer to documentation kept elsewhere.
#[derive(Debug, Clone)]
pub struct ExternalDocumentation {
    pub url: String,
    pub description: Option<String>,
}

/// Whom to contact about the API.
#[derive(Debug, Clone)]
pub struct Contact {
    pub name: Option<String>,
    pub url: Option<String>,
    pub email: Option<String>,
}

/// The licence of the API.
#[derive(Debug, Clone)]
pub struct License {
    pub name: String,
    pub url: Option<String>,
}

/// General information about the API.
#[derive(Debug, Clone)]
pub struct Info {
    pub title: String,
    pub version: String,
    pub description: Option<String>,
    pub external_docs: Option<ExternalDocumentation>,
    pub contact: Option<Contact>,
    pub license: Option<License>,
    pub terms_of_service: Option<String>,
}

/// A variable of a server's URL template.
#[derive(Debug, Clone)]
pub struct ServerVariable {
    pub enum_values: Option<Vec<String>>,
    pub default: Option<String>,
    pub description: Option<String>,
    pub examples: Option<Vec<String>>,
}

/// A message broker or server.
#[derive(Debug, Clone)]
pub struct Server {
    /// URL, which may hold `{variable}` placeholders
    pub url: String,
    /// Protocol identifier
    pub protocol: String,
    pub description: Option<String>,
    pub security: Option<Vec<SecurityRequirement>>,
    pub variables: Option<NameMap<ServerVariable>>,
}

} // verus!

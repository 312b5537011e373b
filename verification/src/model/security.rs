use crate::name_map::NameMap;
use vstd::prelude::*;

verus! {

/// A way to authenticate against a server.
#[derive(Debug, Clone)]
pub enum SecurityScheme {
    UserPassword { description: Option<String> },
    ApiKey { in_: Option<String>, description: Option<String> },
    Http { scheme: String, bearer_format: Option<String>, description: Option<String> },
    OAuth2 { flows: OAuth2Flows, description: Option<String> },
    OpenIdConnect { open_id_connect_url: String, description: Option<String> },
    X509 { description: Option<String> },
    SymmetricEncryption { description: Option<String> },
    AsymmetricEncryption { description: Option<String> },
    HttpApiKey { name: String, in_: String, description: Option<String> },
    MutualTls { description: Option<String> },
}

/// The OAuth2 flows that a scheme offers.
#[derive(Debug, Clone)]
pub struct OAuth2Flows {
    pub authorization_code: Option<OAuth2Flow>,
    pub client_credentials: Option<OAuth2Flow>,
    pub implicit: Option<OAuth2Flow>,
    pub password: Option<OAuth2Flow>,
}

/// One OAuth2 flow.
#[derive(Debug, Clone)]
pub struct OAuth2Flow {
    pub authorization_url: Option<String>,
    pub token_url: Option<String>,
    pub refresh_url: Option<String>,
    pub scopes: Option<NameMap<String>>,
}

/// Scheme names with the scopes required of each.
pub type SecurityRequirement = NameMap<Vec<String>>;

} // verus!

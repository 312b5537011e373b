pub mod bindings;
pub mod laws;
pub mod rules;
pub mod texts;
pub mod validator;

pub use validator::validate_spec;

//! The Guild Wars 2 official API domain: request models, path
//! normalization, query construction, id chunking, response classification
//! and the public endpoint registry.
pub mod chunk;
pub mod endpoint;
pub mod fetch;
pub mod operations;
pub mod path;
pub mod public;
pub mod query;
pub mod request;
pub mod response;
pub mod template;

pub use endpoint::EndpointSpec;
pub use path::{normalize_api_path, validate_lang};
pub use public::{public_endpoints, PublicEndpointKind, PublicEndpointSpec};
pub use request::ApiRequest;
pub mod laws;

//! The public API of the library in one place.
pub use crate::config::ClientConfig;
pub use crate::error::Gw3Error;
pub use crate::gw2::{
    normalize_api_path, public_endpoints, ApiRequest, EndpointSpec, PublicEndpointKind,
    PublicEndpointSpec,
};

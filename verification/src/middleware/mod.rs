//! What the service puts around every request: the cross-origin policy and
//! the fixed security headers.

pub mod cors;
pub mod security;

pub use cors::cors_layer;
pub use security::security_headers;

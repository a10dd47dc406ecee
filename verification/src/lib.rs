//! Authentication gateway core for an API that sits behind a Keycloak realm:
//! credential exchange, signing-key selection, bearer-token validation, the
//! login fallback chain and the per-request gate, with every decision stated
//! as a contract and proved.

pub mod error;
pub mod text;
pub mod model;
pub mod jose;
pub mod identity;
pub mod framing;
pub mod login;
pub mod keys;
pub mod validate;
pub mod client;
pub mod gate;
pub mod cache;

//! Verified core of the network-sharing (tethering) binding: the public and
//! native vocabularies with their conversions, the interpretation of native
//! status codes, and the observer registry that fans native events out to
//! registered callbacks.

pub mod bridge;
pub mod native;
pub mod client;
pub mod register;

//! Resolution of settings through chains of named configuration profiles,
//! with the provider plumbing and HTTP extension types around it.

pub mod extension;
pub mod laws;
pub mod profile;
pub mod provider;
pub mod resolve;

pub use extension::{
    extension_or_rejection, Extension, ModeledErrorExtension, OperationExtension,
    RequestExtensionNotFoundRejection, RuntimeErrorExtension,
};
pub use profile::{Profile, ProfileSet};
pub use provider::{Builder, ProfileFileRegionProvider, ProviderConfig};
pub use resolve::{resolve_profile_chain, resolve_profile_chain_for_region};

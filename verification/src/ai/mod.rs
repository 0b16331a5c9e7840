//! Provider catalogue, wire protocols and chat messages.
pub mod client;
pub mod prompts;
pub mod protocol;
pub mod provider;

pub use protocol::ProtocolKind;
pub use provider::{find_provider, provider_specs, resolve_api_config, ProviderSpec, ResolvedApiConfig};

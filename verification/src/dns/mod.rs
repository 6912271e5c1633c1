//! DNS providers: which calls a provider takes, what is sent to it and how
//! its answers are read.

pub mod cloudflare;
pub mod provider;

pub use cloudflare::CloudflareProvider;
pub use provider::{create_provider, DnsProvider as DnsProviderTrait, ProviderError};

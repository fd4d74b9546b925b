use vstd::prelude::*;

use crate::dns::DnsType;

verus! {

/// The validated configuration, read once at startup and never mutated.
///
/// `ttl` and `proxied` are kept as the loader found them: absent stays
/// absent, and the defaults (`1` and `false`) are substituted only when the
/// outgoing request body is built.
pub struct Config {
    /// Account identity for authentication.
    pub email: String,
    /// Secret credential; never logged.
    pub auth_key: String,
    /// The DNS zone's apex domain name.
    pub domain: String,
    /// Which address family to synchronize.
    pub dns_type: DnsType,
    /// Fully-qualified record name to create or update.
    pub name: String,
    /// Desired TTL; absent means the provider's "automatic" value.
    pub ttl: Option<u32>,
    /// Provider-specific proxy flag.
    pub proxied: Option<bool>,
}

} // verus!

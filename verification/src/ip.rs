use vstd::prelude::*;

use crate::dns::DnsType;

verus! {

/// The address family of a local-address probe.
#[derive(Debug, Clone, Copy, PartialEq, Eq, Structural)]
pub enum IpFamily {
    V4,
    V6,
}

/// The address family a record type prescribes.
pub open spec fn family_of(t: DnsType) -> IpFamily {
    match t {
        DnsType::A => IpFamily::V4,
        DnsType::AAAA => IpFamily::V6,
    }
}

/// Pick the one address family to probe for the configured record type.
/// The caller resolves the local address for exactly this family and must not
/// fall back to the other one.
pub fn required_ip_family(dns_type: &DnsType) -> (r: IpFamily)
    ensures
        r == family_of(*dns_type),
{
    match dns_type {
        DnsType::A => IpFamily::V4,
        DnsType::AAAA => IpFamily::V6,
    }
}

/// An `A` configuration selects the IPv4 resolution path and an `AAAA`
/// configuration the IPv6 path; the two are never both selected for one run.
pub proof fn lemma_family_exclusive(t: DnsType)
    ensures
        family_of(t) is V4 <==> t is A,
        family_of(t) is V6 <==> t is AAAA,
        !(family_of(t) is V4 && family_of(t) is V6),
{
}

} // verus!

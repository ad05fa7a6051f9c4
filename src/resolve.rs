use vstd::prelude::*;

use edge_nal_embassy::DnsError;

verus! {

/// `edge_nal_embassy::DnsError`: a failed name lookup, carried through as is.
#[verifier::external_type_specification]
#[verifier::external_body]
pub struct ExDnsError(edge_nal_embassy::DnsError);

/// An IPv4 address and a port.
#[derive(Clone, Copy, Debug, PartialEq, Eq)]
pub struct Ipv4Endpoint {
    pub octets: [u8; 4],
    pub port: u16,
}

/// An address that a name lookup returned.
#[derive(Clone, Copy, Debug, PartialEq, Eq)]
pub enum IpAnswer {
    V4([u8; 4]),
    V6([u16; 8]),
}

/// Why no IPv4 endpoint could be formed.
#[derive(Debug)]
pub enum ResolveError {
    /// The lookup itself failed.
    Dns(DnsError),
    /// The lookup answered with an IPv6 address where IPv4 was asked for.
    NotIpv4,
}

/// The endpoint to connect to, from the outcome of an IPv4 lookup: a failed
/// lookup is handed on as the error, and an IPv6 answer is refused.
pub fn sockaddr_from_lookup(lookup: Result<IpAnswer, DnsError>, port: u16) -> (r: Result<
    Ipv4Endpoint,
    ResolveError,
>)
    ensures
        lookup matches Ok(IpAnswer::V4(a)) ==> r == Ok::<Ipv4Endpoint, ResolveError>(
            Ipv4Endpoint { octets: a, port: port },
        ),
        lookup matches Ok(IpAnswer::V6(_)) ==> r == Err::<Ipv4Endpoint, ResolveError>(
            ResolveError::NotIpv4,
        ),
        lookup is Err ==> r == Err::<Ipv4Endpoint, ResolveError>(ResolveError::Dns(lookup->Err_0)),
{
    match lookup {
        Ok(IpAnswer::V4(octets)) => Ok(Ipv4Endpoint { octets, port }),
        Ok(IpAnswer::V6(_)) => Err(ResolveError::NotIpv4),
        Err(e) => Err(ResolveError::Dns(e)),
    }
}

} // verus!

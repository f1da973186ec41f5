use vstd::prelude::*;

verus! {

/// What an address text reads as.
#[derive(PartialEq, Eq, Structural, Debug, Clone, Copy)]
pub enum ParsedIp {
    /// An IPv4 address, by its four octets.
    V4(u8, u8, u8, u8),
    /// An IPv6 address.
    V6,
    /// Not an address.
    Invalid,
}

/// An address of a private IPv4 network: 10.0.0.0/8, 172.16.0.0/12 or 192.168.0.0/16.
/// IPv6 addresses and texts that are no address count as outside.
pub open spec fn is_internal_spec(ip: ParsedIp) -> bool {
    match ip {
        ParsedIp::V4(a, b, _, _) => a == 10 || (a == 172 && 16 <= b <= 31) || (a == 192 && b == 168),
        _ => false,
    }
}

/// Whether the address belongs to a private IPv4 network.
pub fn is_internal_address(ip: &ParsedIp) -> (internal: bool)
    ensures
        internal == is_internal_spec(*ip),
{
    match ip {
        ParsedIp::V4(a, b, _, _) => {
            *a == 10 || (*a == 172 && 16 <= *b && *b <= 31) || (*a == 192 && *b == 168)
        },
        ParsedIp::V6 => false,
        ParsedIp::Invalid => false,
    }
}

} // verus!

//! Link-layer and IPv4 address types used by the board coordinator.

use vstd::prelude::*;

verus! {

/// A 6-byte link-layer (EUI-48 / MAC) hardware address.
#[derive(Debug, Clone, Copy, PartialEq, Eq)]
pub struct Eui48Addr {
    pub octets: [u8; 6],
}

/// A 4-byte IPv4 address.
#[derive(Debug, Clone, Copy, PartialEq, Eq)]
pub struct Ipv4Addr {
    pub octets: [u8; 4],
}

/// An IPv4 socket address: an IPv4 address together with a port.
#[derive(Debug, Clone, Copy, PartialEq, Eq)]
pub struct SocketAddrV4 {
    pub ip: Ipv4Addr,
    pub port: u16,
}

} // verus!

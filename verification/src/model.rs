//! The data model of an adapter snapshot.
//!
//! The operating system reports adapters as a singly-linked list of records,
//! each carrying a nested singly-linked list of DNS-server records. A `Next`
//! link of "none" ends either list, so each list denotes a finite sequence;
//! the model holds both as vectors in traversal order. A DNS-server record's
//! socket-address payload is kept as a tagged variant: the payload may be
//! absent, may carry an IPv4 address in its 32-bit network-byte-order form,
//! or may belong to some other address family, which is recognized but never
//! decoded.

use vstd::prelude::*;
use crate::addr::Ipv4Address;

verus! {

/// One configured DNS-server entry of an adapter, reduced to what decoding
/// reads of it: the presence of its socket-address payload and, when present,
/// the payload's address family and address field.
#[derive(Clone, Copy, Debug, PartialEq, Eq, Structural)]
pub enum DnsServerRecord {
    /// The record carries no socket-address payload.
    Missing,
    /// An IPv4 payload; `raw` is the 32-bit address field in network byte
    /// order, as read natively on a little-endian host.
    Ipv4 { raw: u32 },
    /// A payload of any other address family, carrying its family tag.
    Other { family: u16 },
}

/// One network adapter of a snapshot: its friendly name and its DNS-server
/// list in traversal order.
pub struct AdapterRecord {
    pub name: String,
    pub dns_servers: Vec<DnsServerRecord>,
}

/// A point-in-time copy of the operating system's adapter configuration:
/// the adapter list in traversal order.
pub struct AdapterSnapshot {
    pub adapters: Vec<AdapterRecord>,
}

/// The output produced for one adapter: its name and its decoded IPv4
/// DNS-server addresses in encounter order.
pub struct AdapterResult {
    pub name: String,
    pub dns_servers: Vec<Ipv4Address>,
}

impl AdapterResult {
    /// Pairs an adapter name with its decoded DNS-server addresses.
    pub fn new(name: String, dns_servers: Vec<Ipv4Address>) -> (r: AdapterResult)
        ensures
            r.name == name,
            r.dns_servers == dns_servers,
    {
        AdapterResult { name, dns_servers }
    }
}

} // verus!

//! Enumeration of a host's network adapters and their configured IPv4 DNS
//! servers.
//!
//! The library holds the verified core of the pipeline: the decisions of the
//! two-phase buffer-sizing protocol used to obtain an adapter snapshot from
//! the operating system, and the extraction pass that walks the snapshot and
//! decodes each adapter's IPv4 DNS server addresses. The operating-system
//! calls themselves are made by an unverified front end, which hands the
//! library plain values and takes plain values back.

pub mod addr;
pub mod extract;
pub mod model;
pub mod protocol;

pub use addr::Ipv4Address;
pub use addr::decode_ipv4;
pub use addr::encode_ipv4;
pub use extract::extract;
pub use model::AdapterRecord;
pub use model::AdapterResult;
pub use model::AdapterSnapshot;
pub use model::DnsServerRecord;
pub use protocol::OsError;

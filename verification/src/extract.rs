//! The extraction pass: walking a snapshot's adapter list and, for each
//! adapter, walking its nested DNS-server list, keeping only the entries
//! that carry an IPv4 payload and decoding each into a dotted-quad address.
//!
//! Extraction is pure and total: it never fails, it only omits. An entry
//! whose payload is absent, and an entry of any address family other than
//! IPv4, is skipped permanently; an adapter whose whole list is skipped
//! still yields a result with an empty address sequence.

use vstd::prelude::*;
use crate::addr::{Ipv4Address, ipv4_of_net, decode_ipv4};
use crate::model::{AdapterRecord, AdapterResult, AdapterSnapshot, DnsServerRecord};

verus! {

/// The IPv4 addresses that extraction decodes from a DNS-server list:
/// the records carrying an IPv4 payload, in order, each decoded from its
/// 32-bit network-byte-order field.
pub open spec fn decoded_dns_servers(records: Seq<DnsServerRecord>) -> Seq<Ipv4Address>
    decreases records.len(),
{
    if records.len() == 0 {
        Seq::empty()
    } else {
        let rest = decoded_dns_servers(records.drop_last());
        match records.last() {
            DnsServerRecord::Ipv4 { raw } => rest.push(ipv4_of_net(raw)),
            _ => rest,
        }
    }
}

/// Walks one adapter's DNS-server list and decodes the IPv4 entries in
/// encounter order, skipping absent payloads and other address families.
pub fn collect_dns_servers(records: &Vec<DnsServerRecord>) -> (addrs: Vec<Ipv4Address>)
    ensures
        addrs@ == decoded_dns_servers(records@),
{
    let mut addrs: Vec<Ipv4Address> = Vec::new();
    let mut i: usize = 0;
    while i < records.len()
        invariant
            i <= records.len(),
            addrs@ == decoded_dns_servers(records@.subrange(0, i as int)),
        decreases records.len() - i,
    {
        match records[i] {
            DnsServerRecord::Ipv4 { raw } => {
                let addr = decode_ipv4(raw);
                addrs.push(addr);
            },
            _ => {},
        }
        proof {
            assert(records@.subrange(0, (i + 1) as int).drop_last() =~= records@.subrange(
                0,
                i as int,
            ));
        }
        i = i + 1;
    }
    proof {
        assert(records@.subrange(0, records@.len() as int) =~= records@);
    }
    addrs
}

/// The result extraction owes for one adapter: the adapter's name paired
/// with the decoded addresses of its DNS-server list.
pub open spec fn adapter_reported(adapter: AdapterRecord, r: AdapterResult) -> bool {
    r.name@ == adapter.name@ && r.dns_servers@ == decoded_dns_servers(adapter.dns_servers@)
}

/// Produces the result for one adapter: its name paired with its decoded
/// IPv4 DNS-server addresses.
pub fn extract_adapter(adapter: &AdapterRecord) -> (r: AdapterResult)
    ensures
        adapter_reported(*adapter, r),
{
    let name = adapter.name.clone();
    let dns_servers = collect_dns_servers(&adapter.dns_servers);
    AdapterResult::new(name, dns_servers)
}

/// Walks the whole snapshot and produces one result per traversed adapter,
/// in traversal order: no adapter is dropped and none duplicated, and an
/// adapter with an empty or entirely-filtered DNS-server list still appears,
/// with an empty address sequence.
pub fn extract(snapshot: &AdapterSnapshot) -> (results: Vec<AdapterResult>)
    ensures
        results@.len() == snapshot.adapters@.len(),
        forall|i: int|
            0 <= i < results@.len() ==> #[trigger] adapter_reported(
                snapshot.adapters@[i],
                results@[i],
            ),
{
    let mut results: Vec<AdapterResult> = Vec::new();
    let mut i: usize = 0;
    while i < snapshot.adapters.len()
        invariant
            i <= snapshot.adapters.len(),
            results@.len() == i,
            forall|j: int|
                0 <= j < i ==> #[trigger] adapter_reported(snapshot.adapters@[j], results@[j]),
        decreases snapshot.adapters.len() - i,
    {
        let r = extract_adapter(&snapshot.adapters[i]);
        results.push(r);
        i = i + 1;
    }
    results
}

/// Record `j` of a DNS-server list carries an IPv4 payload that decodes to
/// `addr`.
pub open spec fn ipv4_source(records: Seq<DnsServerRecord>, j: int, addr: Ipv4Address) -> bool {
    0 <= j < records.len() && records[j] is Ipv4 && addr == ipv4_of_net(records[j]->raw)
}

/// Some record of the DNS-server list carries an IPv4 payload that decodes
/// to `addr`.
pub open spec fn has_ipv4_source(records: Seq<DnsServerRecord>, addr: Ipv4Address) -> bool {
    exists|j: int| ipv4_source(records, j, addr)
}

/// Filtering is permanent: every address that extraction decodes from a
/// DNS-server list stems from a record of that list carrying an IPv4
/// payload. Records of any other address family, and records with an absent
/// payload, contribute nothing to the decoded sequence.
pub proof fn lemma_only_ipv4_decoded(records: Seq<DnsServerRecord>)
    ensures
        forall|k: int|
            0 <= k < decoded_dns_servers(records).len() ==> has_ipv4_source(
                records,
                #[trigger] decoded_dns_servers(records)[k],
            ),
    decreases records.len(),
{
    if records.len() > 0 {
        lemma_only_ipv4_decoded(records.drop_last());
        assert forall|k: int| 0 <= k < decoded_dns_servers(records).len() implies has_ipv4_source(
            records,
            #[trigger] decoded_dns_servers(records)[k],
        ) by {
            if k < decoded_dns_servers(records.drop_last()).len() {
                assert(decoded_dns_servers(records)[k] == decoded_dns_servers(
                    records.drop_last(),
                )[k]);
                assert(has_ipv4_source(records.drop_last(), decoded_dns_servers(records)[k]));
                let j = choose|j: int|
                    ipv4_source(records.drop_last(), j, decoded_dns_servers(records)[k]);
                assert(ipv4_source(records, j, decoded_dns_servers(records)[k]));
            } else {
                assert(ipv4_source(records, records.len() - 1, decoded_dns_servers(records)[k]));
            }
        }
    }
}

/// Across a whole extraction, filtering is airtight: every address in any
/// result's DNS-server sequence stems from an IPv4-carrying record of the
/// matching adapter's list, so entries of other address families appear in
/// no result at all.
pub proof fn lemma_results_only_ipv4(adapters: Seq<AdapterRecord>, results: Seq<AdapterResult>)
    requires
        results.len() == adapters.len(),
        forall|i: int|
            0 <= i < results.len() ==> #[trigger] adapter_reported(adapters[i], results[i]),
    ensures
        forall|i: int, k: int|
            0 <= i < results.len() && 0 <= k < results[i].dns_servers@.len() ==> has_ipv4_source(
                adapters[i].dns_servers@,
                #[trigger] results[i].dns_servers@[k],
            ),
{
    assert forall|i: int, k: int|
        0 <= i < results.len() && 0 <= k
            < results[i].dns_servers@.len() implies has_ipv4_source(
        adapters[i].dns_servers@,
        #[trigger] results[i].dns_servers@[k],
    ) by {
        lemma_only_ipv4_decoded(adapters[i].dns_servers@);
        assert(adapter_reported(adapters[i], results[i]));
        assert(results[i].dns_servers@ == decoded_dns_servers(adapters[i].dns_servers@));
    }
}

/// A DNS-server list with no IPv4 entry at all, whether empty, entirely of
/// other address families, or entirely without payloads, decodes to the
/// empty address sequence.
pub proof fn lemma_filtered_list_decodes_empty(records: Seq<DnsServerRecord>)
    requires
        forall|j: int| 0 <= j < records.len() ==> !(#[trigger] records[j] is Ipv4),
    ensures
        decoded_dns_servers(records).len() == 0,
    decreases records.len(),
{
    if records.len() > 0 {
        lemma_filtered_list_decodes_empty(records.drop_last());
    }
}

} // verus!

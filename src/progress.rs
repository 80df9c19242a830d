use vstd::prelude::*;
use crate::contract::{felt_hex, is_zero, ContractId};

verus! {

/// One contract's indexing progress, as the indexer emits it and the
/// progress store holds it.
pub struct ProgressRecord {
    /// Last indexed block height.
    pub head: i64,
    /// Recent throughput in transactions per second, as the bit pattern of
    /// an IEEE-754 double; the library carries it without reading it.
    pub tps_bits: u64,
    /// Timestamp of the last indexed block, in seconds.
    pub last_block_timestamp: i64,
    /// The contract, in its `0x`-prefixed hexadecimal text form.
    pub contract_address: String,
}

/// The message a subscriber receives for one progress record.
pub struct IndexerResponse {
    pub head: i64,
    pub tps_bits: u64,
    pub last_block_timestamp: i64,
    /// Exactly 32 big-endian bytes.
    pub contract_address: Vec<u8>,
}

/// `r` carries the figures of `rec` and the address `address`.
pub open spec fn carries(r: IndexerResponse, rec: ProgressRecord, address: Seq<u8>) -> bool {
    &&& r.head == rec.head
    &&& r.tps_bits == rec.tps_bits
    &&& r.last_block_timestamp == rec.last_block_timestamp
    &&& r.contract_address@ == address
}

/// The response for `rec` that names the contract `address`.
pub fn response_for(rec: &ProgressRecord, address: &ContractId) -> (r: IndexerResponse)
    ensures
        carries(r, *rec, address@),
        r.contract_address@.len() == 32,
{
    IndexerResponse {
        head: rec.head,
        tps_bits: rec.tps_bits,
        last_block_timestamp: rec.last_block_timestamp,
        contract_address: address.to_wire(),
    }
}

/// The priming messages of a new subscriber with filter `filter`, one per
/// stored record, in order. Each names the filter itself, not the record's
/// own contract: a wildcard subscriber's priming messages carry 32 zero
/// bytes.
pub fn priming_responses(filter: &ContractId, rows: &Vec<ProgressRecord>) -> (r: Vec<IndexerResponse>)
    ensures
        r@.len() == rows@.len(),
        forall|i: int| 0 <= i < r@.len() ==> carries(#[trigger] r@[i], rows@[i], filter@),
        forall|i: int| 0 <= i < r@.len() ==> (#[trigger] r@[i]).contract_address@.len() == 32,
{
    let mut out: Vec<IndexerResponse> = Vec::new();
    for i in 0..rows.len()
        invariant
            out@.len() == i,
            filter@.len() == 32,
            forall|j: int| 0 <= j < i ==> carries(#[trigger] out@[j], rows@[j], filter@),
    {
        out.push(response_for(&rows[i], filter));
    }
    out
}

/// Which rows of the progress store prime a new subscriber.
pub enum PrimingQuery {
    /// Every stored record.
    All,
    /// The record stored under this key, the filter's hexadecimal form.
    ByAddress { key: String },
}

/// The priming read for a subscriber with filter `filter`: every record for
/// the wildcard, else the one keyed by the filter's hexadecimal form.
pub fn priming_query(filter: &ContractId) -> (r: PrimingQuery)
    ensures
        is_zero(filter@) ==> r is All,
        !is_zero(filter@) ==> r is ByAddress && r->key@ == felt_hex(filter@),
{
    if filter.is_zero() {
        PrimingQuery::All
    } else {
        PrimingQuery::ByAddress { key: filter.to_hex() }
    }
}

} // verus!

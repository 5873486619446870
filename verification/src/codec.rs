//! The boundary to the external message codec. Each structured kind this
//! core decodes has one trusted wrapper around the codec's parser, and a
//! name for what that parser yields on given bytes: parsing is a function
//! of the input bytes alone, so the names are well defined.

use vstd::prelude::*;

use crate::protocol::{DecodeError, NodeType, WireHandshake, WireHandshakeModel};
use chia_traits::Streamable;

verus! {

/// What the codec's handshake parser yields on these bytes: the wire
/// handshake if they parse, nothing if they are rejected.
pub uninterp spec fn parsed_handshake(data: Seq<u8>) -> Option<WireHandshakeModel>;

/// A new-peak announcement: the head of the chain a full node advertises.
#[derive(Clone, Debug, PartialEq, Eq)]
pub struct NewPeak {
    pub header_hash: Vec<u8>,
    pub height: u32,
    pub weight: u128,
    pub fork_point_with_previous_peak: u32,
    pub unfinished_reward_block_hash: Vec<u8>,
}

#[verifier::ext_equal]
pub struct NewPeakModel {
    pub header_hash: Seq<u8>,
    pub height: u32,
    pub weight: u128,
    pub fork_point_with_previous_peak: u32,
    pub unfinished_reward_block_hash: Seq<u8>,
}

impl View for NewPeak {
    type V = NewPeakModel;

    open spec fn view(&self) -> NewPeakModel {
        NewPeakModel {
            header_hash: self.header_hash@,
            height: self.height,
            weight: self.weight,
            fork_point_with_previous_peak: self.fork_point_with_previous_peak,
            unfinished_reward_block_hash: self.unfinished_reward_block_hash@,
        }
    }
}

/// What the codec's new-peak parser yields on these bytes.
pub uninterp spec fn parsed_new_peak(data: Seq<u8>) -> Option<NewPeakModel>;

/// A new-transaction announcement from a full node's mempool.
#[derive(Clone, Debug, PartialEq, Eq)]
pub struct NewTransaction {
    pub transaction_id: Vec<u8>,
    pub cost: u64,
    pub fees: u64,
}

#[verifier::ext_equal]
pub struct NewTransactionModel {
    pub transaction_id: Seq<u8>,
    pub cost: u64,
    pub fees: u64,
}

impl View for NewTransaction {
    type V = NewTransactionModel;

    open spec fn view(&self) -> NewTransactionModel {
        NewTransactionModel {
            transaction_id: self.transaction_id@,
            cost: self.cost,
            fees: self.fees,
        }
    }
}

/// What the codec's new-transaction parser yields on these bytes.
pub uninterp spec fn parsed_new_transaction(data: Seq<u8>) -> Option<NewTransactionModel>;

/// Relies on chia_protocol::Handshake::from_bytes (chia-traits'
/// Streamable): parsing is a function of the bytes alone, and a parsed
/// node type always carries one of the enumeration's declared wire codes,
/// since the generated parser rejects any other byte.
#[verifier::external_body]
pub(crate) fn decode_handshake(data: &Vec<u8>) -> (r: Result<WireHandshake, DecodeError>)
    ensures
        r is Ok <==> parsed_handshake(data@) is Some,
        r matches Ok(w) ==> parsed_handshake(data@) == Some(w@),
        r matches Ok(w) ==> NodeType::spec_from_wire(w.node_type) is Some,
{
    match chia_protocol::Handshake::from_bytes(data.as_slice()) {
        Ok(h) => Ok(WireHandshake {
            network_id: h.network_id,
            protocol_version: h.protocol_version,
            software_version: h.software_version,
            server_port: h.server_port,
            node_type: h.node_type as u8,
            capabilities: h.capabilities,
        }),
        Err(_) => Err(DecodeError),
    }
}

/// Relies on chia_protocol::NewPeak::from_bytes (chia-traits'
/// Streamable): parsing is a function of the bytes alone.
#[verifier::external_body]
pub(crate) fn decode_new_peak(data: &Vec<u8>) -> (r: Result<NewPeak, DecodeError>)
    ensures
        r is Ok <==> parsed_new_peak(data@) is Some,
        r matches Ok(p) ==> parsed_new_peak(data@) == Some(p@),
{
    match chia_protocol::NewPeak::from_bytes(data.as_slice()) {
        Ok(p) => Ok(NewPeak {
            header_hash: p.header_hash.to_vec(),
            height: p.height,
            weight: p.weight,
            fork_point_with_previous_peak: p.fork_point_with_previous_peak,
            unfinished_reward_block_hash: p.unfinished_reward_block_hash.to_vec(),
        }),
        Err(_) => Err(DecodeError),
    }
}

/// Relies on chia_protocol::NewTransaction::from_bytes (chia-traits'
/// Streamable): parsing is a function of the bytes alone.
#[verifier::external_body]
pub(crate) fn decode_new_transaction(data: &Vec<u8>) -> (r: Result<NewTransaction, DecodeError>)
    ensures
        r is Ok <==> parsed_new_transaction(data@) is Some,
        r matches Ok(t) ==> parsed_new_transaction(data@) == Some(t@),
{
    match chia_protocol::NewTransaction::from_bytes(data.as_slice()) {
        Ok(t) => Ok(NewTransaction {
            transaction_id: t.transaction_id.to_vec(),
            cost: t.cost,
            fees: t.fees,
        }),
        Err(_) => Err(DecodeError),
    }
}

} // verus!

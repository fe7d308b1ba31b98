//! The shapes of the node's responses.
use vstd::prelude::*;

use crate::timestamp::Timestamp;

verus! {

/// A block header.
#[derive(Debug, PartialEq, Eq)]
pub struct Header {
    pub version: Version,
    pub chain_id: String,
    pub height: u32,
    pub time: Timestamp,
    pub last_block_id: BlockId,
    pub last_commit_hash: String,
    pub data_hash: String,
    pub validators_hash: String,
    pub next_validators_hash: String,
    pub consensus_hash: String,
    pub app_hash: String,
    pub last_results_hash: String,
    pub evidence_hash: String,
    pub proposer_address: String,
}

/// The block and application protocol versions.
#[derive(Debug, PartialEq, Eq)]
pub struct Version {
    pub block: u32,
    pub app: u32,
}

/// Identifies a block: its hash and its part set.
#[derive(Debug, PartialEq, Eq)]
pub struct BlockId {
    pub hash: String,
    pub parts: Parts,
}

/// The part set header of a block.
#[derive(Debug, PartialEq, Eq)]
pub struct Parts {
    pub total: u32,
    pub hash: String,
}

/// The commit of a block, with its validators' signatures in the node's order.
#[derive(Debug, PartialEq, Eq)]
pub struct Commit {
    pub height: u32,
    pub round: u32,
    pub block_id: BlockId,
    pub signatures: Vec<Signature>,
}

/// One validator's vote in a commit; the signature is absent when the
/// validator did not sign.
#[derive(Debug, PartialEq, Eq)]
pub struct Signature {
    pub block_id_flag: u32,
    pub validator_address: String,
    pub timestamp: Timestamp,
    pub signature: Option<String>,
}

/// The validators of a block, in the node's order.
#[derive(Debug, PartialEq, Eq)]
pub struct ValidatorSet {
    pub validators: Vec<Validator>,
}

/// A validator with its voting power and proposer priority.
#[derive(Debug, PartialEq, Eq)]
pub struct Validator {
    pub address: String,
    pub pub_key: String,
    pub voting_power: u32,
    pub proposer_priority: i64,
}

/// The row and column roots of a block's extended data square.
#[derive(Debug, PartialEq, Eq)]
pub struct DataAvailabilityHeader {
    pub row_roots: Vec<String>,
    pub column_roots: Vec<String>,
}

/// The answer to a balance request.
#[derive(Debug, PartialEq, Eq)]
pub struct BalanceResponse {
    pub denom: String,
    pub amount: u32,
}

/// The answer to a data availability request.
#[derive(Debug, PartialEq, Eq)]
pub struct DataAvailableResponse {
    pub available: bool,
    pub probability_of_availability: String,
}

/// The answer to a request for the latest header.
#[derive(Debug, PartialEq, Eq)]
pub struct HeadResponse {
    pub header: Header,
    pub commit: Commit,
    pub validator_set: ValidatorSet,
    pub dah: DataAvailabilityHeader,
}

/// The answer to a request for the header at a height.
#[derive(Debug, PartialEq, Eq)]
pub struct HeaderResponse {
    pub header: Header,
    pub commit: Commit,
    pub validator_set: ValidatorSet,
    pub dah: DataAvailabilityHeader,
}

/// The data under a namespace, in the node's order, and the height it is from.
#[derive(Debug, PartialEq, Eq)]
pub struct NamespacedDataResponse {
    pub data: Vec<String>,
    pub height: u32,
}

/// The shares under a namespace, if any, and the height they are from.
#[derive(Debug, PartialEq, Eq)]
pub struct NamespacedSharesResponse {
    pub shares: Option<Vec<String>>,
    pub height: u32,
}

} // verus!

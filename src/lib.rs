//! Client for a Celestia node's REST API.
//!
//! The library composes the URL of each request and holds the shapes of the
//! node's answers; sending a request and decoding its JSON body is left to
//! the caller's HTTP stack.
use vstd::prelude::*;

pub mod context;
pub mod decimal;
pub mod endpoint;
pub mod timestamp;
pub mod types;

pub use context::Context;
pub use endpoint::Endpoint;
pub use timestamp::Timestamp;
pub use types::{
    BalanceResponse, BlockId, Commit, DataAvailabilityHeader, DataAvailableResponse, HeadResponse,
    Header, HeaderResponse, NamespacedDataResponse, NamespacedSharesResponse, Parts, Signature,
    Validator, ValidatorSet, Version,
};

verus! {

/// Where a node serves its REST API by default.
pub const DEFAULT_BASE_URL: &'static str = "http://localhost:26658";

} // verus!

//! The node's endpoints and the request path of each.
use vstd::prelude::*;

use crate::decimal::{decimal, lemma_decimal_spells, push_decimal, spells};

verus! {

// The path segments that name each endpoint, the key before a height, and
// the separator between segments.
pub const ENDPOINT_BALANCE: &'static str = "balance";

pub const ENDPOINT_DATA_AVAILABLE: &'static str = "data_available";

pub const ENDPOINT_HEAD: &'static str = "head";

pub const ENDPOINT_HEADER: &'static str = "header";

pub const ENDPOINT_NAMESPACED_DATA: &'static str = "namespaced_data";

pub const ENDPOINT_NAMESPACED_SHARES: &'static str = "namespaced_shares";

pub const KEY_HEIGHT: &'static str = "height";

pub const SEPARATOR: &'static str = "/";

/// One request that the node answers, with its parameters.
#[allow(inconsistent_fields)]
pub enum Endpoint {
    /// The balance of `address`, or of the node's own account when absent.
    Balance { address: Option<String> },
    /// Whether the data of the block at `height` is available.
    DataAvailable { height: u64 },
    /// The header of the latest block.
    Head,
    /// The header of the block at `height`.
    Header { height: u64 },
    /// The data under a namespace, at `height` or at the latest block.
    NamespacedData { namespace_id: String, height: Option<u64> },
    /// The shares under a namespace, at `height` or at the latest block.
    NamespacedShares { namespace_id: String, height: Option<u64> },
}

/// `a` and `b` joined by a slash.
pub open spec fn joined(a: Seq<char>, b: Seq<char>) -> Seq<char> {
    a + SEPARATOR@ + b
}

/// The path of a namespace-scoped endpoint: `name/id`, followed by
/// `/height/h` only when a height is given.
pub open spec fn scoped_path(
    name: Seq<char>,
    namespace_id: Seq<char>,
    height: Option<u64>,
) -> Seq<char> {
    match height {
        None => joined(name, namespace_id),
        Some(h) => joined(joined(joined(name, namespace_id), KEY_HEIGHT@), decimal(h as nat)),
    }
}

impl Endpoint {
    /// The path, relative to the node's base URL, that this request targets.
    pub open spec fn spec_path(&self) -> Seq<char> {
        match self {
            Endpoint::Balance { address: None } => ENDPOINT_BALANCE@,
            Endpoint::Balance { address: Some(a) } => joined(ENDPOINT_BALANCE@, a@),
            Endpoint::DataAvailable { height } => joined(
                ENDPOINT_DATA_AVAILABLE@,
                decimal(*height as nat),
            ),
            Endpoint::Head => ENDPOINT_HEAD@,
            Endpoint::Header { height } => joined(ENDPOINT_HEADER@, decimal(*height as nat)),
            Endpoint::NamespacedData { namespace_id, height } => scoped_path(
                ENDPOINT_NAMESPACED_DATA@,
                namespace_id@,
                *height,
            ),
            Endpoint::NamespacedShares { namespace_id, height } => scoped_path(
                ENDPOINT_NAMESPACED_SHARES@,
                namespace_id@,
                *height,
            ),
        }
    }

    /// The path, relative to the node's base URL, that this request targets.
    pub fn path(&self) -> (r: String)
        ensures
            r@ == self.spec_path(),
    {
        match self {
            Endpoint::Balance { address } => {
                let mut s = String::from_str(ENDPOINT_BALANCE);
                if let Some(a) = address {
                    s.append(SEPARATOR);
                    s.append(a.as_str());
                }
                s
            },
            Endpoint::DataAvailable { height } => {
                let mut s = String::from_str(ENDPOINT_DATA_AVAILABLE);
                s.append(SEPARATOR);
                push_decimal(&mut s, *height);
                s
            },
            Endpoint::Head => String::from_str(ENDPOINT_HEAD),
            Endpoint::Header { height } => {
                let mut s = String::from_str(ENDPOINT_HEADER);
                s.append(SEPARATOR);
                push_decimal(&mut s, *height);
                s
            },
            Endpoint::NamespacedData { namespace_id, height } => scoped(
                ENDPOINT_NAMESPACED_DATA,
                namespace_id,
                *height,
            ),
            Endpoint::NamespacedShares { namespace_id, height } => scoped(
                ENDPOINT_NAMESPACED_SHARES,
                namespace_id,
                *height,
            ),
        }
    }
}

/// The path of the namespace-scoped endpoint `name`.
fn scoped(name: &str, namespace_id: &String, height: Option<u64>) -> (r: String)
    ensures
        r@ == scoped_path(name@, namespace_id@, height),
{
    let mut s = String::from_str(name);
    s.append(SEPARATOR);
    s.append(namespace_id.as_str());
    if let Some(h) = height {
        s.append(SEPARATOR);
        s.append(KEY_HEIGHT);
        s.append(SEPARATOR);
        push_decimal(&mut s, h);
    }
    s
}


/// The node's own balance and that of a given address are asked at different
/// paths: `balance` and `balance/{address}`.
pub proof fn lemma_balance_paths_differ(address: String)
    ensures
        (Endpoint::Balance { address: None }).spec_path() == "balance"@,
        (Endpoint::Balance { address: Some(address) }).spec_path() == "balance/"@ + address@,
        (Endpoint::Balance { address: None }).spec_path() != (Endpoint::Balance {
            address: Some(address),
        }).spec_path(),
{
    reveal_strlit("balance");
    reveal_strlit("balance/");
    reveal_strlit("/");
    assert(("balance"@ + "/"@ + address@) =~= "balance/"@ + address@);
    assert(("balance/"@ + address@).len() > "balance"@.len());
}

/// A height is written into the path literally, as its unsigned decimal
/// spelling: `header/{height}`, `data_available/{height}` and
/// `namespaced_data/{id}/height/{height}` (likewise for shares).
pub proof fn lemma_height_in_path(namespace_id: String, height: u64)
    ensures
        (Endpoint::Header { height }).spec_path() == "header/"@ + decimal(height as nat),
        (Endpoint::DataAvailable { height }).spec_path() == "data_available/"@ + decimal(
            height as nat,
        ),
        (Endpoint::NamespacedData { namespace_id, height: Some(height) }).spec_path()
            == "namespaced_data/"@ + namespace_id@ + "/height/"@ + decimal(height as nat),
        (Endpoint::NamespacedShares { namespace_id, height: Some(height) }).spec_path()
            == "namespaced_shares/"@ + namespace_id@ + "/height/"@ + decimal(height as nat),
        spells(decimal(height as nat), height as nat),
{
    reveal_strlit("/");
    reveal_strlit("header");
    reveal_strlit("header/");
    reveal_strlit("data_available");
    reveal_strlit("data_available/");
    reveal_strlit("namespaced_data");
    reveal_strlit("namespaced_data/");
    reveal_strlit("namespaced_shares");
    reveal_strlit("namespaced_shares/");
    reveal_strlit("height");
    reveal_strlit("/height/");
    let d = decimal(height as nat);
    assert(("header"@ + "/"@ + d) =~= "header/"@ + d);
    assert(("data_available"@ + "/"@ + d) =~= "data_available/"@ + d);
    assert(("namespaced_data"@ + "/"@ + namespace_id@ + "/"@ + "height"@ + "/"@ + d)
        =~= "namespaced_data/"@ + namespace_id@ + "/height/"@ + d);
    assert(("namespaced_shares"@ + "/"@ + namespace_id@ + "/"@ + "height"@ + "/"@ + d)
        =~= "namespaced_shares/"@ + namespace_id@ + "/height/"@ + d);
    lemma_decimal_spells(height as nat);
}

/// Without a height, a namespace-scoped request carries no height segment at
/// all: its path is `namespaced_data/{id}` (or `namespaced_shares/{id}`), a
/// path that no height gives.
pub proof fn lemma_latest_path_has_no_height(namespace_id: String)
    ensures
        (Endpoint::NamespacedData { namespace_id, height: None }).spec_path() == "namespaced_data/"@
            + namespace_id@,
        (Endpoint::NamespacedShares { namespace_id, height: None }).spec_path()
            == "namespaced_shares/"@ + namespace_id@,
        forall|h: u64|
            (Endpoint::NamespacedData { namespace_id, height: None }).spec_path() != #[trigger] (
            Endpoint::NamespacedData { namespace_id, height: Some(h) }).spec_path(),
        forall|h: u64|
            (Endpoint::NamespacedShares { namespace_id, height: None }).spec_path() != #[trigger] (
            Endpoint::NamespacedShares { namespace_id, height: Some(h) }).spec_path(),
{
    reveal_strlit("/");
    reveal_strlit("namespaced_data");
    reveal_strlit("namespaced_data/");
    reveal_strlit("namespaced_shares");
    reveal_strlit("namespaced_shares/");
    assert(("namespaced_data"@ + "/"@ + namespace_id@) =~= "namespaced_data/"@ + namespace_id@);
    assert(("namespaced_shares"@ + "/"@ + namespace_id@) =~= "namespaced_shares/"@
        + namespace_id@);
    assert forall|h: u64|
        (Endpoint::NamespacedData { namespace_id, height: None }).spec_path() != #[trigger] (
        Endpoint::NamespacedData { namespace_id, height: Some(h) }).spec_path() by {
        let none = scoped_path(ENDPOINT_NAMESPACED_DATA@, namespace_id@, None);
        let some = scoped_path(ENDPOINT_NAMESPACED_DATA@, namespace_id@, Some(h));
        assert(some.len() > none.len());
    }
    assert forall|h: u64|
        (Endpoint::NamespacedShares { namespace_id, height: None }).spec_path() != #[trigger] (
        Endpoint::NamespacedShares { namespace_id, height: Some(h) }).spec_path() by {
        let none = scoped_path(ENDPOINT_NAMESPACED_SHARES@, namespace_id@, None);
        let some = scoped_path(ENDPOINT_NAMESPACED_SHARES@, namespace_id@, Some(h));
        assert(some.len() > none.len());
    }
}

} // verus!

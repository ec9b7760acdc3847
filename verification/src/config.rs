//! The configured submission routes.

use vstd::prelude::*;

verus! {

/// The kinds of submission route.
#[derive(Clone, Copy, Debug, PartialEq, Eq)]
pub enum RpcType {
    /// A ledger node, asked directly.
    SolanaRpc,
    /// The bundle relay.
    Jito,
    /// The first content relay.
    Bloxroute,
    /// The second content relay.
    Nextblock,
}

impl Default for RpcType {
    fn default() -> (r: RpcType)
        ensures
            r == RpcType::SolanaRpc,
    {
        RpcType::SolanaRpc
    }
}

/// One configured route: where it is reached, the credential it asks for if
/// any, and its kind.
#[derive(Clone, Debug, PartialEq, Eq)]
pub struct RpcConfig {
    pub url: String,
    pub auth: Option<String>,
    pub rpc_type: RpcType,
}

} // verus!

//! A ledger node asked directly: the transaction goes to the node's submit
//! call without preflight, and the node answers with its signature.

use vstd::prelude::*;
use vstd::string::*;
use crate::config::RpcType;
use crate::error::Error;
use crate::keys::Blockhash;
use crate::meteora::SwapData;
use crate::tx_senders::transaction::{build_transaction_with_config, TransactionConfig};
use crate::tx_senders::{
    Reply, RpcSendTransactionConfig, Submission, TxResult, TxSender, UiTransactionEncoding,
};

verus! {

/// How a failure to reach the node is reported, before the route's name.
pub const SEND_FAILURE: &'static str = "Failed to send transaction for ";

pub struct GenericRpc {
    pub name: String,
    pub url: String,
    pub tx_config: TransactionConfig,
    pub rpc_type: RpcType,
}

/// What is measured of one submission.
#[derive(Clone, Debug, PartialEq, Eq)]
pub struct TxMetrics {
    pub rpc_name: String,
    pub signature: String,
    pub index: u32,
    pub success: bool,
    pub slot_sent: u64,
    pub slot_landed: Option<u64>,
    pub slot_latency: Option<u64>,
    /// In milliseconds.
    pub elapsed: Option<u64>,
}

/// The options that the node's submit call is made with: no preflight,
/// base64, and no bound on retries or on the slot.
pub open spec fn send_options() -> RpcSendTransactionConfig {
    RpcSendTransactionConfig {
        skip_preflight: true,
        encoding: Some(UiTransactionEncoding::Base64),
        max_retries: None,
        min_context_slot: None,
    }
}

impl GenericRpc {
    pub fn new(name: String, url: String, config: TransactionConfig, rpc_type: RpcType) -> (r:
        GenericRpc)
        ensures
            r.name == name,
            r.url == url,
            r.tx_config == config,
            r.rpc_type == rpc_type,
    {
        GenericRpc { name, url, tx_config: config, rpc_type }
    }
}

impl TxSender for GenericRpc {
    open spec fn named(&self) -> Seq<char> {
        self.name@
    }

    /// The route's transaction goes to the node as it is, with the options
    /// of [`send_options`].
    open spec fn prepares(
        &self,
        recent_blockhash: Blockhash,
        swap_data: SwapData,
        r: Result<Submission, Error>,
    ) -> bool {
        let planned = self.tx_config.planned_transaction(self.rpc_type, recent_blockhash, swap_data);
        match r {
            Ok(Submission::Rpc { url, transaction, config }) => {
                &&& url@ == self.url@
                &&& config == send_options()
                &&& transaction.v0_view() matches Some(signed)
                &&& planned == Ok::<_, Error>(signed)
            },
            Ok(Submission::Http(_)) => false,
            Err(e) => planned == Err::<crate::message::SignedV0View, _>(e),
        }
    }

    /// The node's signature is the result; a failure to reach the node is
    /// reported under the route's name.
    open spec fn answers(&self, reply: Reply, r: Result<TxResult, Error>) -> bool {
        match reply {
            Reply::Signature(signature) => r == Ok::<_, Error>(TxResult::Signature(signature)),
            Reply::Failure(why) => r matches Err(Error::Custom(text)) && text@ == SEND_FAILURE@
                + self.name@ + ": "@ + why@,
            Reply::Http { .. } => r == Err::<TxResult, _>(Error::MalformedResponse),
        }
    }

    fn name(&self) -> (r: String) {
        self.name.clone()
    }

    fn prepare(&self, index: u32, recent_blockhash: Blockhash, swap_data: SwapData) -> (r: Result<
        Submission,
        Error,
    >) {
        let transaction = match build_transaction_with_config(
            &self.tx_config,
            &self.rpc_type,
            recent_blockhash,
            swap_data,
        ) {
            Ok(transaction) => transaction,
            Err(e) => {
                return Err(e);
            },
        };
        Ok(
            Submission::Rpc {
                url: self.url.clone(),
                transaction,
                config: RpcSendTransactionConfig {
                    skip_preflight: true,
                    encoding: Some(UiTransactionEncoding::Base64),
                    max_retries: None,
                    min_context_slot: None,
                },
            },
        )
    }

    fn complete(&self, reply: Reply) -> (r: Result<TxResult, Error>) {
        match reply {
            Reply::Signature(signature) => Ok(TxResult::Signature(signature)),
            Reply::Failure(why) => Err(
                Error::Custom(
                    String::from_str(SEND_FAILURE).concat(self.name.as_str()).concat(": ").concat(
                        why.as_str(),
                    ),
                ),
            ),
            Reply::Http { .. } => Err(Error::MalformedResponse),
        }
    }
}

} // verus!

//! The bundle relay: a JSON-RPC call that carries the transaction in base58
//! and answers with the relay's identifier of the bundle.

use vstd::prelude::*;
use vstd::string::*;
use crate::config::RpcType;
use crate::error::Error;
use crate::keys::Blockhash;
use crate::message::VersionedTransaction;
use crate::meteora::SwapData;
use crate::sdk;
use crate::tx_senders::transaction::{
    build_transaction_with_config, build_wire, carries_swap, TransactionConfig,
};
use crate::tx_senders::{
    identifier_answer, json_headers, status_is_success, HttpRequest, Reply, Submission, TxResult,
    TxSender, APPLICATION_JSON, CONTENT_TYPE,
};

verus! {

/// What the request's body holds before the transaction.
pub const JITO_BODY_HEAD: &'static str =
    "{\"jsonrpc\":\"2.0\",\"id\":1,\"method\":\"sendTransaction\",\"params\":[\"";

/// What the request's body holds after the transaction.
pub const JITO_BODY_TAIL: &'static str = "\"]}";

pub struct JitoTxSender {
    pub url: String,
    pub name: String,
    pub tx_config: TransactionConfig,
}

/// The slot that a bundle's status was read at.
#[derive(Clone, Copy, Debug, PartialEq, Eq)]
pub struct JitoBundleStatusResponseInnerContext {
    pub slot: u64,
}

/// The relay's answer to an accepted transaction.
#[derive(Clone, Debug, PartialEq, Eq)]
pub struct JitoResponse {
    /// The relay's identifier of the bundle.
    pub result: String,
}

impl JitoResponse {
    /// Reads the answer from the JSON object that `body` spells.
    pub fn from_json(body: &str) -> (r: Option<JitoResponse>)
        ensures
            match r {
                Some(response) => sdk::json_string_field(body@, "result"@) == Some(
                    response.result@,
                ),
                None => sdk::json_string_field(body@, "result"@) is None,
            },
    {
        match sdk::json_get_string(body, "result") {
            Some(result) => Some(JitoResponse { result }),
            None => None,
        }
    }
}

impl JitoTxSender {
    pub fn new(name: String, url: String, tx_config: TransactionConfig) -> (r: JitoTxSender)
        ensures
            r.name == name,
            r.url == url,
            r.tx_config == tx_config,
    {
        JitoTxSender { url, name, tx_config }
    }

    /// The route's transaction for the pool, with the tip for this relay.
    /// Its last instruction is the swap.
    pub fn build_transaction_with_config(
        &self,
        index: u32,
        recent_blockhash: Blockhash,
        swap_data: SwapData,
    ) -> (r: Result<VersionedTransaction, Error>)
        ensures
            match r {
                Ok(transaction) => transaction.v0_view() matches Some(signed)
                    && self.tx_config.planned_transaction(
                    RpcType::Jito,
                    recent_blockhash,
                    swap_data,
                ) == Ok::<_, Error>(signed),
                Err(e) => self.tx_config.planned_transaction(
                    RpcType::Jito,
                    recent_blockhash,
                    swap_data,
                ) == Err::<crate::message::SignedV0View, _>(e),
            },
            r matches Ok(transaction) ==> transaction.v0_view() matches Some(signed) && carries_swap(
                signed.message,
                self.tx_config.buy_amount,
                self.tx_config.min_amount_out,
            ),
    {
        build_transaction_with_config(&self.tx_config, &RpcType::Jito, recent_blockhash, swap_data)
    }

    /// The body of the relay's request for a transaction's bytes.
    pub open spec fn body(wire: Seq<u8>) -> Seq<char> {
        JITO_BODY_HEAD@ + sdk::base58_text(wire) + JITO_BODY_TAIL@
    }
}

impl TxSender for JitoTxSender {
    open spec fn named(&self) -> Seq<char> {
        self.name@
    }

    /// The request goes to the relay's address as JSON, and holds the bytes
    /// of the route's transaction in base58.
    open spec fn prepares(
        &self,
        recent_blockhash: Blockhash,
        swap_data: SwapData,
        r: Result<Submission, Error>,
    ) -> bool {
        let planned = self.tx_config.planned_wire(RpcType::Jito, recent_blockhash, swap_data);
        match r {
            Ok(Submission::Http(request)) => planned matches Ok(wire) && request.is(
                self.url@,
                seq![(CONTENT_TYPE@, APPLICATION_JSON@)],
                Self::body(wire),
            ),
            Ok(Submission::Rpc { .. }) => false,
            Err(e) => planned == Err::<Seq<u8>, _>(e),
        }
    }

    /// A successful answer names the bundle under `result`.
    open spec fn answers(&self, reply: Reply, r: Result<TxResult, Error>) -> bool {
        match reply {
            Reply::Http { status, body } => identifier_answer(status, body@, "result"@, r),
            Reply::Failure(why) => r matches Err(Error::Custom(text)) && text@ == why@,
            Reply::Signature(_) => r == Err::<TxResult, _>(Error::MalformedResponse),
        }
    }

    fn name(&self) -> (r: String) {
        self.name.clone()
    }

    fn prepare(&self, index: u32, recent_blockhash: Blockhash, swap_data: SwapData) -> (r: Result<
        Submission,
        Error,
    >) {
        let wire = match build_wire(&self.tx_config, &RpcType::Jito, recent_blockhash, swap_data) {
            Ok(wire) => wire,
            Err(e) => {
                return Err(e);
            },
        };
        let encoded = sdk::base58_encode(wire.as_slice());
        let body = String::from_str(JITO_BODY_HEAD).concat(encoded.as_str()).concat(JITO_BODY_TAIL);
        Ok(
            Submission::Http(
                HttpRequest { url: self.url.clone(), headers: json_headers(None), body },
            ),
        )
    }

    fn complete(&self, reply: Reply) -> (r: Result<TxResult, Error>) {
        match reply {
            Reply::Http { status, body } => {
                if !status_is_success(status) {
                    return Err(Error::Rejected(body));
                }
                match JitoResponse::from_json(body.as_str()) {
                    Some(response) => Ok(TxResult::BundleID(response.result)),
                    None => Err(Error::MalformedResponse),
                }
            },
            Reply::Failure(why) => Err(Error::Custom(why)),
            Reply::Signature(_) => Err(Error::MalformedResponse),
        }
    }
}

} // verus!

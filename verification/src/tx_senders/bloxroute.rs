//! The first content relay: a POST that carries the transaction in base64
//! under a credential and answers with the transaction's signature.

use vstd::prelude::*;
use vstd::string::*;
use crate::config::RpcType;
use crate::error::Error;
use crate::keys::Blockhash;
use crate::message::VersionedTransaction;
use crate::meteora::SwapData;
use crate::sdk;
use crate::tx_senders::transaction::{
    build_transaction_with_config, build_wire, carries_swap, TransactionConfig,
};
use crate::tx_senders::{
    json_headers, signature_answer, signature_result, status_is_success, HttpRequest, Reply,
    Submission, TxResult, TxSender, APPLICATION_JSON, AUTHORIZATION, CONTENT_TYPE,
};

verus! {

/// What the request's body holds before the transaction.
pub const BLOXROUTE_BODY_HEAD: &'static str = "{\"transaction\":{\"content\":\"";

/// What the request's body holds after the transaction.
pub const BLOXROUTE_BODY_TAIL: &'static str = "\"}}";

pub struct BloxrouteTxSender {
    pub url: String,
    pub name: String,
    pub tx_config: TransactionConfig,
    pub auth: Option<String>,
}

/// The relay's answer to an accepted transaction.
#[derive(Clone, Debug, PartialEq, Eq)]
pub struct BloxrouteResponse {
    /// The transaction's signature in base58.
    pub signature: String,
}

impl BloxrouteResponse {
    /// Reads the answer from the JSON object that `body` spells.
    pub fn from_json(body: &str) -> (r: Option<BloxrouteResponse>)
        ensures
            match r {
                Some(response) => sdk::json_string_field(body@, "signature"@) == Some(
                    response.signature@,
                ),
                None => sdk::json_string_field(body@, "signature"@) is None,
            },
    {
        match sdk::json_get_string(body, "signature") {
            Some(signature) => Some(BloxrouteResponse { signature }),
            None => None,
        }
    }
}

impl BloxrouteTxSender {
    pub fn new(name: String, url: String, tx_config: TransactionConfig, auth: Option<String>) -> (r:
        BloxrouteTxSender)
        ensures
            r.name == name,
            r.url == url,
            r.tx_config == tx_config,
            r.auth == auth,
    {
        BloxrouteTxSender { url, name, tx_config, auth }
    }

    /// The credential that the request carries: the configured one, or
    /// the empty text where none is configured.
    pub open spec fn credential(&self) -> Seq<char> {
        match self.auth {
            Some(text) => text@,
            None => Seq::empty(),
        }
    }

    /// The route's transaction for the pool, with the tip for this relay.
    /// Its last instruction is the swap.
    pub fn build_transaction_with_config(
        &self,
        index: u32,
        recent_blockhash: Blockhash,
        swap_data: SwapData,
    ) -> (r: Result<VersionedTransaction, Error>)
        ensures
            match r {
                Ok(transaction) => transaction.v0_view() matches Some(signed)
                    && self.tx_config.planned_transaction(
                    RpcType::Bloxroute,
                    recent_blockhash,
                    swap_data,
                ) == Ok::<_, Error>(signed),
                Err(e) => self.tx_config.planned_transaction(
                    RpcType::Bloxroute,
                    recent_blockhash,
                    swap_data,
                ) == Err::<crate::message::SignedV0View, _>(e),
            },
            r matches Ok(transaction) ==> transaction.v0_view() matches Some(signed) && carries_swap(
                signed.message,
                self.tx_config.buy_amount,
                self.tx_config.min_amount_out,
            ),
    {
        build_transaction_with_config(&self.tx_config, &RpcType::Bloxroute, recent_blockhash, swap_data)
    }

    /// The body of the relay's request for a transaction's bytes.
    pub open spec fn body(wire: Seq<u8>) -> Seq<char> {
        BLOXROUTE_BODY_HEAD@ + sdk::base64_text(wire) + BLOXROUTE_BODY_TAIL@
    }
}

impl TxSender for BloxrouteTxSender {
    open spec fn named(&self) -> Seq<char> {
        self.name@
    }

    /// The request goes to the relay's address as JSON with the credential,
    /// and holds the bytes of the route's transaction in base64.
    open spec fn prepares(
        &self,
        recent_blockhash: Blockhash,
        swap_data: SwapData,
        r: Result<Submission, Error>,
    ) -> bool {
        let planned = self.tx_config.planned_wire(RpcType::Bloxroute, recent_blockhash, swap_data);
        match r {
            Ok(Submission::Http(request)) => planned matches Ok(wire) && request.is(
                self.url@,
                seq![(CONTENT_TYPE@, APPLICATION_JSON@), (AUTHORIZATION@, self.credential())],
                Self::body(wire),
            ),
            Ok(Submission::Rpc { .. }) => false,
            Err(e) => planned == Err::<Seq<u8>, _>(e),
        }
    }

    /// A successful answer names the transaction's signature.
    open spec fn answers(&self, reply: Reply, r: Result<TxResult, Error>) -> bool {
        match reply {
            Reply::Http { status, body } => signature_answer(status, body@, r),
            Reply::Failure(why) => r matches Err(Error::Custom(text)) && text@ == why@,
            Reply::Signature(_) => r == Err::<TxResult, _>(Error::MalformedResponse),
        }
    }

    fn name(&self) -> (r: String) {
        self.name.clone()
    }

    fn prepare(&self, index: u32, recent_blockhash: Blockhash, swap_data: SwapData) -> (r: Result<
        Submission,
        Error,
    >) {
        let wire = match build_wire(&self.tx_config, &RpcType::Bloxroute, recent_blockhash, swap_data) {
            Ok(wire) => wire,
            Err(e) => {
                return Err(e);
            },
        };
        let encoded = sdk::base64_encode(wire.as_slice());
        let body = String::from_str(BLOXROUTE_BODY_HEAD).concat(encoded.as_str()).concat(BLOXROUTE_BODY_TAIL);
        Ok(
            Submission::Http(
                HttpRequest { url: self.url.clone(), headers: json_headers(Some(&self.auth)), body },
            ),
        )
    }

    fn complete(&self, reply: Reply) -> (r: Result<TxResult, Error>) {
        match reply {
            Reply::Http { status, body } => {
                if !status_is_success(status) {
                    return Err(Error::Rejected(body));
                }
                match BloxrouteResponse::from_json(body.as_str()) {
                    Some(response) => signature_result(response.signature.as_str()),
                    None => Err(Error::MalformedResponse),
                }
            },
            Reply::Failure(why) => Err(Error::Custom(why)),
            Reply::Signature(_) => Err(Error::MalformedResponse),
        }
    }
}

} // verus!

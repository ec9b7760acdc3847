//! Submission routes: what each one is sent, and what its answer means.

use vstd::prelude::*;
use vstd::string::*;
use crate::config::{RpcConfig, RpcType};
use crate::error::Error;
use crate::keys::{Blockhash, Signature};
use crate::message::VersionedTransaction;
use crate::meteora::SwapData;
use crate::sdk;
use crate::tx_senders::bloxroute::BloxrouteTxSender;
use crate::tx_senders::jito::JitoTxSender;
use crate::tx_senders::nextblock::NextblockTxSender;
use crate::tx_senders::solana_rpc::GenericRpc;
use crate::tx_senders::transaction::TransactionConfig;

pub mod bloxroute;
pub mod constants;
pub mod jito;
pub mod nextblock;
pub mod solana_rpc;
pub mod transaction;

verus! {

/// What a route hands back for an accepted transaction.
#[derive(Clone, Debug, PartialEq, Eq)]
pub enum TxResult {
    /// The signature of the transaction.
    Signature(Signature),
    /// The relay's own name for what it took.
    BundleID(String),
}

impl TxResult {
    /// The result as text: a signature in base58, a relay's identifier as it
    /// is.
    pub open spec fn text(self) -> Seq<char> {
        match self {
            TxResult::Signature(signature) => sdk::base58_text(signature@),
            TxResult::BundleID(bundle_id) => bundle_id@,
        }
    }
}

impl From<TxResult> for String {
    fn from(result: TxResult) -> (r: String)
        ensures
            r@ == result.text(),
    {
        match result {
            TxResult::Signature(signature) => sdk::signature_to_string(&signature),
            TxResult::BundleID(bundle_id) => bundle_id,
        }
    }
}

/// The conversion is specified by [`TxResult::text`], character by
/// character, and by no equation between texts.
impl vstd::std_specs::convert::FromSpecImpl<TxResult> for String {
    open spec fn obeys_from_spec() -> bool {
        false
    }

    open spec fn from_spec(result: TxResult) -> String {
        arbitrary()
    }
}

/// One header of an HTTP request.
#[derive(Clone, Debug, PartialEq, Eq)]
pub struct Header {
    pub name: String,
    pub value: String,
}

/// An HTTP POST: where it goes, its headers in order, and its body.
#[derive(Clone, Debug, PartialEq, Eq)]
pub struct HttpRequest {
    pub url: String,
    pub headers: Vec<Header>,
    pub body: String,
}

impl HttpRequest {
    /// The request goes to `url` with exactly these headers, given as names
    /// and values in order, and this body.
    pub open spec fn is(&self, url: Seq<char>, headers: Seq<(Seq<char>, Seq<char>)>, body: Seq<char>)
        -> bool {
        &&& self.url@ == url
        &&& self.headers@.len() == headers.len()
        &&& forall|i: int|
            0 <= i < headers.len() ==> (#[trigger] self.headers@[i]).name@ == headers[i].0
                && self.headers@[i].value@ == headers[i].1
        &&& self.body@ == body
    }
}

/// How a node is to encode a transaction that it is sent.
#[derive(Clone, Copy, Debug, PartialEq, Eq)]
pub enum UiTransactionEncoding {
    Base58,
    Base64,
}

/// The options of a node's call that submits a transaction.
#[derive(Clone, Copy, Debug, PartialEq, Eq)]
pub struct RpcSendTransactionConfig {
    pub skip_preflight: bool,
    pub encoding: Option<UiTransactionEncoding>,
    pub max_retries: Option<usize>,
    pub min_context_slot: Option<u64>,
}

/// What is to be sent to a route.
#[derive(Clone, Debug, PartialEq, Eq)]
pub enum Submission {
    /// A transaction for a node's submit call.
    Rpc { url: String, transaction: VersionedTransaction, config: RpcSendTransactionConfig },
    /// A request for a relay.
    Http(HttpRequest),
}

/// What came back from a route.
#[derive(Clone, Debug, PartialEq, Eq)]
pub enum Reply {
    /// A node took the transaction and names its signature.
    Signature(Signature),
    /// A relay answered with this status and body.
    Http { status: u16, body: String },
    /// Nothing came back; why.
    Failure(String),
}

/// The status of an answer that reports success.
pub open spec fn is_success(status: u16) -> bool {
    200 <= status < 300
}

pub const CONTENT_TYPE: &'static str = "Content-Type";

pub const APPLICATION_JSON: &'static str = "application/json";

pub const AUTHORIZATION: &'static str = "Authorization";

/// A route: it has a name, says what is to be sent for a pool, and reads
/// what came back.
pub trait TxSender {
    /// The route's configured name.
    spec fn named(&self) -> Seq<char>;

    /// `r` is what the route prepares for a pool against a block hash.
    spec fn prepares(
        &self,
        recent_blockhash: Blockhash,
        swap_data: SwapData,
        r: Result<Submission, Error>,
    ) -> bool;

    /// `r` is what the route makes of a reply.
    spec fn answers(&self, reply: Reply, r: Result<TxResult, Error>) -> bool;

    fn name(&self) -> (r: String)
        ensures
            r@ == self.named(),
    ;

    /// Builds and signs the route's own transaction for the pool and puts
    /// it in the form that the route takes. Nothing is sent.
    fn prepare(&self, index: u32, recent_blockhash: Blockhash, swap_data: SwapData) -> (r: Result<
        Submission,
        Error,
    >)
        ensures
            self.prepares(recent_blockhash, swap_data, r),
    ;

    /// Reads what came back from the route.
    fn complete(&self, reply: Reply) -> (r: Result<TxResult, Error>)
        ensures
            self.answers(reply, r),
    ;
}

/// Whether the status of an answer reports success.
pub fn status_is_success(status: u16) -> (r: bool)
    ensures
        r == is_success(status),
{
    200 <= status && status < 300
}

/// What a relay's answer means that names an identifier under `key`: the
/// failure that a status other than success is, the failure that a body
/// without the identifier is, or the identifier.
pub open spec fn identifier_answer(
    status: u16,
    body: Seq<char>,
    key: Seq<char>,
    r: Result<TxResult, Error>,
) -> bool {
    match r {
        Ok(TxResult::BundleID(id)) => is_success(status) && sdk::json_string_field(body, key)
            == Some(id@),
        Ok(TxResult::Signature(_)) => false,
        Err(Error::Rejected(sent)) => !is_success(status) && sent@ == body,
        Err(Error::MalformedResponse) => is_success(status) && sdk::json_string_field(body, key)
            is None,
        Err(_) => false,
    }
}

/// What a relay's answer means that names the transaction's signature
/// under `signature`: the failure that a status other than success is, the
/// failure that a body without a signature is, or the signature.
pub open spec fn signature_answer(status: u16, body: Seq<char>, r: Result<TxResult, Error>) -> bool {
    match r {
        Ok(TxResult::Signature(signature)) => {
            &&& is_success(status)
            &&& sdk::json_string_field(body, "signature"@) matches Some(text)
            &&& sdk::signature_of_text(text) == Some(signature)
        },
        Ok(TxResult::BundleID(_)) => false,
        Err(Error::Rejected(sent)) => !is_success(status) && sent@ == body,
        Err(Error::MalformedResponse) => {
            &&& is_success(status)
            &&& sdk::json_string_field(body, "signature"@) matches Some(text)
                ==> sdk::signature_of_text(text) is None
        },
        Err(_) => false,
    }
}

/// The signature that a relay names in base58, as a result.
pub fn signature_result(text: &str) -> (r: Result<TxResult, Error>)
    ensures
        match r {
            Ok(TxResult::Signature(signature)) => sdk::signature_of_text(text@) == Some(signature),
            Ok(TxResult::BundleID(_)) => false,
            Err(e) => e == Error::MalformedResponse && sdk::signature_of_text(text@) is None,
        },
{
    match sdk::parse_signature(text) {
        Some(signature) => Ok(TxResult::Signature(signature)),
        None => Err(Error::MalformedResponse),
    }
}

/// The headers of a request with a JSON body and, for the relays that ask
/// for one, a credential.
pub fn json_headers(auth: Option<&Option<String>>) -> (r: Vec<Header>)
    ensures
        match auth {
            None => r@.len() == 1,
            Some(credential) => r@.len() == 2 && r@[1].name@ == AUTHORIZATION@ && r@[1].value@
                == (match credential {
                Some(text) => text@,
                None => Seq::<char>::empty(),
            }),
        },
        r@[0].name@ == CONTENT_TYPE@,
        r@[0].value@ == APPLICATION_JSON@,
{
    let mut headers: Vec<Header> = Vec::new();
    headers.push(
        Header { name: String::from_str(CONTENT_TYPE), value: String::from_str(APPLICATION_JSON) },
    );
    match auth {
        Some(credential) => {
            let value = match credential {
                Some(text) => text.clone(),
                None => String::new(),
            };
            headers.push(Header { name: String::from_str(AUTHORIZATION), value });
        },
        None => {},
    }
    headers
}

/// A route of one of the four kinds.
pub enum Route {
    SolanaRpc(GenericRpc),
    Jito(JitoTxSender),
    Bloxroute(BloxrouteTxSender),
    Nextblock(NextblockTxSender),
}

impl TxSender for Route {
    open spec fn named(&self) -> Seq<char> {
        match self {
            Route::SolanaRpc(sender) => sender.named(),
            Route::Jito(sender) => sender.named(),
            Route::Bloxroute(sender) => sender.named(),
            Route::Nextblock(sender) => sender.named(),
        }
    }

    open spec fn prepares(
        &self,
        recent_blockhash: Blockhash,
        swap_data: SwapData,
        r: Result<Submission, Error>,
    ) -> bool {
        match self {
            Route::SolanaRpc(sender) => sender.prepares(recent_blockhash, swap_data, r),
            Route::Jito(sender) => sender.prepares(recent_blockhash, swap_data, r),
            Route::Bloxroute(sender) => sender.prepares(recent_blockhash, swap_data, r),
            Route::Nextblock(sender) => sender.prepares(recent_blockhash, swap_data, r),
        }
    }

    open spec fn answers(&self, reply: Reply, r: Result<TxResult, Error>) -> bool {
        match self {
            Route::SolanaRpc(sender) => sender.answers(reply, r),
            Route::Jito(sender) => sender.answers(reply, r),
            Route::Bloxroute(sender) => sender.answers(reply, r),
            Route::Nextblock(sender) => sender.answers(reply, r),
        }
    }

    fn name(&self) -> (r: String) {
        match self {
            Route::SolanaRpc(sender) => sender.name(),
            Route::Jito(sender) => sender.name(),
            Route::Bloxroute(sender) => sender.name(),
            Route::Nextblock(sender) => sender.name(),
        }
    }

    fn prepare(&self, index: u32, recent_blockhash: Blockhash, swap_data: SwapData) -> (r: Result<
        Submission,
        Error,
    >) {
        match self {
            Route::SolanaRpc(sender) => sender.prepare(index, recent_blockhash, swap_data),
            Route::Jito(sender) => sender.prepare(index, recent_blockhash, swap_data),
            Route::Bloxroute(sender) => sender.prepare(index, recent_blockhash, swap_data),
            Route::Nextblock(sender) => sender.prepare(index, recent_blockhash, swap_data),
        }
    }

    fn complete(&self, reply: Reply) -> (r: Result<TxResult, Error>) {
        match self {
            Route::SolanaRpc(sender) => sender.complete(reply),
            Route::Jito(sender) => sender.complete(reply),
            Route::Bloxroute(sender) => sender.complete(reply),
            Route::Nextblock(sender) => sender.complete(reply),
        }
    }
}

/// The route that a configuration describes: of the configured kind, under
/// the given name, reached at the configured address with the configured
/// credential, and building from `tx_config`.
pub open spec fn configured_route(
    route: Route,
    name: String,
    rpc_config: RpcConfig,
    tx_config: TransactionConfig,
) -> bool {
    match rpc_config.rpc_type {
        RpcType::SolanaRpc => route matches Route::SolanaRpc(sender) && sender.name == name
            && sender.url == rpc_config.url && sender.tx_config == tx_config && sender.rpc_type
            == RpcType::SolanaRpc,
        RpcType::Jito => route matches Route::Jito(sender) && sender.name == name && sender.url
            == rpc_config.url && sender.tx_config == tx_config,
        RpcType::Bloxroute => route matches Route::Bloxroute(sender) && sender.name == name
            && sender.url == rpc_config.url && sender.tx_config == tx_config && sender.auth
            == rpc_config.auth,
        RpcType::Nextblock => route matches Route::Nextblock(sender) && sender.name == name
            && sender.url == rpc_config.url && sender.tx_config == tx_config && sender.auth
            == rpc_config.auth,
    }
}

/// Makes the route that a configuration describes.
pub fn create_tx_sender(name: String, rpc_config: RpcConfig, tx_config: TransactionConfig) -> (r:
    Route)
    ensures
        configured_route(r, name, rpc_config, tx_config),
{
    match rpc_config.rpc_type {
        RpcType::SolanaRpc => Route::SolanaRpc(
            GenericRpc::new(name, rpc_config.url, tx_config, RpcType::SolanaRpc),
        ),
        RpcType::Jito => Route::Jito(JitoTxSender::new(name, rpc_config.url, tx_config)),
        RpcType::Bloxroute => Route::Bloxroute(
            BloxrouteTxSender::new(name, rpc_config.url, tx_config, rpc_config.auth),
        ),
        RpcType::Nextblock => Route::Nextblock(
            NextblockTxSender::new(name, rpc_config.url, tx_config, rpc_config.auth),
        ),
    }
}

} // verus!

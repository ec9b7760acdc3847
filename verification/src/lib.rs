//! The decode-and-race core of an agent that watches a ledger's transaction
//! feed for the creation of a liquidity pool and buys into the first one
//! through several submission routes at once.
//!
//! The library holds the decisions and leaves sending to its caller:
//!
//! - [`extract`] resolves the compiled instructions of a transaction into
//!   programs and accounts named by address;
//! - [`meteora`] and [`pumpfun`] recognise the creation of a pool or a token
//!   among resolved instructions, and answer each transaction of the feed
//!   through a one-shot [`latch`];
//! - [`tx_senders`] builds and signs each route's own buy transaction, puts
//!   it in the form that the route takes, and reads what the route answers;
//! - [`bench`] hands one pool to every route and keeps the outcomes.
//!
//! What is taken from the ledger's own library and from the codec crates is
//! gathered in [`sdk`], where nothing is proved; everything else is proved
//! from what that module states.

pub mod bench;
pub mod config;
pub mod error;
pub mod extract;
pub mod instruction;
pub mod keys;
pub mod latch;
pub mod layout;
pub mod message;
pub mod meteora;
pub mod pumpfun;
pub mod sdk;
pub mod tx_senders;

pub use crate::tx_senders::constants::{METEORA_PROGRAM_ID, PUMPFUN_PROGRAM_ID, WSOL_ACCOUNT_ID};

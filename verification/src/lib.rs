//! Client-side core for talking to a Cardano node over its local protocol:
//! chain-sync turn taking, decoding of era-tagged blocks into a stable
//! model, and rendering of address bytes as text.
//!
//! The library decides and computes; it moves no bytes. A caller owns the
//! transport, asks a [`NodeClientWrapper`] what to do next, does it, and
//! hands back what came of it.
//!
//! - [`session`]: the state of one session and its operations.
//! - [`chainsync`]: the states of the chain-sync exchange, and what a reply
//!   becomes for the caller.
//! - [`point`]: positions on the chain.
//! - [`model`]: blocks, transactions, inputs and outputs.
//! - [`value`], [`bytemap`]: what an output holds.
//! - [`raw`], [`reading`]: a decoded block as plain values.
//! - [`ledger`]: the calls into the `pallas` ledger crates, taken on trust.
//! - [`address`]: address bytes as text.
//! - [`network`]: the known network magics.

pub mod address;
pub mod bytemap;
pub mod chainsync;
pub mod ledger;
pub mod model;
pub mod network;
pub mod point;
pub mod raw;
pub mod reading;
pub mod session;
pub mod value;

pub use address::AddressError;
pub use chainsync::{ChainSyncReply, ChainSyncState, NextResponse, ResponseError, Tip};
pub use model::{Block, DecodeError, TransactionBody, TransactionInput, TransactionOutput};
pub use network::NetworkMagic;
pub use point::{ChainPoint, Point};
pub use raw::Datum;
pub use session::{ChainSyncAction, NodeClientWrapper, SessionError};
pub use value::{AssetName, Coin, PolicyId, Value};

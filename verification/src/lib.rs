//! Block synchronisation core of a layer-2 rollup node.
//!
//! The node keeps a chain store and a mempool consistent with the canonical
//! chain, which it observes through the settlement layer and through a faster
//! peer-to-peer stream. This crate holds the decisions of that client as pure
//! state machines, the wire encoding of the handshake, and an in-memory model
//! of the store and the mempool against which the machines are proved.
//!
//! - [`block_sync_client`]: the orchestrator, from event to action.
//! - [`applier`]: the application of one stream message, from event to action.
//! - [`io`]: the actions and the events.
//! - [`message`], [`hash`], [`wire`], [`le`], [`buffer`]: the values exchanged
//!   with a peer and their encoding.
//! - [`stream_source`]: the slot in which a new stream waits.
//! - [`store`], [`mem_pool`], [`node`]: the in-memory node, and what a message
//!   does to it.
//! - [`drive`], [`runs`]: the client run against the node, and over whole runs of
//!   events.
//! - [`typed_transaction`], [`fee`], [`cell_collector`]: what a layer-2
//!   transaction costs its sender, and the fee of a settlement-layer transaction.

pub mod applier;
pub mod block_sync_client;
pub mod buffer;
pub mod cell_collector;
pub mod drive;
pub mod fee;
pub mod hash;
pub mod io;
pub mod le;
pub mod mem_pool;
pub mod message;
pub mod node;
pub mod runs;
pub mod store;
pub mod stream_source;
pub mod typed_transaction;
pub mod wire;

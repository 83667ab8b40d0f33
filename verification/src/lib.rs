//! Protocol core of a cross-chain communication stack.
//!
//! Independent ledgers establish authenticated channels and exchange packets, each
//! checking the other's state through proofs. This crate is the deterministic engine in
//! the middle: it takes one message at a time, computes what the message comes to from
//! the store and the verdicts of a proof verifier, lets the application module bound to
//! the port have its say, and commits the result, all or nothing.
//!
//! * [`router`] holds the dispatcher, [`envelope`] the ingress format, [`wire`] the
//!   messages as they arrive and how they are read.
//! * [`client`], [`connection`], [`channel`] and [`packet`] are the four state machines.
//!   Each gives the outcome of a message as a function of the store, and a handler that
//!   computes it.
//! * [`store`] keeps the records; [`evidence`] states what a proof has to show.
//! * [`module`] is the callback protocol with the registry of port bindings; [`fee`] is
//!   a decorator over a module, [`transfer`] the payload it reads, [`bank`] the
//!   bookkeeping it needs, [`transfer_module`] a small module to put under it.
//! * [`extrinsic`] reads the frame of a ledger transaction; [`text`] reads and writes the
//!   numbers in identifiers and amounts.
//! * [`laws`] states what holds whatever the inputs.

pub mod bank;
pub mod channel;
pub mod client;
pub mod connection;
pub mod envelope;
pub mod error;
pub mod evidence;
pub mod extrinsic;
pub mod fee;
pub mod json;
pub mod laws;
pub mod module;
pub mod output;
pub mod packet;
pub mod router;
pub mod store;
pub mod text;
pub mod transfer;
pub mod transfer_module;
pub mod types;
pub mod wire;

//! A transport-agnostic reverse tunnel engine.
//!
//! The library accepts inbound byte-stream connections on a configured
//! listen endpoint and relays each one, unmodified, to a configured
//! forward endpoint, choosing among a direct dial, a SOCKS5-proxied dial,
//! or a dial through an embedded anonymity-routing client.
//!
//! Everything that touches the network lives outside this crate: the
//! library holds the endpoint model, the transport-selection rule, the
//! per-direction copy state machines with their byte-fidelity proofs,
//! the accept-loop bookkeeping, and the fatal-condition classifier.

pub mod error;

pub mod config;

pub mod relay;

pub mod proxy;

pub mod acceptor;

pub mod classify;

pub mod logger;

pub mod tor;

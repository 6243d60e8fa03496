//! A caching proxy for a JSON-RPC node, and an adapter for the health report
//! of a dshackle instance, as a library of decisions.
//!
//! The proxy answers calls of `eth_blockNumber` from a cache that it
//! refreshes on a chance, and hands every other request on to the node
//! unchanged. The library reads and writes the protocol and decides what is
//! to be done; sending and receiving is left to the program around it.

pub mod chance;
pub mod health;
pub mod json;
pub mod pattern;
pub mod proxy;
pub mod radix;
pub mod rpc;
pub mod upstream;

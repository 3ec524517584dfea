//! Building blocks of a peer-to-peer storage and compute node: the peer
//! registry, the wire messages and their dispatch, the checksummed shard
//! store, redundant distribution and retrieval, and the services that sit
//! around them.
pub mod blockchain;
pub mod cli;
pub mod clock;
pub mod compute;
pub mod contracts;
pub mod digest;
pub mod distribution;
pub mod ident;
pub mod monitoring;
pub mod network;
pub mod node_identity;
pub mod node_profiler;
pub mod p2p_node;
pub mod p2p_proxy;
pub mod random;
pub mod registry;
pub mod simulator;
pub mod storage;
pub mod text;

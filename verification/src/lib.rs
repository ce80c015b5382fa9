//! A stake-gated registry of network nodes.
//!
//! An authority escrows a fixed token stake to publish a node record, may
//! replace the record's URI, and gets the stake back when the record is
//! removed. The registry keeps three things in step: the set of records, the
//! counter of active nodes, and the balance held in escrow.

pub mod error;
pub mod identity;
pub mod laws;
pub mod node;
pub mod operations;
pub mod registry;
pub mod stats;
pub mod token;
pub mod vault;

pub use error::{AethernetError, TransferError};
pub use identity::Identity;
pub use node::{check_uri, NodeDevice, MAX_URI_LENGTH};
pub use operations::{
    deregister_node, initialize_network, register_node, update_uri, DeregisterNode,
    InitializeNetwork, RegisterNode, UpdateUri,
};
pub use registry::{Ledger, Registry, Setup};
pub use stats::NetworkStats;
pub use token::{stake_amount, transfer, Mint, TokenAccount, MAX_DECIMALS};
pub use vault::StakeVault;

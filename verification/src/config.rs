//! Service configuration records.
//!
//! These are plain settings; reading them from disk and watching the
//! process environment is the embedding application's concern.

use vstd::prelude::*;

verus! {

/// Bitcoin Core RPC endpoint settings.
pub struct BitcoinConfig {
    pub rpc_host: String,
    pub rpc_port: u16,
    pub rpc_user: String,
    pub rpc_password: String,
}

/// Lightning node listener settings.
pub struct LdkConfig {
    pub listen_host: String,
    pub listen_port: u16,
}

/// Management endpoint settings.
pub struct GrpcConfig {
    pub host: String,
    pub port: u16,
}

/// Quote service settings: listener, accepted size range, fee schedule,
/// settlement callback URL and the accepted mints.
pub struct LspConfig {
    pub listen_host: String,
    pub listen_port: u16,
    pub min_channel_size_sat: u64,
    pub max_channel_size_sat: u64,
    pub min_fee: u64,
    pub fee_ppk: u64,
    pub payment_url: String,
    pub accepted_mints: Vec<String>,
}

/// The whole service configuration.
pub struct AppConfig {
    pub bitcoin: BitcoinConfig,
    pub ldk: LdkConfig,
    pub grpc: GrpcConfig,
    pub lsp: LspConfig,
}

/// Bitcoin Core RPC connection parameters for the chain source.
pub struct BitcoinRpcConfig {
    pub host: String,
    pub port: u16,
    pub user: String,
    pub password: String,
}

/// Where the Lightning node reads the chain from.
pub enum ChainSource {
    Esplora(String),
    BitcoinRpc(BitcoinRpcConfig),
}

/// Where the Lightning node learns the network graph from.
pub enum GossipSource {
    P2P,
    RapidGossipSync(String),
}

} // verus!

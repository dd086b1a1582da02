//! Settings and records of distributed storage.

use std::path::PathBuf;
use vstd::prelude::*;

verus! {

/// IPFS configuration for decentralized storage
#[derive(Debug, Clone, PartialEq)]
pub struct IpfsConfig {
    pub gateway_url: String,
    pub api_url: String,
    pub pin_remote: bool,
    pub local_node: bool,
}

impl Default for IpfsConfig {
    fn default() -> (config: Self)
        ensures
            config.gateway_url@ == "https://ipfs.io/ipfs/"@,
            config.api_url@ == "http://localhost:5001"@,
            config.pin_remote,
            !config.local_node,
    {
        IpfsConfig {
            gateway_url: "https://ipfs.io/ipfs/".to_owned(),
            api_url: "http://localhost:5001".to_owned(),
            pin_remote: true,
            local_node: false,
        }
    }
}

/// P2P network configuration
#[derive(Debug, Clone, PartialEq)]
pub struct P2pConfig {
    pub enable_discovery: bool,
    pub bootstrap_nodes: Vec<String>,
    pub listen_port: u16,
}

impl Default for P2pConfig {
    fn default() -> (config: Self)
        ensures
            config.enable_discovery,
            config.bootstrap_nodes@.len() == 0,
            config.listen_port == 4001,
    {
        P2pConfig { enable_discovery: true, bootstrap_nodes: Vec::new(), listen_port: 4001 }
    }
}

/// Distributed storage metadata
#[derive(Debug, Clone)]
pub struct DistributedFile {
    pub ipfs_hash: String,
    pub file_size: u64,
    pub mime_type: String,
    pub local_path: Option<PathBuf>,
    pub pinned: bool,
    /// The nodes that have this file.
    pub replicas: Vec<String>,
}

/// Combined distributed configuration
#[derive(Debug, Clone, PartialEq)]
pub struct DistributedConfig {
    pub ipfs: IpfsConfig,
    pub p2p: P2pConfig,
    /// Use both local and distributed storage.
    pub enable_hybrid_storage: bool,
}

impl Default for DistributedConfig {
    fn default() -> (config: Self)
        ensures
            config.ipfs.gateway_url@ == "https://ipfs.io/ipfs/"@,
            config.ipfs.api_url@ == "http://localhost:5001"@,
            config.ipfs.pin_remote,
            !config.ipfs.local_node,
            config.p2p.enable_discovery,
            config.p2p.bootstrap_nodes@.len() == 0,
            config.p2p.listen_port == 4001,
            config.enable_hybrid_storage,
    {
        DistributedConfig {
            ipfs: IpfsConfig::default(),
            p2p: P2pConfig::default(),
            enable_hybrid_storage: true,
        }
    }
}

} // verus!

//! Version NFTs on chain: their metadata, who owns them, and where the chain is reached.

use vstd::prelude::*;

verus! {

/// Version NFT metadata following ERC-721 standard
#[derive(Debug, Clone)]
pub struct VersionNft {
    pub token_id: u64,
    pub name: String,
    pub description: String,
    pub image: String,
    pub attributes: Vec<NftAttribute>,
    pub version_type: VersionType,
    /// IPFS hash of the audio.
    pub audio_hash: String,
}

#[derive(Debug, Clone)]
pub struct NftAttribute {
    pub trait_type: String,
    pub value: String,
}

#[derive(Debug, Clone)]
pub enum VersionType {
    Demo,
    Remix,
    Live,
    Alternative,
    Remaster,
}

/// Blockchain configuration for Arbitrum and IPFS integration
#[derive(Debug, Clone, PartialEq)]
pub struct OnchainConfig {
    pub arbitrum_rpc_url: String,
    pub contract_address: String,
    pub ipfs_gateway: String,
}

impl Default for OnchainConfig {
    fn default() -> (config: Self)
        ensures
            config.arbitrum_rpc_url@ == "https://arb1.arbitrum.io/rpc"@,
            config.contract_address@ == Seq::<char>::empty(),
            config.ipfs_gateway@ == "https://ipfs.io/ipfs/"@,
    {
        OnchainConfig {
            arbitrum_rpc_url: "https://arb1.arbitrum.io/rpc".to_owned(),
            contract_address: String::new(),
            ipfs_gateway: "https://ipfs.io/ipfs/".to_owned(),
        }
    }
}

/// Version ownership and metadata
#[derive(Debug, Clone)]
pub struct VersionOwnership {
    pub nft_data: Option<VersionNft>,
    pub owner_address: Option<String>,
    pub is_verified: bool,
}

impl Default for VersionOwnership {
    fn default() -> (ownership: Self)
        ensures
            ownership.nft_data is None,
            ownership.owner_address is None,
            !ownership.is_verified,
    {
        VersionOwnership { nft_data: None, owner_address: None, is_verified: false }
    }
}

} // verus!

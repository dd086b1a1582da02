//! Who owns which version: what is known of each track, and where its files are reached.

use crate::cache::Cache;
use crate::onchain::{OnchainConfig, VersionNft, VersionOwnership};
use vstd::prelude::*;
use vstd::string::StringExecFns;

verus! {

/// What minting a version NFT returns while nothing is minted yet.
pub const PLACEHOLDER_TX_HASH: &'static str = "placeholder_tx_hash";

/// Onchain service for Arbitrum integration and IPFS storage
pub struct OnchainService {
    config: OnchainConfig,
    ownership_cache: Cache<VersionOwnership>,
}

/// Whether `ownership` says that nothing is known of a track.
pub open spec fn is_unknown(ownership: VersionOwnership) -> bool {
    &&& ownership.nft_data is None
    &&& ownership.owner_address is None
    &&& !ownership.is_verified
}

impl OnchainService {
    /// The records are sound.
    pub closed spec fn well_formed(&self) -> bool {
        self.ownership_cache.well_formed()
    }

    /// The settings of the service.
    pub closed spec fn config(&self) -> OnchainConfig {
        self.config
    }

    /// What is recorded of each track, by the track's path.
    pub closed spec fn ownerships(&self) -> Map<Seq<char>, VersionOwnership> {
        self.ownership_cache@
    }

    pub fn new(config: OnchainConfig) -> (service: Self)
        ensures
            service.well_formed(),
            service.config() == config,
            service.ownerships() == Map::<Seq<char>, VersionOwnership>::empty(),
    {
        OnchainService { config, ownership_cache: Cache::new() }
    }

    /// What is known of the ownership of the track at `track_path`: a copy
    /// of the record, if there is one; else that nothing is known, which is
    /// then recorded.
    pub fn get_version_ownership(&mut self, track_path: &str) -> (ownership: VersionOwnership)
        requires
            old(self).well_formed(),
        ensures
            final(self).well_formed(),
            final(self).config() == old(self).config(),
            old(self).ownerships().contains_key(track_path@) ==> {
                &&& final(self).ownerships() == old(self).ownerships()
                &&& cloned(old(self).ownerships()[track_path@], ownership)
            },
            !old(self).ownerships().contains_key(track_path@) ==> {
                &&& is_unknown(ownership)
                &&& final(self).ownerships().dom() == old(self).ownerships().dom().insert(
                    track_path@,
                )
                &&& is_unknown(final(self).ownerships()[track_path@])
                &&& forall|other: Seq<char>|
                    old(self).ownerships().contains_key(other) ==> final(self).ownerships()[other]
                        == old(self).ownerships()[other]
            },
    {
        match self.ownership_cache.get(track_path) {
            Some(ownership) => {
                return ownership.clone();
            },
            None => {},
        }
        self.ownership_cache.insert(track_path.to_owned(), VersionOwnership::default());
        assert(self.ownerships().dom() =~= old(self).ownerships().dom().insert(track_path@));
        VersionOwnership::default()
    }

    /// Mints a version NFT. Nothing is minted yet: the transaction hash is a placeholder.
    pub fn mint_version_nft(&self, metadata: VersionNft) -> (tx_hash: String)
        ensures
            tx_hash@ == PLACEHOLDER_TX_HASH@,
    {
        PLACEHOLDER_TX_HASH.to_owned()
    }

    /// The address of the file under `hash` at the configured IPFS gateway.
    pub fn get_ipfs_url(&self, hash: &str) -> (url: String)
        ensures
            url@ == self.config().ipfs_gateway@ + hash@,
    {
        let mut url = self.config.ipfs_gateway.clone();
        url.append(hash);
        url
    }
}

impl Default for OnchainService {
    fn default() -> (service: Self)
        ensures
            service.well_formed(),
            service.ownerships() == Map::<Seq<char>, VersionOwnership>::empty(),
            service.config().ipfs_gateway@ == "https://ipfs.io/ipfs/"@,
    {
        OnchainService::new(OnchainConfig::default())
    }
}

} // verus!

//! Distributed storage: which files have been handed to IPFS, and where they are reached.

use crate::cache::Cache;
use crate::distributed::{DistributedConfig, DistributedFile};
use crate::paths::path_from;
use crate::text::lower_hex;
use vstd::prelude::*;
use vstd::string::StringExecFns;

verus! {

/// The MIME type under which every uploaded file is recorded.
pub const UPLOAD_MIME_TYPE: &'static str = "audio/mpeg";

/// The one node that holds an uploaded file.
pub const LOCAL_REPLICA: &'static str = "local";

/// Distributed storage service for IPFS and P2P features
pub struct DistributedService {
    config: DistributedConfig,
    file_cache: Cache<DistributedFile>,
}

/// The hash under which a file is recorded whose path takes `path_len` bytes:
/// `Qm` and the length in hexadecimal.
pub open spec fn placeholder_hash(path_len: nat) -> Seq<char> {
    "Qm"@ + crate::text::numeral(path_len, 16)
}

impl DistributedService {
    /// The records are sound.
    pub closed spec fn well_formed(&self) -> bool {
        self.file_cache.well_formed()
    }

    /// The settings of the service.
    pub closed spec fn config(&self) -> DistributedConfig {
        self.config
    }

    /// The recorded files by their hash.
    pub closed spec fn files(&self) -> Map<Seq<char>, DistributedFile> {
        self.file_cache@
    }

    pub fn new(config: DistributedConfig) -> (service: Self)
        ensures
            service.well_formed(),
            service.config() == config,
            service.files() == Map::<Seq<char>, DistributedFile>::empty(),
    {
        DistributedService { config, file_cache: Cache::new() }
    }

    /// Records the file at `file_path` as uploaded and pinned, under a hash
    /// that stands in for the real one, and returns that hash.
    pub fn upload_to_ipfs(&mut self, file_path: &str) -> (hash: String)
        requires
            old(self).well_formed(),
        ensures
            final(self).well_formed(),
            final(self).config() == old(self).config(),
            hash@ == placeholder_hash(file_path.len() as nat),
            final(self).files().dom() == old(self).files().dom().insert(hash@),
            forall|other: Seq<char>|
                other != hash@ && old(self).files().contains_key(other) ==> final(self).files()[other]
                    == old(self).files()[other],
            ({
                let file = final(self).files()[hash@];
                &&& file.ipfs_hash@ == hash@
                &&& file.file_size == 0
                &&& file.mime_type@ == UPLOAD_MIME_TYPE@
                &&& file.local_path is Some
                &&& file.pinned
                &&& file.replicas.deep_view() == seq![LOCAL_REPLICA@]
            }),
    {
        let mut hash = "Qm".to_owned();
        hash.append(lower_hex(file_path.len() as u128).as_str());
        let mut replicas: Vec<String> = Vec::new();
        replicas.push(LOCAL_REPLICA.to_owned());
        assert(replicas.deep_view() =~= seq![LOCAL_REPLICA@]);
        let file = DistributedFile {
            ipfs_hash: hash.clone(),
            file_size: 0,
            mime_type: UPLOAD_MIME_TYPE.to_owned(),
            local_path: Some(path_from(file_path)),
            pinned: true,
            replicas,
        };
        self.file_cache.insert(hash.clone(), file);
        assert(self.files().dom() =~= old(self).files().dom().insert(hash@));
        hash
    }

    /// The content of the file under `hash`. Nothing is fetched yet: the
    /// content is always empty.
    pub fn download_from_ipfs(&self, hash: &str) -> (content: Vec<u8>)
        ensures
            content@.len() == 0,
    {
        Vec::new()
    }

    /// The record of the file under `hash`, if there is one.
    pub fn get_file_metadata(&self, hash: &str) -> (file: Option<&DistributedFile>)
        requires
            self.well_formed(),
        ensures
            match file {
                Some(file) => self.files().contains_key(hash@) && *file == self.files()[hash@],
                None => !self.files().contains_key(hash@),
            },
    {
        self.file_cache.get(hash)
    }

    /// Marks the file under `hash` as pinned, if it is recorded.
    pub fn pin_file(&mut self, hash: &str)
        requires
            old(self).well_formed(),
        ensures
            final(self).well_formed(),
            final(self).config() == old(self).config(),
            final(self).files().dom() == old(self).files().dom(),
            forall|other: Seq<char>|
                other != hash@ && old(self).files().contains_key(other) ==> final(self).files()[other]
                    == old(self).files()[other],
            old(self).files().contains_key(hash@) ==> final(self).files()[hash@] == (DistributedFile {
                pinned: true,
                ..old(self).files()[hash@]
            }),
    {
        match self.file_cache.remove(hash) {
            Some(file) => {
                let mut file = file;
                file.pinned = true;
                self.file_cache.insert(hash.to_owned(), file);
                assert(self.files().dom() =~= old(self).files().dom());
            },
            None => {
                assert(self.files() =~= old(self).files());
            },
        }
    }

    /// The address of the file under `hash` at the configured gateway.
    pub fn get_gateway_url(&self, hash: &str) -> (url: String)
        ensures
            url@ == self.config().ipfs.gateway_url@ + hash@,
    {
        let mut url = self.config.ipfs.gateway_url.clone();
        url.append(hash);
        url
    }

    /// Whether both local and distributed storage are in use.
    pub fn is_hybrid_storage_enabled(&self) -> (enabled: bool)
        ensures
            enabled == self.config().enable_hybrid_storage,
    {
        self.config.enable_hybrid_storage
    }
}

impl Default for DistributedService {
    fn default() -> (service: Self)
        ensures
            service.well_formed(),
            service.files() == Map::<Seq<char>, DistributedFile>::empty(),
            service.config().enable_hybrid_storage,
            service.config().ipfs.gateway_url@ == "https://ipfs.io/ipfs/"@,
    {
        DistributedService::new(DistributedConfig::default())
    }
}

} // verus!

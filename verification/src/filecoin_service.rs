//! Storage and payments on Filecoin. Uploads and payments are not wired up
//! yet: they are refused, each in its own words.

use crate::cache::Cache;
use crate::text::same_text;
use vstd::prelude::*;
use vstd::string::StringExecFns;

verus! {

/// Where a stored version lives on Filecoin.
#[derive(Debug, Clone)]
pub struct FilecoinStorageInfo {
    pub piece_cid: String,
    pub deal_id: Option<u64>,
    pub storage_provider: String,
    pub cdn_url: String,
    pub storage_cost: Option<String>,
    pub retrieval_cost: Option<String>,
}

/// A version to be stored.
#[derive(Debug)]
pub struct FilecoinUploadRequest {
    pub file_id: String,
    pub content: Vec<u8>,
    pub metadata: FilecoinMetadata,
}

/// What is stored along with a version.
#[derive(Debug)]
pub struct FilecoinMetadata {
    pub title: String,
    pub artist: String,
    pub version_type: String,
    pub duration_seconds: Option<u64>,
    pub file_size: u64,
    pub format: String,
}

/// A payment rail between a fan and a creator.
#[derive(Debug)]
pub struct PaymentRail {
    pub rail_id: String,
    pub from_address: String,
    pub to_address: String,
    pub token_address: String,
    /// Wei per epoch.
    pub payment_rate: String,
    /// Epochs.
    pub lockup_period: u64,
}

/// The state and the prices of the network.
#[derive(Debug)]
pub struct NetworkStatus {
    pub network: String,
    pub storage_cost_per_gb: String,
    pub retrieval_cost_per_gb: String,
    pub average_deal_time: String,
    pub active_storage_providers: u32,
    pub total_network_capacity: String,
}

/// What the service cannot do yet.
#[derive(Debug, PartialEq, Eq, Clone, Copy, Structural)]
pub enum FilecoinError {
    /// Uploads need the Synapse SDK.
    UploadUnavailable,
    /// Payment rails need the Filecoin Pay contract.
    PaymentRailUnavailable,
    /// Payments to creators need the Filecoin Pay contract.
    PaymentUnavailable,
}

impl FilecoinError {
    /// The refusal in words, as a sequence of characters.
    pub open spec fn message(self) -> Seq<char> {
        match self {
            FilecoinError::UploadUnavailable => "Filecoin upload requires Synapse SDK integration. Please use the web interface with wallet connection for real Filecoin uploads."@,
            FilecoinError::PaymentRailUnavailable => "Payment rail creation requires Filecoin Pay smart contract integration. Please use the web interface with wallet connection for real payments."@,
            FilecoinError::PaymentUnavailable => "Creator payments require Filecoin Pay smart contract integration. Please use the web interface with wallet connection for real payments."@,
        }
    }

    /// The refusal in words.
    pub fn to_string(&self) -> (text: String)
        ensures
            text@ == self.message(),
    {
        match self {
            FilecoinError::UploadUnavailable => "Filecoin upload requires Synapse SDK integration. Please use the web interface with wallet connection for real Filecoin uploads.".to_owned(),
            FilecoinError::PaymentRailUnavailable => "Payment rail creation requires Filecoin Pay smart contract integration. Please use the web interface with wallet connection for real payments.".to_owned(),
            FilecoinError::PaymentUnavailable => "Creator payments require Filecoin Pay smart contract integration. Please use the web interface with wallet connection for real payments.".to_owned(),
        }
    }
}

/// The network that a service uses by default: the test network.
pub const DEFAULT_NETWORK: &'static str = "calibration";

/// Where the storage interface of `network` is reached: the main network
/// under its own address, every other network under that of the test network.
pub open spec fn synapse_endpoint_of(network: Seq<char>) -> Seq<char> {
    if network == "mainnet"@ {
        "https://api.synapse.filecoin.io"@
    } else {
        "https://api-calibration.synapse.filecoin.io"@
    }
}

/// The address from which the content delivery network serves the piece `piece_cid`.
pub open spec fn cdn_url_of(piece_cid: Seq<char>) -> Seq<char> {
    "https://cdn.filecoin.io/"@ + piece_cid
}

/// The address from which the storage interface at `endpoint` hands out the piece `piece_cid`.
pub open spec fn retrieve_url_of(endpoint: Seq<char>, piece_cid: Seq<char>) -> Seq<char> {
    endpoint + "/retrieve/"@ + piece_cid
}

/// Filecoin service for one network, with what it knows of stored versions.
#[derive(Debug, Clone)]
pub struct FilecoinService {
    synapse_endpoint: String,
    network: String,
    storage_cache: Cache<FilecoinStorageInfo>,
}

impl FilecoinService {
    /// The records are sound.
    pub closed spec fn well_formed(&self) -> bool {
        self.storage_cache.well_formed()
    }

    /// The network that the service uses.
    pub closed spec fn network(&self) -> Seq<char> {
        self.network@
    }

    /// Where the storage interface is reached.
    pub closed spec fn synapse_endpoint(&self) -> Seq<char> {
        self.synapse_endpoint@
    }

    /// What is known of stored versions, by file id.
    pub closed spec fn stored(&self) -> Map<Seq<char>, FilecoinStorageInfo> {
        self.storage_cache@
    }

    pub fn new(network: &str) -> (service: Self)
        ensures
            service.well_formed(),
            service.network() == network@,
            service.synapse_endpoint() == synapse_endpoint_of(network@),
            service.stored() == Map::<Seq<char>, FilecoinStorageInfo>::empty(),
    {
        let synapse_endpoint = if same_text(network, "mainnet") {
            "https://api.synapse.filecoin.io".to_owned()
        } else {
            "https://api-calibration.synapse.filecoin.io".to_owned()
        };
        FilecoinService {
            synapse_endpoint,
            network: network.to_owned(),
            storage_cache: Cache::new(),
        }
    }

    /// Stores a version. Always refused.
    pub fn upload_version(&mut self, request: FilecoinUploadRequest) -> (info: Result<
        FilecoinStorageInfo,
        FilecoinError,
    >)
        ensures
            info == Err::<FilecoinStorageInfo, FilecoinError>(FilecoinError::UploadUnavailable),
            *final(self) == *old(self),
    {
        Err(FilecoinError::UploadUnavailable)
    }

    /// The addresses from which the piece `piece_cid` is fetched: first that
    /// of the content delivery network, then, should that fail, that of the
    /// storage interface.
    pub fn stream_version(&self, piece_cid: &str) -> (urls: (String, String))
        ensures
            urls.0@ == cdn_url_of(piece_cid@),
            urls.1@ == retrieve_url_of(self.synapse_endpoint(), piece_cid@),
    {
        let mut cdn_url = "https://cdn.filecoin.io/".to_owned();
        cdn_url.append(piece_cid);
        let mut filecoin_url = self.synapse_endpoint.clone();
        filecoin_url.append("/retrieve/");
        filecoin_url.append(piece_cid);
        (cdn_url, filecoin_url)
    }

    /// Opens a payment rail from a fan to a creator. Always refused.
    pub fn create_payment_rail(&self, creator_address: &str, fan_address: &str) -> (rail: Result<
        PaymentRail,
        FilecoinError,
    >)
        ensures
            rail == Err::<PaymentRail, FilecoinError>(FilecoinError::PaymentRailUnavailable),
    {
        Err(FilecoinError::PaymentRailUnavailable)
    }

    /// Pays a creator. Always refused.
    pub fn pay_creator(&self, creator_address: &str, fan_address: &str) -> (tx_hash: Result<
        String,
        FilecoinError,
    >)
        ensures
            tx_hash == Err::<String, FilecoinError>(FilecoinError::PaymentUnavailable),
    {
        Err(FilecoinError::PaymentUnavailable)
    }

    /// A copy of what is known of the stored version `file_id`, if anything is.
    pub fn get_storage_info(&self, file_id: &str) -> (info: Option<FilecoinStorageInfo>)
        requires
            self.well_formed(),
        ensures
            match info {
                Some(info) => self.stored().contains_key(file_id@) && cloned(
                    self.stored()[file_id@],
                    info,
                ),
                None => !self.stored().contains_key(file_id@),
            },
    {
        match self.storage_cache.get(file_id) {
            Some(info) => Some(info.clone()),
            None => None,
        }
    }

    /// The state and the prices of the network. Nothing is measured yet: the
    /// figures are fixed.
    pub fn get_network_status(&self) -> (status: NetworkStatus)
        ensures
            status.network@ == self.network(),
            status.storage_cost_per_gb@ == "0.001 FIL"@,
            status.retrieval_cost_per_gb@ == "0.0001 FIL"@,
            status.average_deal_time@ == "24 hours"@,
            status.active_storage_providers == 2847,
            status.total_network_capacity@ == "18.5 EiB"@,
    {
        NetworkStatus {
            network: self.network.clone(),
            storage_cost_per_gb: "0.001 FIL".to_owned(),
            retrieval_cost_per_gb: "0.0001 FIL".to_owned(),
            average_deal_time: "24 hours".to_owned(),
            active_storage_providers: 2847,
            total_network_capacity: "18.5 EiB".to_owned(),
        }
    }
}

impl Default for FilecoinService {
    fn default() -> (service: Self)
        ensures
            service.well_formed(),
            service.network() == DEFAULT_NETWORK@,
            service.synapse_endpoint() == synapse_endpoint_of(DEFAULT_NETWORK@),
            service.stored() == Map::<Seq<char>, FilecoinStorageInfo>::empty(),
    {
        FilecoinService::new(DEFAULT_NETWORK)
    }
}

} // verus!

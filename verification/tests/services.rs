use termusiclib::cli::{Backend, ConfigBackend};
use termusiclib::distributed::{DistributedConfig, IpfsConfig, P2pConfig};
use termusiclib::distributed_service::DistributedService;
use termusiclib::farcaster_service::FarcasterService;
use termusiclib::filecoin_service::{
    FilecoinError, FilecoinMetadata, FilecoinService, FilecoinUploadRequest,
};
use termusiclib::onchain::{OnchainConfig, VersionNft, VersionType};
use termusiclib::onchain_service::OnchainService;
use termusiclib::web3::Web3Config;
use termusiclib::web3_service::Web3Service;

#[test]
fn default_settings() {
    let ipfs = IpfsConfig::default();
    assert_eq!(ipfs.gateway_url, "https://ipfs.io/ipfs/");
    assert_eq!(ipfs.api_url, "http://localhost:5001");
    assert!(ipfs.pin_remote);
    assert!(!ipfs.local_node);
    let p2p = P2pConfig::default();
    assert!(p2p.enable_discovery);
    assert!(p2p.bootstrap_nodes.is_empty());
    assert_eq!(p2p.listen_port, 4001);
    let all = DistributedConfig::default();
    assert_eq!(all.ipfs, ipfs);
    assert_eq!(all.p2p, p2p);
    assert!(all.enable_hybrid_storage);
    let onchain = OnchainConfig::default();
    assert_eq!(onchain.arbitrum_rpc_url, "https://arb1.arbitrum.io/rpc");
    assert_eq!(onchain.contract_address, "");
    assert_eq!(onchain.ipfs_gateway, "https://ipfs.io/ipfs/");
    let web3 = Web3Config::default();
    assert_eq!(web3.arbitrum_rpc_url, "https://arb1.arbitrum.io/rpc");
    assert_eq!(web3.contract_address, "");
    assert_eq!(web3.ipfs_gateway, "https://ipfs.io/ipfs/");
    let ownership = termusiclib::onchain::VersionOwnership::default();
    assert!(ownership.nft_data.is_none());
    assert!(ownership.owner_address.is_none());
    assert!(!ownership.is_verified);
    let ownership = termusiclib::web3::VersionOwnership::default();
    assert!(ownership.nft_data.is_none() && ownership.owner_address.is_none());
    assert!(!ownership.is_verified);
}

#[test]
fn uploads_are_recorded_under_a_placeholder_hash() {
    let mut service = DistributedService::default();
    let path = "/music/a-song-of-many-bytes.mp3";
    let hash = service.upload_to_ipfs(path);
    assert_eq!(hash, format!("Qm{:x}", path.len()));
    assert_eq!(hash, "Qm1f");
    let file = service.get_file_metadata(&hash).unwrap();
    assert_eq!(file.ipfs_hash, hash);
    assert_eq!(file.file_size, 0);
    assert_eq!(file.mime_type, "audio/mpeg");
    assert_eq!(file.local_path, Some(std::path::PathBuf::from(path)));
    assert!(file.pinned);
    assert_eq!(file.replicas, vec!["local".to_string()]);
    assert!(service.get_file_metadata("Qm0").is_none());
}

#[test]
fn pinning_keeps_the_record() {
    let mut service = DistributedService::default();
    let hash = service.upload_to_ipfs("x");
    service.pin_file(&hash);
    service.pin_file("unknown");
    let file = service.get_file_metadata(&hash).unwrap();
    assert!(file.pinned);
    assert_eq!(file.mime_type, "audio/mpeg");
    assert!(service.get_file_metadata("unknown").is_none());
}

#[test]
fn distributed_addresses_and_switches() {
    let service = DistributedService::default();
    assert_eq!(service.get_gateway_url("QmX"), "https://ipfs.io/ipfs/QmX");
    assert!(service.is_hybrid_storage_enabled());
    assert!(service.download_from_ipfs("QmX").is_empty());
    let mut config = DistributedConfig::default();
    config.enable_hybrid_storage = false;
    config.ipfs.gateway_url = "http://g/".to_string();
    let service = DistributedService::new(config);
    assert!(!service.is_hybrid_storage_enabled());
    assert_eq!(service.get_gateway_url(""), "http://g/");
}

fn nft() -> VersionNft {
    VersionNft {
        token_id: 1,
        name: "n".to_string(),
        description: "d".to_string(),
        image: "i".to_string(),
        attributes: vec![],
        version_type: VersionType::Demo,
        audio_hash: "h".to_string(),
    }
}

#[test]
fn ownership_is_unknown_until_recorded() {
    let mut service = OnchainService::default();
    let first = service.get_version_ownership("/a.mp3");
    assert!(first.nft_data.is_none());
    assert!(first.owner_address.is_none());
    assert!(!first.is_verified);
    let again = service.get_version_ownership("/a.mp3");
    assert!(again.nft_data.is_none() && !again.is_verified);
    assert_eq!(service.mint_version_nft(nft()), "placeholder_tx_hash");
    assert_eq!(service.get_ipfs_url("Qm"), "https://ipfs.io/ipfs/Qm");
}

#[test]
fn web3_service_answers_alike() {
    let mut service = Web3Service::new(Web3Config {
        arbitrum_rpc_url: String::new(),
        contract_address: String::new(),
        ipfs_gateway: "gw:".to_string(),
    });
    let ownership = service.get_version_ownership("t");
    assert!(ownership.nft_data.is_none() && ownership.owner_address.is_none());
    assert_eq!(service.get_ipfs_url("h"), "gw:h");
    let metadata = termusiclib::web3::VersionNft {
        token_id: 2,
        name: String::new(),
        description: String::new(),
        image: String::new(),
        attributes: vec![],
        version_type: termusiclib::web3::VersionType::Live,
        audio_hash: String::new(),
    };
    assert_eq!(service.mint_version_nft(metadata), "placeholder_tx_hash");
}

#[test]
fn farcaster_profiles_are_made_up_and_kept() {
    let mut service = FarcasterService::new();
    let user = service.get_user_profile(42);
    assert_eq!(user.fid, 42);
    assert_eq!(user.username, "user42");
    assert_eq!(user.display_name, Some("Farcaster User 42".to_string()));
    assert_eq!(user.bio, Some("Music lover on Farcaster".to_string()));
    assert_eq!(user.follower_count, 100);
    assert_eq!(user.following_count, 50);
    let again = service.get_user_profile(42);
    assert_eq!(again.username, "user42");
    assert_eq!(service.get_user_profile(0).username, "user0");
}

#[test]
fn farcaster_casts() {
    let service = FarcasterService::default();
    assert_eq!(service.get_social_graph(9), vec![1, 2, 3, 4, 5]);
    assert_eq!(service.cast_version_discovery("hello", "http://x"), "0xd");
    assert_eq!(service.cast_version_discovery("", ""), "0x0");
    let casts = service.get_version_discussions("v1");
    assert_eq!(casts.len(), 2);
    assert_eq!(casts[0].hash, "0x123");
    assert_eq!(casts[0].author_fid, 1);
    assert_eq!(casts[0].text, "Love this version of v1!");
    assert_eq!(casts[0].timestamp, "2024-01-01T00:00:00Z");
    assert_eq!((casts[0].replies_count, casts[0].reactions_count), (5, 20));
    assert_eq!(casts[1].hash, "0x456");
    assert_eq!(casts[1].author_fid, 2);
    assert_eq!(casts[1].text, "This v1 version hits different! 🔥");
    assert_eq!(casts[1].timestamp, "2024-01-02T00:00:00Z");
    assert_eq!((casts[1].replies_count, casts[1].reactions_count), (3, 15));
}

#[test]
fn filecoin_endpoints() {
    let main = FilecoinService::new("mainnet");
    assert_eq!(
        main.stream_version("cid"),
        (
            "https://cdn.filecoin.io/cid".to_string(),
            "https://api.synapse.filecoin.io/retrieve/cid".to_string()
        )
    );
    let test = FilecoinService::default();
    assert_eq!(
        test.stream_version("cid").1,
        "https://api-calibration.synapse.filecoin.io/retrieve/cid"
    );
    let other = FilecoinService::new("Mainnet");
    assert_eq!(
        other.stream_version("").1,
        "https://api-calibration.synapse.filecoin.io/retrieve/"
    );
}

#[test]
fn filecoin_refuses_uploads_and_payments() {
    let mut service = FilecoinService::default();
    let request = FilecoinUploadRequest {
        file_id: "f".to_string(),
        content: vec![1],
        metadata: FilecoinMetadata {
            title: "t".to_string(),
            artist: "a".to_string(),
            version_type: "Live".to_string(),
            duration_seconds: None,
            file_size: 1,
            format: "mp3".to_string(),
        },
    };
    assert_eq!(service.upload_version(request).unwrap_err(), FilecoinError::UploadUnavailable);
    assert_eq!(
        service.create_payment_rail("c", "f").unwrap_err(),
        FilecoinError::PaymentRailUnavailable
    );
    assert_eq!(service.pay_creator("c", "f"), Err(FilecoinError::PaymentUnavailable));
    assert!(service.get_storage_info("f").is_none());
    assert_eq!(
        FilecoinError::UploadUnavailable.to_string(),
        "Filecoin upload requires Synapse SDK integration. Please use the web interface with wallet connection for real Filecoin uploads."
    );
    assert_eq!(
        FilecoinError::PaymentRailUnavailable.to_string(),
        "Payment rail creation requires Filecoin Pay smart contract integration. Please use the web interface with wallet connection for real payments."
    );
    assert_eq!(
        FilecoinError::PaymentUnavailable.to_string(),
        "Creator payments require Filecoin Pay smart contract integration. Please use the web interface with wallet connection for real payments."
    );
}

#[test]
fn filecoin_network_status() {
    let status = FilecoinService::default().get_network_status();
    assert_eq!(status.network, "calibration");
    assert_eq!(status.storage_cost_per_gb, "0.001 FIL");
    assert_eq!(status.retrieval_cost_per_gb, "0.0001 FIL");
    assert_eq!(status.average_deal_time, "24 hours");
    assert_eq!(status.active_storage_providers, 2847);
    assert_eq!(status.total_network_capacity, "18.5 EiB");
}

#[test]
fn backends_by_name() {
    assert_eq!(Backend::Rusty.as_str(), "rusty");
    assert_eq!(Backend::Mpv.as_str(), "mpv");
    assert_eq!(Backend::GStreamer.as_str(), "gstreamer");
    assert_eq!(Backend::GStreamer.to_string(), "gstreamer");
    assert_eq!(ConfigBackend::from(Backend::GStreamer), ConfigBackend::Gstreamer);
    assert_eq!(ConfigBackend::from(Backend::Rusty), ConfigBackend::Rusty);
    assert_eq!(ConfigBackend::from(Backend::Mpv), ConfigBackend::Mpv);
    assert_eq!(ConfigBackend::Mpv.as_str(), "mpv");
}

pub mod audio_service;
pub mod cache;
pub mod cli;
pub mod config_editor;
pub mod distributed;
pub mod distributed_service;
pub mod farcaster_service;
pub mod filecoin_service;
pub mod ids;
pub mod msg;
pub mod onchain;
pub mod onchain_service;
pub mod paths;
pub mod rest_api;
pub mod songtag;
pub mod te_footer;
pub mod text;
pub mod web3;
pub mod web3_service;
pub mod xywh;
pub mod youtube;

pub mod asset;
pub mod create_asset;
pub mod identity;
pub mod init;

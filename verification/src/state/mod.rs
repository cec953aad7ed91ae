pub mod config;
pub mod pubkey;

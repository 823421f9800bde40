//! An allow-list check for token transfers: a transfer hook passes only when the
//! source account is mid-transfer and its owner is on the whitelist record.

pub mod address;
pub mod error;
pub mod state;
pub mod transfer_hook;
pub mod init_extra_account_meta;
pub mod initialize_whitelist;

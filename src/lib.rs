//! Configuration engine of a threshold-controlled shared account: the
//! membership, threshold, time-lock, authority and vault-index rules of the
//! account record, and the authority-gated global configuration record.
pub mod errors;
pub mod multisig_config;
pub mod program_config;
pub mod pubkey;
pub mod state;

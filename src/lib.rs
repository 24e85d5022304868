pub mod error;
pub mod farm;
pub mod farmer;
pub mod lemmas;
pub mod pubkey;
pub mod rates;
pub mod reward;
pub mod trackers;

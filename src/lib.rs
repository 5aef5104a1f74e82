//! Deployment and execution of small arithmetic programs run by a PolkaVM
//! engine, with per-owner single-generation code storage, plus a
//! rate-limited faucet.
pub mod address;
pub mod faucet;
pub mod pallet;
pub mod runner;
pub mod table;
pub mod weights;

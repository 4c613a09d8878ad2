pub mod auction;
pub mod contract;
pub mod error;
pub mod events;
pub mod hold_back;
pub mod laws;
pub mod marketplace_fee;
pub mod partial_payment;
pub mod types;
pub mod utils;

//! A Dutch auction engine: an asset token is sold for a payment token at a
//! price that decreases linearly from a starting value to a floor value over a
//! configured block-number interval, and stays at the floor afterwards.
//!
//! The engine is pure logic over plain values. Everything the host chain
//! supplies (the caller's identity, the current block number, the balance
//! reported by the asset token) comes in as an argument; everything the host
//! must do (collect a payment, disburse the asset, destroy the contract) goes
//! out as a value describing the action, and the host reports each outcome
//! back through a verified step function.

pub mod auction;
pub mod errors;
pub mod pricing;

pub use auction::AccountId;
pub use auction::AssetBought;
pub use auction::AssetDisbursal;
pub use auction::DutchAuction;
pub use auction::PaymentCollection;
pub use auction::Purchase;
pub use errors::Error;
pub use errors::TokenError;

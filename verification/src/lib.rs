//! Ordered, atomic provisioning of a fungible token mint with a transfer-fee
//! extension.
//!
//! The protocol composes three privileged leaf operations into one atomic
//! unit: raw account allocation, fee-extension configuration, and mint
//! initialization. The extension must be written while the mint-state region
//! is still uninitialized, so `Allocated -> ExtensionConfigured ->
//! Initialized` is the only valid order, and any failure leaves no partial
//! state behind.

pub mod errors;
pub mod ledger;
pub mod model;
pub mod provision;
pub mod steps;

//! Core of a localhost gateway between web clients and BLE hardware wallets:
//! the device registry, the adapter coordinator, the connect handshake and the
//! per-request decisions, each stated and proved with Verus.
pub mod adapter_manager;
pub mod device;
pub mod handshake;
pub mod methods;
pub mod registry;
pub mod scan;
pub mod session;
pub mod text;
pub mod types;

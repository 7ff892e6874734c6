//! Verified control core of a baseboard management controller (BMC) for a
//! multi-node compute carrier board.
//!
//! The core owns the live power-state bitmask of up to four compute-module
//! slots, mediates USB multiplexing between the slots and the BMC host, and
//! sequences the multi-stage pipeline that reflashes a slot's firmware over
//! USB mass storage.
//!
//! Physical collaborators (GPIO pin controller, persistent key/value store,
//! USB-boot helper, progress channel) are modeled at their interface boundary
//! as explicit state values, so every decision the core makes about them is
//! verified: mask arithmetic, ATX rail policy, idempotence, mode-bit merging,
//! stage ordering and failure propagation.

pub mod bmc;
pub mod flash;
pub mod laws;
pub mod masks;
pub mod pins;
pub mod store;
pub mod types;

pub use types::BmcError;
pub use types::FlashError;
pub use types::FlashProgress;
pub use types::FlashStatus;
pub use types::FlashingError;
pub use types::NodeId;
pub use types::UsbMode;
pub use types::UsbRoute;

//! A host-guest call bridge: the marshalling, routing, metering and error
//! rules of the calls that cross between a ledger runtime (the host) and a
//! sandboxed contract (the guest).

pub mod codec;
pub mod contract;
pub mod dispatch;
pub mod identity;
pub mod meter;
pub mod pallet;
pub mod registry;
pub mod status;
pub mod store;
pub mod violation;

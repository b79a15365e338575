//! Dispatch of dollar-cost-averaged swap requests to a relayer job, with a
//! retry cooldown per scheduled trade and exact EVM calldata for the remote
//! contract's entry points.

pub mod abi;
pub mod address;
pub mod contract;
pub mod error;
pub mod msg;
pub mod state;
pub mod target;
pub mod uint256;

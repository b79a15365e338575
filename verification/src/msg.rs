//! The requests that an instance accepts and the messages that it emits.

use crate::uint256::Uint256;
use vstd::prelude::*;

verus! {

/// The request that sets an instance up.
#[derive(Clone, Debug, PartialEq, Eq)]
pub struct InstantiateMsg {
    /// Seconds that must pass before a trade may be dispatched again.
    pub retry_delay: u64,
    /// The relayer job that the instance's messages go to.
    pub job_id: String,
}

/// A request that may change state or emit a message.
#[derive(Clone, Debug, PartialEq, Eq)]
pub enum ExecuteMsg {
    /// Dispatch one scheduled trade of a swap.
    Swap { swap_id: Uint256, amount_out_min: Uint256, number_trades: Uint256 },
    /// Bind the remote contract to this chain.
    SetPaloma {  },
    /// Point the remote contract at another bridge endpoint.
    UpdateCompass { new_compass: String },
    /// Change the wallet that refunds go to.
    UpdateRefundWallet { new_refund_wallet: String },
    /// Change the fee.
    UpdateFee { fee: Uint256 },
}

/// A request that only reads.
#[derive(Clone, Copy, Debug, PartialEq, Eq, Structural)]
pub enum QueryMsg {
    /// Ask for the relayer job.
    GetJobId {  },
}

/// The answer to [`QueryMsg::GetJobId`].
#[derive(Clone, Debug, PartialEq, Eq)]
pub struct GetJobIdResponse {
    pub job_id: String,
}

/// A message to the relayer.
#[derive(Clone, Debug, PartialEq, Eq)]
pub struct PalomaMsg {
    /// The relayer job that is to run.
    pub job_id: String,
    /// The calldata for the remote contract.
    pub payload: Vec<u8>,
}

/// What a [`PalomaMsg`] holds.
pub struct PalomaMsgView {
    pub job_id: Seq<char>,
    pub payload: Seq<u8>,
}

impl View for PalomaMsg {
    type V = PalomaMsgView;

    open spec fn view(&self) -> PalomaMsgView {
        PalomaMsgView { job_id: self.job_id@, payload: self.payload@ }
    }
}

} // verus!

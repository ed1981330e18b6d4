//! Shared protocol data: the negotiated parameters of a swap, the timelock
//! arithmetic both roles branch on, and the error raised when a state
//! machine is handed an event its current state has no handler for.

use vstd::prelude::*;

verus! {

/// The parameters both parties agree on at handshake.
pub struct SwapParams {
    /// Satoshi placed in the shared output by the lock transaction.
    pub btc_amount: u64,
    /// Piconero placed in the Monero lock by Alice.
    pub xmr_amount: u64,
    /// Blocks after lock confirmation until the cancel spend is valid.
    pub cancel_timelock: u32,
    /// Further blocks after that until the punish spend is valid.
    pub punish_timelock: u32,
    /// Blocks before cancel expiry at which redeeming is abandoned.
    pub safety_margin: u32,
}

impl SwapParams {
    /// Both timelocks are at least one block.
    pub open spec fn wf(self) -> bool {
        &&& self.cancel_timelock >= 1
        &&& self.punish_timelock >= 1
    }
}

/// An event arrived that the current state has no handler for: the message
/// is discarded and the state does not move.
#[derive(Clone, Copy, Debug, PartialEq, Eq, Structural)]
pub enum ProtocolError {
    /// The pairing of state and event is not part of the protocol.
    UnexpectedMessage,
}

/// Whether the cancel timelock has expired at height `h`.
pub fn cancel_expired(lock_height: u64, cancel_timelock: u32, h: u64) -> (r: bool)
    ensures
        r == (h >= lock_height + cancel_timelock),
{
    if h < lock_height {
        false
    } else {
        h - lock_height >= cancel_timelock as u64
    }
}

/// Whether the punish timelock has expired at height `h`.
pub fn punish_expired(lock_height: u64, cancel_timelock: u32, punish_timelock: u32, h: u64) -> (r:
    bool)
    ensures
        r == (h >= lock_height + cancel_timelock + punish_timelock),
{
    if h < lock_height {
        false
    } else {
        h - lock_height >= cancel_timelock as u64 + punish_timelock as u64
    }
}

/// Whether redeeming is still safe at height `h`: the cancel expiry is more
/// than the safety margin away.
pub fn redeem_window_open(lock_height: u64, cancel_timelock: u32, safety_margin: u32, h: u64) -> (r:
    bool)
    ensures
        r == (h + safety_margin < lock_height + cancel_timelock),
{
    (h as u128) + (safety_margin as u128) < (lock_height as u128) + (cancel_timelock as u128)
}

} // verus!

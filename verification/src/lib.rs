//! Core of a two-party BTC/XMR atomic swap: transaction construction and
//! completion for the shared 2-of-2 output, ECDSA adaptor-signature
//! primitives, the two role state machines with their timelock branching,
//! and the persistent store used to resume swaps.

use vstd::prelude::*;

pub mod alice;
pub mod bob;
pub mod btc_cancel;
pub mod btc_lock;
pub mod btc_punish;
pub mod btc_redeem;
pub mod btc_refund;
pub mod bytes;
pub mod crypto;
pub mod engine;
pub mod handshake;
pub mod ledger;
pub mod protocol;
pub mod script;
pub mod store;
pub mod transaction;

verus! {

/// Fixed fee, in satoshi, paid at every hop between the five swap
/// transactions.
pub const TX_FEE: u64 = 10_000;

/// Outputs at or below this value, in satoshi, are considered dust and are
/// refused by the transaction builders.
pub const DUST_AMOUNT: u64 = 546;

/// The value left for an output that spends `input_amount`, or `None` when
/// paying the fee would leave only dust behind.
pub fn spendable_amount(input_amount: u64) -> (r: Option<u64>)
    ensures
        input_amount > TX_FEE + DUST_AMOUNT ==> r == Some((input_amount - TX_FEE) as u64),
        input_amount <= TX_FEE + DUST_AMOUNT ==> r is None,
{
    if input_amount > TX_FEE + DUST_AMOUNT {
        Some(input_amount - TX_FEE)
    } else {
        None
    }
}

} // verus!

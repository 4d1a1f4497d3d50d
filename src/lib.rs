//! A ledger accumulator: it keeps the running total of recorded transfer
//! amounts and the recipient of the most recent transfer, and records a
//! transfer only when the host has authorized its sender.
//!
//! The host (storage, authorization proofs, rollback on abort) stays outside
//! this crate: a caller restores the state from storage, hands the host's
//! authorization verdict to [`JetLumen::record_transfer`], and writes the state
//! back when the call succeeds.

mod error;
mod ledger;
mod laws;
mod swap;

pub use error::{Error, TransferError};
pub use laws::{lemma_last_recipient_is_latest_success, lemma_total_is_sum, sum_amounts};
pub use ledger::{call_outcome, fits_i128, JetLumen};
pub use swap::SwapData;

use vstd::prelude::*;

verus! {

/// Error kinds of the atomic-swap and time-lock surface of the contract.
/// They are declared for the contract's error table; no operation of the
/// accumulator raises them.
#[derive(Copy, Clone, Debug, PartialEq, Eq, PartialOrd, Ord, Structural)]
pub enum Error {
    TimeLockNotExpired,
    TimeLockNotFound,
    UnauthorizedAccess,
    SwapNotFound,
    SwapAlreadyCompleted,
    SwapExpired,
    InvalidSwapAmount,
}

/// Why [`crate::JetLumen::record_transfer`] refused to record a transfer.
/// Either way the state is left as it was.
#[derive(Copy, Clone, Debug, PartialEq, Eq, Structural)]
pub enum TransferError {
    /// The host found no valid authorization proof for the sender.
    Unauthorized,
    /// The new total would leave the range of `i128`.
    Overflow,
}

} // verus!

use vstd::prelude::*;

verus! {

/// The record of an atomic swap between two accounts. It is declared as part
/// of the contract's data types; no operation of the accumulator reads or
/// writes one.
#[derive(Clone)]
pub struct SwapData<A> {
    pub initiator: A,
    pub counterparty: A,
    pub amount_from: i128,
    pub amount_to: i128,
    pub expiration: u64,
    pub completed: bool,
}

} // verus!

use vstd::prelude::*;

verus! {

/// Why an operation on a raffle was rejected.
#[derive(Clone, Copy, Debug, PartialEq, Eq, Structural)]
pub enum RaffleError {
    /// The raffle has already been completed or cancelled.
    RaffleInactive,
    /// The raffle already holds as many entries as it admits.
    RaffleFull,
    /// The payment offered is below the entry fee.
    InsufficientFee,
    /// A draw was attempted before anyone entered.
    NoEntries,
    /// The caller is not the raffle's creator.
    Unauthorized,
    /// The transfer of the fee or of the prize did not go through.
    TransferFailed,
}

} // verus!

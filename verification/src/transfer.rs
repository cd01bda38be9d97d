use vstd::prelude::*;
use crate::error::RaffleError;
use crate::identity::Identity;

verus! {

/// What the transfer primitive reported for a transfer an operation called for.
#[derive(Clone, Copy, Debug, PartialEq, Eq, Structural)]
pub enum TransferOutcome {
    Settled,
    Failed,
}

/// A payment of `amount` from `from` to `to`, for the caller to execute.
#[derive(Clone, Copy, Debug)]
pub struct FeeTransfer {
    pub from: Identity,
    pub to: Identity,
    pub amount: u64,
}

/// A hand-over of the one unit of `asset` from its holder to `to`, for the caller to execute.
#[derive(Clone, Copy, Debug)]
pub struct AssetTransfer {
    pub held_by: Identity,
    pub to: Identity,
    pub asset: Identity,
}

/// The payment that an offer of `offered` against a fee of `required` calls for.
pub open spec fn fee_due(payer: Identity, payee: Identity, required: u64, offered: u64) -> Result<
    FeeTransfer,
    RaffleError,
> {
    if offered < required {
        Err(RaffleError::InsufficientFee)
    } else {
        Ok(FeeTransfer { from: payer, to: payee, amount: required })
    }
}

/// What a transfer's outcome means for the operation that called for it.
pub open spec fn settlement(outcome: TransferOutcome) -> Result<(), RaffleError> {
    match outcome {
        TransferOutcome::Settled => Ok(()),
        TransferOutcome::Failed => Err(RaffleError::TransferFailed),
    }
}

/// Validates an offered payment against the required fee.
///
/// An offer below the fee is refused with `InsufficientFee`. Otherwise the
/// payment called for is of exactly the fee, whatever more was offered.
pub fn collect(payer: Identity, payee: Identity, required: u64, offered: u64) -> (r: Result<
    FeeTransfer,
    RaffleError,
>)
    ensures
        r == fee_due(payer, payee, required, offered),
{
    if offered < required {
        Err(RaffleError::InsufficientFee)
    } else {
        Ok(FeeTransfer { from: payer, to: payee, amount: required })
    }
}

/// The hand-over that releases the escrowed `asset` from `held_by` to `to`.
pub fn release(held_by: Identity, to: Identity, asset: Identity) -> (order: AssetTransfer)
    ensures
        order == (AssetTransfer { held_by, to, asset }),
{
    AssetTransfer { held_by, to, asset }
}

/// Turns the outcome of a transfer into the result of the operation:
/// `TransferFailed` exactly when the transfer failed.
pub fn settle(outcome: TransferOutcome) -> (r: Result<(), RaffleError>)
    ensures
        r == settlement(outcome),
{
    match outcome {
        TransferOutcome::Settled => Ok(()),
        TransferOutcome::Failed => Err(RaffleError::TransferFailed),
    }
}

} // verus!

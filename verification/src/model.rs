use vstd::prelude::*;
use crate::error::RaffleError;
use crate::identity::Identity;
use crate::selector::winning_index;
use crate::transfer::AssetTransfer;
use crate::transfer::FeeTransfer;
use crate::transfer::settlement;
use crate::transfer::TransferOutcome;

verus! {

/// Where a raffle stands in its lifecycle. `Completed` and `Cancelled` are terminal.
#[derive(Clone, Copy, Debug, PartialEq, Eq, Structural)]
pub enum Status {
    Active,
    Completed,
    Cancelled,
}

/// The mathematical state of one raffle.
pub struct RaffleState {
    /// Who created the raffle, receives the fees, and may draw and close.
    pub creator: Identity,
    /// The unique token held in escrow as the prize.
    pub prize_asset: Identity,
    /// The flat fee of one entry, in the smallest currency unit.
    pub entry_fee: u64,
    /// How many entries the raffle admits.
    pub max_entries: u8,
    /// The entrants in the order they entered; an identity may occur more than once.
    pub entries: Seq<Identity>,
    pub status: Status,
}

/// One call against a raffle, with the outcome of the transfer it may call for.
pub enum Operation {
    Enter { participant: Identity, paid: u64, transfer: TransferOutcome },
    Draw { caller: Identity, seed: u8, transfer: TransferOutcome },
    Close { caller: Identity },
}

impl RaffleState {
    /// A raffle admits at least one entry and never holds more than it admits.
    pub open spec fn valid(self) -> bool {
        &&& self.max_entries > 0
        &&& self.entries.len() <= self.max_entries
    }

    /// The raffle as it is created: active, with no entries.
    pub open spec fn created(
        creator: Identity,
        prize_asset: Identity,
        entry_fee: u64,
        max_entries: u8,
    ) -> RaffleState {
        RaffleState {
            creator,
            prize_asset,
            entry_fee,
            max_entries,
            entries: Seq::empty(),
            status: Status::Active,
        }
    }

    /// Why an entry paying `paid` is refused before any transfer, if it is.
    pub open spec fn entry_refusal(self, paid: u64) -> Option<RaffleError> {
        if self.status != Status::Active {
            Some(RaffleError::RaffleInactive)
        } else if self.entries.len() >= self.max_entries {
            Some(RaffleError::RaffleFull)
        } else if paid < self.entry_fee {
            Some(RaffleError::InsufficientFee)
        } else {
            None
        }
    }

    /// The payment an entry calls for: exactly the fee, from the participant to the creator.
    pub open spec fn entry_payment(self, participant: Identity, paid: u64) -> Result<
        FeeTransfer,
        RaffleError,
    > {
        match self.entry_refusal(paid) {
            Some(e) => Err(e),
            None => Ok(
                FeeTransfer { from: participant, to: self.creator, amount: self.entry_fee },
            ),
        }
    }

    /// What an entry returns: the index of the new entry, or why there is none.
    pub open spec fn enter_result(self, paid: u64, transfer: TransferOutcome) -> Result<
        u8,
        RaffleError,
    > {
        match self.entry_refusal(paid) {
            Some(e) => Err(e),
            None => match settlement(transfer) {
                Err(e) => Err(e),
                Ok(_) => Ok(self.entries.len() as u8),
            },
        }
    }

    /// The raffle with `participant` appended to its entries.
    pub open spec fn entered(self, participant: Identity) -> RaffleState {
        RaffleState { entries: self.entries.push(participant), ..self }
    }

    /// Why a draw by `caller` is refused before any transfer, if it is.
    pub open spec fn draw_refusal(self, caller: Identity) -> Option<RaffleError> {
        if self.status != Status::Active {
            Some(RaffleError::RaffleInactive)
        } else if self.entries.len() == 0 {
            Some(RaffleError::NoEntries)
        } else if caller != self.creator {
            Some(RaffleError::Unauthorized)
        } else {
            None
        }
    }

    /// The entrant that `seed` selects.
    pub open spec fn winner(self, seed: u8) -> Identity
        recommends
            self.entries.len() > 0,
    {
        self.entries[winning_index(seed, self.entries.len()) as int]
    }

    /// The hand-over a draw calls for: the prize, from the creator to the winner.
    pub open spec fn prize_release(self, caller: Identity, seed: u8) -> Result<
        AssetTransfer,
        RaffleError,
    > {
        match self.draw_refusal(caller) {
            Some(e) => Err(e),
            None => Ok(
                AssetTransfer {
                    held_by: self.creator,
                    to: self.winner(seed),
                    asset: self.prize_asset,
                },
            ),
        }
    }

    /// What a draw returns: the winner, or why there is none.
    pub open spec fn draw_result(
        self,
        caller: Identity,
        seed: u8,
        transfer: TransferOutcome,
    ) -> Result<Identity, RaffleError> {
        match self.draw_refusal(caller) {
            Some(e) => Err(e),
            None => match settlement(transfer) {
                Err(e) => Err(e),
                Ok(_) => Ok(self.winner(seed)),
            },
        }
    }

    /// The raffle after its prize was released.
    pub open spec fn completed(self) -> RaffleState {
        RaffleState { status: Status::Completed, ..self }
    }

    /// What closing by `caller` returns.
    pub open spec fn close_result(self, caller: Identity) -> Result<(), RaffleError> {
        if caller != self.creator {
            Err(RaffleError::Unauthorized)
        } else if self.status != Status::Active {
            Err(RaffleError::RaffleInactive)
        } else {
            Ok(())
        }
    }

    /// The raffle after it was closed without a draw.
    pub open spec fn cancelled(self) -> RaffleState {
        RaffleState { status: Status::Cancelled, ..self }
    }

    /// The raffle after one operation: changed if the operation succeeds, untouched if not.
    pub open spec fn step(self, op: Operation) -> RaffleState {
        match op {
            Operation::Enter { participant, paid, transfer } => {
                if self.enter_result(paid, transfer) is Ok {
                    self.entered(participant)
                } else {
                    self
                }
            },
            Operation::Draw { caller, seed, transfer } => {
                if self.draw_result(caller, seed, transfer) is Ok {
                    self.completed()
                } else {
                    self
                }
            },
            Operation::Close { caller } => {
                if self.close_result(caller) is Ok {
                    self.cancelled()
                } else {
                    self
                }
            },
        }
    }

    /// The raffle after a sequence of operations, applied first to last.
    pub open spec fn run(self, ops: Seq<Operation>) -> RaffleState
        decreases ops.len(),
    {
        if ops.len() == 0 {
            self
        } else {
            self.run(ops.drop_last()).step(ops.last())
        }
    }
}

} // verus!

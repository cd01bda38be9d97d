use vstd::prelude::*;
use crate::error::RaffleError;
use crate::identity::Identity;
use crate::ledger::EntryLedger;
use crate::model::Operation;
use crate::model::RaffleState;
use crate::model::Status;
use crate::selector::select_winner;
use crate::transfer::AssetTransfer;
use crate::transfer::collect;
use crate::transfer::FeeTransfer;
use crate::transfer::release;
use crate::transfer::settle;
use crate::transfer::TransferOutcome;

verus! {

/// The record of one raffle.
///
/// A record is made by `initialize_raffle` and changed only by
/// `enter_raffle`, `pick_winner` and `close_raffle`.
#[derive(Debug)]
pub struct Raffle {
    entry_fee: u64,
    ledger: EntryLedger,
    nft_mint: Identity,
    creator: Identity,
    status: Status,
}

impl View for Raffle {
    type V = RaffleState;

    closed spec fn view(&self) -> RaffleState {
        RaffleState {
            creator: self.creator,
            prize_asset: self.nft_mint,
            entry_fee: self.entry_fee,
            max_entries: self.ledger.cap(),
            entries: self.ledger@,
            status: self.status,
        }
    }
}

impl Raffle {
    /// The record with the given contents, as read back from storage, where
    /// they make a valid raffle: a positive cap and no more entries than it.
    pub fn from_parts(
        creator: Identity,
        nft_mint: Identity,
        entry_fee: u64,
        max_entries: u8,
        entries: Vec<Identity>,
        status: Status,
    ) -> (raffle: Option<Raffle>)
        ensures
            raffle is Some <==> 0 < max_entries && entries@.len() <= max_entries,
            raffle is Some ==> raffle.unwrap()@ == (RaffleState {
                creator,
                prize_asset: nft_mint,
                entry_fee,
                max_entries,
                entries: entries@,
                status,
            }),
    {
        match EntryLedger::from_entries(entries, max_entries) {
            None => None,
            Some(ledger) => Some(Raffle { entry_fee, ledger, nft_mint, creator, status }),
        }
    }

    pub fn creator(&self) -> (creator: Identity)
        ensures
            creator == self@.creator,
    {
        self.creator
    }

    /// The token held in escrow as the prize.
    pub fn nft_mint(&self) -> (asset: Identity)
        ensures
            asset == self@.prize_asset,
    {
        self.nft_mint
    }

    pub fn entry_fee(&self) -> (fee: u64)
        ensures
            fee == self@.entry_fee,
    {
        self.entry_fee
    }

    pub fn max_entries(&self) -> (max: u8)
        ensures
            max == self@.max_entries,
            self@.valid(),
    {
        self.ledger.capacity()
    }

    /// The entrants, in the order in which they entered; never more than `max_entries`.
    pub fn entries(&self) -> (entries: &[Identity])
        ensures
            entries@ == self@.entries,
            entries@.len() <= self@.max_entries,
    {
        proof {
            use_type_invariant(&self.ledger);
        }
        self.ledger.as_slice()
    }

    pub fn status(&self) -> (status: Status)
        ensures
            status == self@.status,
    {
        self.status
    }

    pub fn is_active(&self) -> (active: bool)
        ensures
            active == (self@.status == Status::Active),
    {
        self.status == Status::Active
    }
}

/// Creates a raffle: active, with no entries, `creator` as its creator.
pub fn initialize_raffle(creator: Identity, nft_mint: Identity, entry_fee: u64, max_entries: u8) -> (raffle:
    Raffle)
    requires
        max_entries > 0,
    ensures
        raffle@ == RaffleState::created(creator, nft_mint, entry_fee, max_entries),
        raffle@.valid(),
{
    Raffle {
        entry_fee,
        ledger: EntryLedger::new(max_entries),
        nft_mint,
        creator,
        status: Status::Active,
    }
}

/// The payment that `participant` owes for an entry, or why the entry is refused.
///
/// Nothing is changed. The payment is of exactly the fee, to the creator.
pub fn entry_payment(raffle: &Raffle, participant: Identity, paid: u64) -> (r: Result<
    FeeTransfer,
    RaffleError,
>)
    ensures
        r == raffle@.entry_payment(participant, paid),
{
    if !raffle.is_active() {
        return Err(RaffleError::RaffleInactive);
    }
    if raffle.ledger.is_full() {
        return Err(RaffleError::RaffleFull);
    }
    collect(participant, raffle.creator, raffle.entry_fee, paid)
}

/// Enters `participant`, who offers `paid`, given the outcome of the fee's transfer.
///
/// The entry is refused with `RaffleInactive` unless the raffle is active,
/// with `RaffleFull` at the cap, with `InsufficientFee` below the fee, and
/// with `TransferFailed` where the payment did not go through, in this order.
/// A refused entry leaves the raffle as it was. An accepted one is appended,
/// and its index returned.
pub fn enter_raffle(
    raffle: &mut Raffle,
    participant: Identity,
    paid: u64,
    transfer: TransferOutcome,
) -> (r: Result<u8, RaffleError>)
    ensures
        r == old(raffle)@.enter_result(paid, transfer),
        r is Ok ==> final(raffle)@ == old(raffle)@.entered(participant),
        r is Err ==> final(raffle)@ == old(raffle)@,
        final(raffle)@ == old(raffle)@.step(Operation::Enter { participant, paid, transfer }),
        final(raffle)@.valid(),
{
    proof {
        use_type_invariant(&raffle.ledger);
    }
    if let Err(e) = entry_payment(raffle, participant, paid) {
        return Err(e);
    }
    if let Err(e) = settle(transfer) {
        return Err(e);
    }
    raffle.ledger.append(participant)
}

/// The hand-over of the prize that a draw by `caller` with `seed` calls for,
/// or why the draw is refused. Nothing is changed.
pub fn prize_release(raffle: &Raffle, caller: Identity, seed: u8) -> (r: Result<
    AssetTransfer,
    RaffleError,
>)
    ensures
        r == raffle@.prize_release(caller, seed),
{
    if !raffle.is_active() {
        return Err(RaffleError::RaffleInactive);
    }
    let entries = raffle.ledger.as_slice();
    if entries.len() == 0 {
        return Err(RaffleError::NoEntries);
    }
    if !(caller == raffle.creator) {
        return Err(RaffleError::Unauthorized);
    }
    let index: usize = select_winner(seed, entries.len());
    Ok(release(raffle.creator, entries[index], raffle.nft_mint))
}

/// Draws the winner with `seed`, given the outcome of the prize's transfer.
///
/// The draw is refused with `RaffleInactive` unless the raffle is active,
/// with `NoEntries` where nobody entered, with `Unauthorized` where `caller`
/// is not the creator, and with `TransferFailed` where the prize did not
/// reach the winner, in this order. A refused draw leaves the raffle as it
/// was. An accepted one completes the raffle and returns the winner.
pub fn pick_winner(
    raffle: &mut Raffle,
    caller: Identity,
    seed: u8,
    transfer: TransferOutcome,
) -> (r: Result<Identity, RaffleError>)
    ensures
        r == old(raffle)@.draw_result(caller, seed, transfer),
        r is Ok ==> final(raffle)@ == old(raffle)@.completed(),
        r is Ok ==> old(raffle)@.entries.contains(r.unwrap()),
        r is Err ==> final(raffle)@ == old(raffle)@,
        final(raffle)@ == old(raffle)@.step(Operation::Draw { caller, seed, transfer }),
        final(raffle)@.valid(),
{
    proof {
        use_type_invariant(&raffle.ledger);
    }
    match prize_release(raffle, caller, seed) {
        Err(e) => Err(e),
        Ok(order) => match settle(transfer) {
            Err(e) => Err(e),
            Ok(_) => {
                raffle.status = Status::Completed;
                Ok(order.to)
            },
        },
    }
}

/// Cancels the raffle. Fees stay with the creator and the prize stays in escrow.
///
/// Closing is refused with `Unauthorized` where `caller` is not the creator,
/// else with `RaffleInactive` unless the raffle is active. A refused close
/// leaves the raffle as it was.
pub fn close_raffle(raffle: &mut Raffle, caller: Identity) -> (r: Result<(), RaffleError>)
    ensures
        r == old(raffle)@.close_result(caller),
        r is Ok ==> final(raffle)@ == old(raffle)@.cancelled(),
        r is Err ==> final(raffle)@ == old(raffle)@,
        final(raffle)@ == old(raffle)@.step(Operation::Close { caller }),
        final(raffle)@.valid(),
{
    proof {
        use_type_invariant(&raffle.ledger);
    }
    if !(caller == raffle.creator) {
        return Err(RaffleError::Unauthorized);
    }
    if !raffle.is_active() {
        return Err(RaffleError::RaffleInactive);
    }
    raffle.status = Status::Cancelled;
    Ok(())
}

} // verus!

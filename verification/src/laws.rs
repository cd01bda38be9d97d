use vstd::prelude::*;
use crate::error::RaffleError;
use crate::identity::Identity;
use crate::model::Operation;
use crate::model::RaffleState;
use crate::model::Status;
use crate::selector::winning_index;
use crate::transfer::AssetTransfer;
use crate::transfer::FeeTransfer;
use crate::transfer::TransferOutcome;

verus! {

/// One operation, accepted or refused, keeps a raffle valid and leaves its
/// creator, prize, fee and cap as they were.
pub proof fn lemma_step_keeps_valid(s: RaffleState, op: Operation)
    requires
        s.valid(),
    ensures
        s.step(op).valid(),
        s.step(op).max_entries == s.max_entries,
        s.step(op).creator == s.creator,
        s.step(op).prize_asset == s.prize_asset,
        s.step(op).entry_fee == s.entry_fee,
{
}

/// Whatever operations are applied to a valid raffle, it never holds more
/// entries than its cap, and the cap never changes.
pub proof fn lemma_run_keeps_valid(s: RaffleState, ops: Seq<Operation>)
    requires
        s.valid(),
    ensures
        s.run(ops).valid(),
        s.run(ops).entries.len() <= s.max_entries,
        s.run(ops).max_entries == s.max_entries,
    decreases ops.len(),
{
    if ops.len() > 0 {
        lemma_run_keeps_valid(s, ops.drop_last());
        lemma_step_keeps_valid(s.run(ops.drop_last()), ops.last());
    }
}

/// From its creation on, through any operations, a raffle holds at most
/// `max_entries` entries.
pub proof fn lemma_entries_within_cap(
    creator: Identity,
    prize_asset: Identity,
    entry_fee: u64,
    max_entries: u8,
    ops: Seq<Operation>,
)
    requires
        max_entries > 0,
    ensures
        RaffleState::created(creator, prize_asset, entry_fee, max_entries).run(ops).entries.len()
            <= max_entries,
{
    lemma_run_keeps_valid(
        RaffleState::created(creator, prize_asset, entry_fee, max_entries),
        ops,
    );
}

/// Entries only ever grow at the end: what was entered stays, in its place.
pub proof fn lemma_entries_append_only(s: RaffleState, op: Operation)
    ensures
        s.entries.is_prefix_of(s.step(op).entries),
        s.step(op).entries.len() <= s.entries.len() + 1,
{
}

/// An entry into a raffle that is not active is refused with
/// `RaffleInactive`, whatever is paid, and leaves the raffle as it was.
pub proof fn lemma_enter_needs_active(
    s: RaffleState,
    participant: Identity,
    paid: u64,
    transfer: TransferOutcome,
)
    requires
        s.status != Status::Active,
    ensures
        s.enter_result(paid, transfer) == Err::<u8, RaffleError>(RaffleError::RaffleInactive),
        s.step(Operation::Enter { participant, paid, transfer }) == s,
{
}

/// An entry that is refused before payment calls for no payment, and is
/// refused for the same reason whatever a transfer would have done.
pub proof fn lemma_refused_entry_moves_no_funds(
    s: RaffleState,
    participant: Identity,
    paid: u64,
    transfer: TransferOutcome,
)
    ensures
        s.entry_payment(participant, paid) is Err <==> s.entry_refusal(paid) is Some,
        s.entry_refusal(paid) matches Some(e) ==> s.entry_payment(participant, paid) == Err::<
            FeeTransfer,
            RaffleError,
        >(e) && s.enter_result(paid, transfer) == Err::<u8, RaffleError>(e),
        s.enter_result(paid, transfer) is Ok ==> s.entry_payment(participant, paid) is Ok
            && transfer == TransferOutcome::Settled,
{
}

/// The winner of a draw is one of the entrants, and the prize is handed from
/// the creator to that winner.
pub proof fn lemma_winner_is_entrant(
    s: RaffleState,
    caller: Identity,
    seed: u8,
    transfer: TransferOutcome,
)
    ensures
        s.entries.len() > 0 ==> s.entries.contains(s.winner(seed)),
        s.draw_result(caller, seed, transfer) matches Ok(winner) ==> s.entries.contains(winner)
            && caller == s.creator && s.prize_release(caller, seed) == Ok::<
            AssetTransfer,
            RaffleError,
        >(AssetTransfer { held_by: s.creator, to: winner, asset: s.prize_asset }),
{
    if s.entries.len() > 0 {
        let i = winning_index(seed, s.entries.len()) as int;
        assert(0 <= i < s.entries.len());
        assert(s.entries[i] == s.winner(seed));
    }
}

/// A raffle that is completed or cancelled stays exactly as it is under
/// every operation.
pub proof fn lemma_terminal_is_final(s: RaffleState, ops: Seq<Operation>)
    requires
        s.status != Status::Active,
    ensures
        s.run(ops) == s,
    decreases ops.len(),
{
    if ops.len() > 0 {
        lemma_terminal_is_final(s, ops.drop_last());
    }
}

/// The status changes only by an accepted draw, to `Completed`, or by an
/// accepted close, to `Cancelled`.
pub proof fn lemma_status_changes(s: RaffleState, op: Operation)
    ensures
        s.step(op).status == Status::Completed && s.status != Status::Completed ==> s.status
            == Status::Active && op is Draw,
        s.step(op).status == Status::Cancelled && s.status != Status::Cancelled ==> s.status
            == Status::Active && op is Close,
        s.step(op).status == Status::Active ==> s.status == Status::Active,
{
}

/// An accepted draw completes an active raffle, and every draw after it,
/// whatever happened in between, is refused with `RaffleInactive`.
pub proof fn lemma_draw_completes_once(
    s: RaffleState,
    caller: Identity,
    seed: u8,
    transfer: TransferOutcome,
    between: Seq<Operation>,
    next_caller: Identity,
    next_seed: u8,
    next_transfer: TransferOutcome,
)
    requires
        s.draw_result(caller, seed, transfer) is Ok,
    ensures
        s.status == Status::Active,
        s.step(Operation::Draw { caller, seed, transfer }).status == Status::Completed,
        s.step(Operation::Draw { caller, seed, transfer }).run(between).draw_result(
            next_caller,
            next_seed,
            next_transfer,
        ) == Err::<Identity, RaffleError>(RaffleError::RaffleInactive),
{
    lemma_terminal_is_final(s.step(Operation::Draw { caller, seed, transfer }), between);
}

/// Closing a raffle that is completed or cancelled is refused, whoever calls.
pub proof fn lemma_close_needs_active(s: RaffleState, caller: Identity)
    requires
        s.status != Status::Active,
    ensures
        s.close_result(caller) is Err,
        s.step(Operation::Close { caller }) == s,
{
}

/// An accepted close cancels an active raffle, and every close after it,
/// whatever happened in between, is refused.
pub proof fn lemma_close_succeeds_once(
    s: RaffleState,
    caller: Identity,
    between: Seq<Operation>,
    next_caller: Identity,
)
    requires
        s.close_result(caller) is Ok,
    ensures
        s.status == Status::Active,
        s.step(Operation::Close { caller }).status == Status::Cancelled,
        s.step(Operation::Close { caller }).run(between).close_result(next_caller) is Err,
{
    lemma_terminal_is_final(s.step(Operation::Close { caller }), between);
}

/// The same close repeated: the first call cancels the raffle, and each of
/// the calls that follow is refused with `RaffleInactive` and changes nothing.
pub proof fn lemma_repeated_close(s: RaffleState, caller: Identity, repeats: Seq<Operation>)
    requires
        s.close_result(caller) is Ok,
        forall|i: int| 0 <= i < repeats.len() ==> repeats[i] == (Operation::Close { caller }),
    ensures
        s.step(Operation::Close { caller }) == s.cancelled(),
        s.cancelled().run(repeats) == s.cancelled(),
        s.cancelled().run(repeats).close_result(caller) == Err::<(), RaffleError>(
            RaffleError::RaffleInactive,
        ),
{
    lemma_terminal_is_final(s.cancelled(), repeats);
}

} // verus!

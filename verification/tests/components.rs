use raffle_contract::error::RaffleError;
use raffle_contract::identity::Identity;
use raffle_contract::ledger::EntryLedger;
use raffle_contract::selector::seed_byte;
use raffle_contract::selector::select_winner;
use raffle_contract::transfer::collect;
use raffle_contract::transfer::release;
use raffle_contract::transfer::settle;
use raffle_contract::transfer::TransferOutcome;

fn who(tag: u8) -> Identity {
    Identity::new([tag; 32])
}

#[test]
fn identities_are_equal_when_all_bytes_are() {
    let mut bytes = [3u8; 32];
    assert_eq!(Identity::new(bytes), who(3));
    assert_eq!(who(3).to_bytes(), bytes);
    bytes[31] = 4;
    assert_ne!(Identity::new(bytes), who(3));
    bytes[31] = 3;
    bytes[0] = 0;
    assert_ne!(Identity::new(bytes), who(3));
    bytes[0] = 3;
    bytes[17] = 200;
    assert!(Identity::new(bytes) != who(3));
}

#[test]
fn the_winning_index_is_the_seed_modulo_the_count() {
    assert_eq!(select_winner(5, 3), 2);
    assert_eq!(select_winner(0, 1), 0);
    assert_eq!(select_winner(255, 1), 0);
    assert_eq!(select_winner(255, 255), 0);
    assert_eq!(select_winner(254, 255), 254);
    assert_eq!(select_winner(7, 300), 7);
    assert_eq!(select_winner(200, 7), 4);
}

#[test]
fn the_seed_byte_is_the_low_byte_of_the_height() {
    assert_eq!(seed_byte(0), 0);
    assert_eq!(seed_byte(5), 5);
    assert_eq!(seed_byte(255), 255);
    assert_eq!(seed_byte(256), 0);
    assert_eq!(seed_byte(0x1234_5678_9abc_def0), 0xf0);
    assert_eq!(seed_byte(u64::MAX), 255);
    assert_eq!(seed_byte(261), 261u64.to_le_bytes()[0]);
}

#[test]
fn collecting_asks_for_the_fee_and_no_more() {
    let order = collect(who(1), who(2), 100, 100).unwrap();
    assert_eq!((order.from, order.to, order.amount), (who(1), who(2), 100));
    let generous = collect(who(1), who(2), 100, u64::MAX).unwrap();
    assert_eq!(generous.amount, 100);
    let free = collect(who(1), who(2), 0, 0).unwrap();
    assert_eq!(free.amount, 0);
    assert_eq!(collect(who(1), who(2), 100, 99).err(), Some(RaffleError::InsufficientFee));
    assert_eq!(collect(who(1), who(2), 1, 0).err(), Some(RaffleError::InsufficientFee));
}

#[test]
fn release_names_holder_recipient_and_asset() {
    let order = release(who(1), who(2), who(3));
    assert_eq!(order.held_by, who(1));
    assert_eq!(order.to, who(2));
    assert_eq!(order.asset, who(3));
}

#[test]
fn a_failed_transfer_settles_as_an_error() {
    assert_eq!(settle(TransferOutcome::Settled), Ok(()));
    assert_eq!(settle(TransferOutcome::Failed), Err(RaffleError::TransferFailed));
}

#[test]
fn the_ledger_appends_in_order_up_to_its_cap() {
    let mut ledger = EntryLedger::new(2);
    assert!(ledger.is_empty());
    assert!(!ledger.is_full());
    assert_eq!(ledger.capacity(), 2);
    assert_eq!(ledger.append(who(5)), Ok(0));
    assert_eq!(ledger.append(who(4)), Ok(1));
    assert!(ledger.is_full());
    assert_eq!(ledger.append(who(3)), Err(RaffleError::RaffleFull));
    assert_eq!(ledger.len(), 2);
    assert_eq!(ledger.as_slice().to_vec(), vec![who(5), who(4)]);
    assert_eq!(ledger.get(0), Some(who(5)));
    assert_eq!(ledger.get(1), Some(who(4)));
    assert_eq!(ledger.get(2), None);
}

#[test]
fn a_ledger_is_rebuilt_only_within_a_positive_cap() {
    let ledger = EntryLedger::from_entries(vec![who(1), who(1)], 2).unwrap();
    assert_eq!(ledger.len(), 2);
    assert!(ledger.is_full());
    assert_eq!(ledger.as_slice().to_vec(), vec![who(1), who(1)]);
    assert!(EntryLedger::from_entries(vec![who(1), who(2), who(3)], 2).is_none());
    assert!(EntryLedger::from_entries(vec![], 0).is_none());
    let empty = EntryLedger::from_entries(vec![], 255).unwrap();
    assert!(empty.is_empty());
    assert_eq!(empty.capacity(), 255);
}

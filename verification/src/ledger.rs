use vstd::prelude::*;
use crate::error::RaffleError;
use crate::identity::Identity;

verus! {

/// The append-only record of one raffle's entrants, bounded by a cap.
///
/// Entries keep the order in which they were appended, and the same identity
/// may be appended more than once. Nothing is ever removed.
#[derive(Debug)]
pub struct EntryLedger {
    entries: Vec<Identity>,
    cap: u8,
}

impl View for EntryLedger {
    type V = Seq<Identity>;

    closed spec fn view(&self) -> Seq<Identity> {
        self.entries@
    }
}

impl EntryLedger {
    /// The number of entries the ledger admits.
    pub closed spec fn cap(&self) -> u8 {
        self.cap
    }

    /// What holds of every ledger: it admits at least one entry, and holds no
    /// more entries than it admits.
    #[verifier::type_invariant]
    pub open spec fn within_cap(&self) -> bool {
        &&& 0 < self.cap()
        &&& self@.len() <= self.cap()
    }

    /// An empty ledger that admits `cap` entries.
    pub fn new(cap: u8) -> (ledger: EntryLedger)
        requires
            cap > 0,
        ensures
            ledger@ == Seq::<Identity>::empty(),
            ledger.cap() == cap,
    {
        EntryLedger { entries: Vec::new(), cap }
    }

    /// The ledger that holds `entries` and admits `cap` of them, where there
    /// is one: the cap must be positive and the entries within it.
    pub fn from_entries(entries: Vec<Identity>, cap: u8) -> (ledger: Option<EntryLedger>)
        ensures
            ledger is Some <==> 0 < cap && entries@.len() <= cap,
            ledger is Some ==> ledger.unwrap()@ == entries@ && ledger.unwrap().cap() == cap,
    {
        if cap == 0 || entries.len() > cap as usize {
            None
        } else {
            Some(EntryLedger { entries, cap })
        }
    }

    /// The number of entries, which never exceeds the cap.
    pub fn len(&self) -> (n: u8)
        ensures
            n == self@.len(),
            self.within_cap(),
    {
        proof {
            use_type_invariant(self);
        }
        self.entries.len() as u8
    }

    pub fn capacity(&self) -> (cap: u8)
        ensures
            cap == self.cap(),
            self.within_cap(),
    {
        proof {
            use_type_invariant(self);
        }
        self.cap
    }

    pub fn is_empty(&self) -> (empty: bool)
        ensures
            empty == (self@.len() == 0),
    {
        self.entries.len() == 0
    }

    pub fn is_full(&self) -> (full: bool)
        ensures
            full == (self@.len() >= self.cap()),
    {
        self.entries.len() >= self.cap as usize
    }

    /// The entry at `index`, if there is one.
    pub fn get(&self, index: usize) -> (entry: Option<Identity>)
        ensures
            index < self@.len() ==> entry == Some(self@[index as int]),
            index >= self@.len() ==> entry.is_none(),
    {
        if index < self.entries.len() {
            Some(self.entries[index])
        } else {
            None
        }
    }

    /// The entries, in the order in which they were appended.
    pub fn as_slice(&self) -> (entries: &[Identity])
        ensures
            entries@ == self@,
    {
        self.entries.as_slice()
    }

    /// Appends `participant` and returns the index of the new entry.
    ///
    /// A ledger at its cap refuses with `RaffleFull` and stays as it was.
    pub fn append(&mut self, participant: Identity) -> (r: Result<u8, RaffleError>)
        ensures
            final(self).cap() == old(self).cap(),
            final(self).within_cap(),
            old(self)@.len() >= old(self).cap() ==> r == Err::<u8, RaffleError>(
                RaffleError::RaffleFull,
            ) && final(self)@ == old(self)@,
            old(self)@.len() < old(self).cap() ==> r == Ok::<u8, RaffleError>(
                old(self)@.len() as u8,
            ) && final(self)@ == old(self)@.push(participant),
    {
        proof {
            use_type_invariant(&*self);
        }
        let n: usize = self.entries.len();
        if n >= self.cap as usize {
            return Err(RaffleError::RaffleFull);
        }
        // The vector is taken out while it grows, so that the ledger itself is
        // never seen between two states.
        let mut entries: Vec<Identity> = Vec::new();
        core::mem::swap(&mut self.entries, &mut entries);
        entries.push(participant);
        core::mem::swap(&mut self.entries, &mut entries);
        Ok(n as u8)
    }
}

} // verus!

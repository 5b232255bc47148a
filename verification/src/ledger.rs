//! The records of redeemed tickets.
//!
//! A ticket is redeemed at most once because its record is created only
//! where none exists yet for the same beneficiary and nonce. Records are
//! never changed or removed.

use crate::bytes::bytes_equal;
use crate::error::EmissionsError;
use vstd::prelude::*;

verus! {

/// The record of one redeemed ticket.
#[derive(Clone, Copy, Debug, PartialEq, Eq)]
pub struct ClaimRecord {
    /// The beneficiary who redeemed the ticket.
    pub user: [u8; 32],
    /// The ticket's nonce, unique per beneficiary.
    pub nonce: u64,
    /// The amount paid out.
    pub amount: u64,
    /// The time of the redemption.
    pub claimed_at: i64,
}

impl ClaimRecord {
    /// What a record is filed under: its beneficiary and its nonce.
    pub open spec fn key(self) -> ([u8; 32], u64) {
        (self.user, self.nonce)
    }
}

/// All records created so far, at most one per beneficiary and nonce.
#[derive(Debug)]
pub struct ClaimLedger {
    records: Vec<ClaimRecord>,
}

impl View for ClaimLedger {
    type V = Map<([u8; 32], u64), ClaimRecord>;

    /// The records by beneficiary and nonce.
    closed spec fn view(&self) -> Map<([u8; 32], u64), ClaimRecord> {
        Map::new(
            |k: ([u8; 32], u64)| self.holds(k),
            |k: ([u8; 32], u64)| self.records@[self.position(k)],
        )
    }
}

impl ClaimLedger {
    #[verifier::type_invariant]
    spec fn distinct_keys(self) -> bool {
        forall|i: int, j: int|
            #![trigger self.records@[i], self.records@[j]]
            0 <= i < j < self.records@.len() ==> self.records@[i].key() != self.records@[j].key()
    }

    spec fn holds(self, k: ([u8; 32], u64)) -> bool {
        exists|i: int| 0 <= i < self.records@.len() && #[trigger] self.records@[i].key() == k
    }

    spec fn position(self, k: ([u8; 32], u64)) -> int {
        choose|i: int| 0 <= i < self.records@.len() && #[trigger] self.records@[i].key() == k
    }

    /// A ledger without records.
    pub fn new() -> (ledger: ClaimLedger)
        ensures
            ledger@ == Map::<([u8; 32], u64), ClaimRecord>::empty(),
    {
        let ledger = ClaimLedger { records: Vec::new() };
        assert(ledger@ =~= Map::<([u8; 32], u64), ClaimRecord>::empty());
        ledger
    }

    /// The record filed under a beneficiary and a nonce, if there is one.
    pub fn get(&self, user: &[u8; 32], nonce: u64) -> (found: Option<ClaimRecord>)
        ensures
            found == (if self@.contains_key((*user, nonce)) {
                Some(self@[(*user, nonce)])
            } else {
                None
            }),
    {
        let mut i: usize = 0;
        while i < self.records.len()
            invariant
                i <= self.records@.len(),
                forall|k: int| 0 <= k < i ==> self.records@[k].key() != (*user, nonce),
            decreases self.records@.len() - i,
        {
            proof {
                use_type_invariant(self);
            }
            let record = self.records[i];
            if record.nonce == nonce && bytes_equal(record.user.as_slice(), user.as_slice()) {
                assert(record.user =~= *user);
                assert(self.records@[i as int].key() == (*user, nonce));
                assert(self.holds((*user, nonce)));
                assert(self.position((*user, nonce)) == i) by {
                    let p = self.position((*user, nonce));
                    assert(self.records@[p].key() == self.records@[i as int].key());
                }
                return Some(record);
            }
            i += 1;
        }
        assert(!self.holds((*user, nonce)));
        None
    }

    /// Whether a record is filed under a beneficiary and a nonce.
    pub fn contains(&self, user: &[u8; 32], nonce: u64) -> (found: bool)
        ensures
            found == self@.contains_key((*user, nonce)),
    {
        self.get(user, nonce).is_some()
    }

    /// Files a record, unless one is filed already under its beneficiary
    /// and nonce: then the ledger stays as it is and the call fails with
    /// `AlreadyClaimed`.
    pub fn create(&mut self, record: ClaimRecord) -> (created: Result<(), EmissionsError>)
        ensures
            created == (if old(self)@.contains_key(record.key()) {
                Err(EmissionsError::AlreadyClaimed)
            } else {
                Ok(())
            }),
            final(self)@ == (if old(self)@.contains_key(record.key()) {
                old(self)@
            } else {
                old(self)@.insert(record.key(), record)
            }),
    {
        if self.contains(&record.user, record.nonce) {
            return Err(EmissionsError::AlreadyClaimed);
        }
        proof {
            use_type_invariant(&*self);
        }
        let ghost before = *self;
        let mut records: Vec<ClaimRecord> = Vec::new();
        core::mem::swap(&mut self.records, &mut records);
        records.push(record);
        self.records = records;
        proof {
            assert forall|k: ([u8; 32], u64)| self.holds(k) <==> (before.holds(k) || k
                == record.key()) by {
                if before.holds(k) {
                    let i = before.position(k);
                    assert(self.records@[i].key() == k);
                }
                if k == record.key() {
                    assert(self.records@[before.records@.len() as int].key() == k);
                }
            }
            assert forall|k: ([u8; 32], u64)| before.holds(k) implies self.position(k)
                == before.position(k) by {
                let i = before.position(k);
                assert(self.records@[i].key() == k);
            }
            assert(self.holds(record.key()));
            assert(self@ =~= before@.insert(record.key(), record));
        }
        Ok(())
    }
}

} // verus!

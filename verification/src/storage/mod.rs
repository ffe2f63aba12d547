//! What the validator knows of the ledger store: the answers the store gave
//! for one candidate block, held as plain values.

pub mod scylla;

use crate::encoding::bytes::bytes_equal;
use crate::proto::api::{
    AccountID, SignedBlock, SignedBlockView, Transaction, TransactionID, TransactionView,
};
use vstd::prelude::*;

verus! {

/// Why the ledger store could not answer.
#[derive(Clone, Copy, Debug, PartialEq, Eq)]
pub enum DatabaseError {
    /// The account has no block yet.
    NoLastBlock,
    /// Nothing is stored under the given identifier.
    NotFound,
    /// The block collides with one already stored.
    Conflict,
    /// The store itself failed.
    StorageError,
}

/// A transaction as the store returned it, with the identifier it was asked
/// for.
#[derive(Clone, Debug, PartialEq, Eq)]
pub struct StoredTransaction {
    pub id: TransactionID,
    pub transaction: Transaction,
}

/// The mathematical view of [`StoredTransaction`].
pub struct StoredTransactionView {
    pub id: Seq<u8>,
    pub transaction: TransactionView,
}

impl View for StoredTransaction {
    type V = StoredTransactionView;

    open spec fn view(&self) -> StoredTransactionView {
        StoredTransactionView { id: self.id@, transaction: self.transaction@ }
    }
}

/// The store's answers for one account: the head of the account's chain and
/// the stored transactions that were looked up.
#[derive(Debug, PartialEq, Eq)]
pub struct LedgerSnapshot {
    pub account: AccountID,
    pub head: Result<SignedBlock, DatabaseError>,
    pub transactions: Vec<StoredTransaction>,
}

/// The mathematical view of [`LedgerSnapshot`].
pub struct LedgerSnapshotView {
    pub account: Seq<u8>,
    pub head: Result<SignedBlockView, DatabaseError>,
    pub transactions: Seq<StoredTransactionView>,
}

impl View for LedgerSnapshot {
    type V = LedgerSnapshotView;

    open spec fn view(&self) -> LedgerSnapshotView {
        LedgerSnapshotView {
            account: self.account@,
            head: match self.head {
                Ok(block) => Ok(block@),
                Err(error) => Err(error),
            },
            transactions: self.transactions@.map_values(|t: StoredTransaction| t@),
        }
    }
}

/// The first transaction recorded under `id`, if any.
pub open spec fn first_under(transactions: Seq<StoredTransactionView>, id: Seq<u8>) -> Option<
    TransactionView,
>
    decreases transactions.len(),
{
    if transactions.len() == 0 {
        None
    } else if transactions.first().id == id {
        Some(transactions.first().transaction)
    } else {
        first_under(transactions.drop_first(), id)
    }
}

impl LedgerSnapshotView {
    /// The head block of `account`: the recorded answer for the snapshot's own
    /// account, `NotFound` for any other.
    pub open spec fn latest_block(self, account: Seq<u8>) -> Result<SignedBlockView, DatabaseError> {
        if account == self.account {
            self.head
        } else {
            Err(DatabaseError::NotFound)
        }
    }

    /// The stored transaction with identifier `id`, if the snapshot holds one.
    pub open spec fn transaction(self, id: Seq<u8>) -> Option<TransactionView> {
        first_under(self.transactions, id)
    }
}

impl LedgerSnapshot {
    /// A snapshot of the chain of `account` with the given head and no
    /// transactions.
    pub fn new(account: AccountID, head: Result<SignedBlock, DatabaseError>) -> (snapshot: Self)
        ensures
            snapshot.account == account,
            snapshot.head == head,
            snapshot@.transactions == Seq::<StoredTransactionView>::empty(),
    {
        LedgerSnapshot { account, head, transactions: Vec::new() }
    }

    /// Records that the store holds `transaction` under `id`. An earlier
    /// record under the same identifier stays the one that is found.
    pub fn record_transaction(&mut self, id: TransactionID, transaction: Transaction)
        ensures
            final(self).account == old(self).account,
            final(self).head == old(self).head,
            final(self)@.transactions == old(self)@.transactions.push(
                (StoredTransactionView { id: id@, transaction: transaction@ }),
            ),
    {
        self.transactions.push(StoredTransaction { id, transaction });
    }

    /// The head block of the chain of `account`.
    pub fn get_latest_block_by_account(&self, account: &AccountID) -> (result: Result<
        &SignedBlock,
        DatabaseError,
    >)
        ensures
            match result {
                Ok(block) => self@.latest_block(account@) == Ok::<SignedBlockView, DatabaseError>(
                    block@,
                ) && self.head == Ok::<SignedBlock, DatabaseError>(*block),
                Err(error) => self@.latest_block(account@) == Err::<
                    SignedBlockView,
                    DatabaseError,
                >(error),
            },
    {
        if !bytes_equal(self.account.as_slice(), account.as_slice()) {
            return Err(DatabaseError::NotFound);
        }
        match &self.head {
            Ok(block) => Ok(block),
            Err(error) => Err(*error),
        }
    }

    /// The stored transaction with identifier `id`.
    pub fn get_transaction_by_id(&self, id: &TransactionID) -> (result: Result<
        &Transaction,
        DatabaseError,
    >)
        ensures
            match result {
                Ok(transaction) => self@.transaction(id@) == Some(transaction@),
                Err(error) => error == DatabaseError::NotFound && self@.transaction(id@) is None,
            },
    {
        let mut i: usize = 0;
        assert(self@.transactions.skip(0) == self@.transactions);
        while i < self.transactions.len()
            invariant
                i <= self.transactions@.len(),
                self@.transaction(id@) == first_under(self@.transactions.skip(i as int), id@),
            decreases self.transactions@.len() - i,
        {
            let ghost rest = self@.transactions.skip(i as int);
            assert(rest.first() == self.transactions[i as int]@);
            assert(rest.drop_first() == self@.transactions.skip(i + 1));
            if bytes_equal(self.transactions[i].id.as_slice(), id.as_slice()) {
                return Ok(&self.transactions[i].transaction);
            }
            i = i + 1;
        }
        Err(DatabaseError::NotFound)
    }
}

} // verus!

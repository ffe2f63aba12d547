//! Validation of one candidate block against the head of its account's chain:
//! chain linkage, signature, and the balance that its transactions leave.
//!
//! The balance is checked once, after the last transaction: a block whose
//! running balance dips below zero on the way but ends at the declared,
//! non-negative balance is accepted.
//!
//! An account's first block is held to these rules: it is signed like any
//! other block, has height 0, names the all-zero block id as its predecessor,
//! and its transactions start from a balance of zero.

use crate::crypto::signatures::ed25519::{ed25519_valid, verify_signature, SignatureError};
use crate::encoding::account::{account_address, generate_account_address};
use crate::encoding::bytes::{bytes_equal, to_array_32};
use crate::proto::api::{
    AccountID, BlockData, BlockDataView, BlockID, Data, DataView, SignedBlock, SignedBlockView,
    Transaction, TransactionID, TransactionView, TxClaim, TxClaimView,
};
use crate::storage::{DatabaseError, LedgerSnapshot, LedgerSnapshotView};
use vstd::prelude::*;

verus! {

/// The block's content is malformed or conflicts with the ledger.
#[derive(Clone, Copy, Debug, PartialEq, Eq)]
pub enum Validation {
    TxValidationError,
    BlockHeightError,
    PreviousBlockError,
    TransactionDataNotFound,
    SendTxNotFound,
    MissmatchedTx,
    DuplicatedTx,
    TooManyTransactions,
}

/// Data that the node should have had is missing.
#[derive(Clone, Copy, Debug, PartialEq, Eq)]
pub enum Node {
    BlockDataNotFound,
    BlockNotFound,
    TxNotFound,
}

/// Why a candidate block was rejected.
#[derive(Clone, Copy, Debug, PartialEq, Eq)]
pub enum BlockError {
    Validation(Validation),
    Node(Node),
    Signature(SignatureError),
}

/// The most transactions one block may carry.
pub const MAX_TRANSACTIONS: usize = 255;

/// Width in bytes of a block or transaction identifier.
pub const ID_LENGTH: usize = 32;

impl Validation {
    /// The text that describes this error.
    pub open spec fn message_text(self) -> Seq<char> {
        match self {
            Validation::TxValidationError => "transactions could not be validated"@,
            Validation::BlockHeightError => "invalid block height"@,
            Validation::PreviousBlockError => "previous block did not match"@,
            Validation::TransactionDataNotFound => "transaction data not found"@,
            Validation::SendTxNotFound => "corresponding send tx not found"@,
            Validation::MissmatchedTx => "attempt to claim non send tx"@,
            Validation::DuplicatedTx => "duplicate transaction"@,
            Validation::TooManyTransactions => "too many transactions"@,
        }
    }

    /// Returns the text that describes this error.
    pub fn message(&self) -> (text: &'static str)
        ensures
            text@ == self.message_text(),
    {
        match self {
            Validation::TxValidationError => "transactions could not be validated",
            Validation::BlockHeightError => "invalid block height",
            Validation::PreviousBlockError => "previous block did not match",
            Validation::TransactionDataNotFound => "transaction data not found",
            Validation::SendTxNotFound => "corresponding send tx not found",
            Validation::MissmatchedTx => "attempt to claim non send tx",
            Validation::DuplicatedTx => "duplicate transaction",
            Validation::TooManyTransactions => "too many transactions",
        }
    }
}

impl Node {
    /// The text that describes this error.
    pub open spec fn message_text(self) -> Seq<char> {
        match self {
            Node::BlockDataNotFound => "block data not found"@,
            Node::BlockNotFound => "block not found"@,
            Node::TxNotFound => "tx not found"@,
        }
    }

    /// Returns the text that describes this error.
    pub fn message(&self) -> (text: &'static str)
        ensures
            text@ == self.message_text(),
    {
        match self {
            Node::BlockDataNotFound => "block data not found",
            Node::BlockNotFound => "block not found",
            Node::TxNotFound => "tx not found",
        }
    }
}

impl BlockError {
    /// The text that describes this error.
    pub open spec fn message_text(self) -> Seq<char> {
        match self {
            BlockError::Validation(error) => error.message_text(),
            BlockError::Node(error) => error.message_text(),
            BlockError::Signature(_) => "signature did not match"@,
        }
    }

    /// Returns the text that describes this error.
    pub fn message(&self) -> (text: &'static str)
        ensures
            text@ == self.message_text(),
    {
        match self {
            BlockError::Validation(error) => error.message(),
            BlockError::Node(error) => error.message(),
            BlockError::Signature(_) => "signature did not match",
        }
    }
}

/// The running balance of a block and the transaction ids met so far.
pub struct AccumulatorView {
    pub balance: int,
    pub seen: Seq<Seq<u8>>,
}

/// A value in the wide signed range, read as a mathematical integer.
pub open spec fn widened(result: Result<i128, BlockError>) -> Result<int, BlockError> {
    match result {
        Ok(value) => Ok(value as int),
        Err(error) => Err(error),
    }
}

/// Whether `new` is the successor of `prev`, whose id is `prev_id`: the height
/// is checked first, then the link.
pub open spec fn linkage(new: BlockDataView, prev: BlockDataView, prev_id: Seq<u8>) -> Result<
    (),
    BlockError,
> {
    if new.height != prev.height + 1 {
        Err(BlockError::Validation(Validation::BlockHeightError))
    } else if new.previous != prev_id {
        Err(BlockError::Validation(Validation::PreviousBlockError))
    } else {
        Ok(())
    }
}

/// What a claim is worth to `claimer`: the amount of the stored send that it
/// names, provided that send is addressed to `claimer`.
pub open spec fn claim_credit(
    claim: TxClaimView,
    claimer: Seq<u8>,
    ledger: LedgerSnapshotView,
) -> Result<int, BlockError> {
    if claim.transaction_id.len() != ID_LENGTH {
        Err(BlockError::Node(Node::TxNotFound))
    } else {
        match ledger.transaction(claim.transaction_id) {
            None => Err(BlockError::Validation(Validation::TxValidationError)),
            Some(found) => match found.data {
                None => Err(BlockError::Validation(Validation::SendTxNotFound)),
                Some(DataView::TxSend(send)) => if send.receiver == claimer {
                    Ok(send.amount as int)
                } else {
                    Err(BlockError::Validation(Validation::TxValidationError))
                },
                Some(_) => Err(BlockError::Validation(Validation::MissmatchedTx)),
            },
        }
    }
}

/// What a transaction adds to the balance of `claimer`: a send takes its
/// amount away, a claim adds its credit, any other payload changes nothing.
pub open spec fn effect(
    transaction: TransactionView,
    claimer: Seq<u8>,
    ledger: LedgerSnapshotView,
) -> Result<int, BlockError> {
    match transaction.data {
        None => Err(BlockError::Validation(Validation::TransactionDataNotFound)),
        Some(DataView::TxSend(send)) => Ok(-(send.amount as int)),
        Some(DataView::TxCollect(claim)) => claim_credit(claim, claimer, ledger),
        Some(_) => Ok(0int),
    }
}

/// The accumulator after one more transaction with identifier `id`.
pub open spec fn applied(
    state: AccumulatorView,
    id: Seq<u8>,
    transaction: TransactionView,
    claimer: Seq<u8>,
    ledger: LedgerSnapshotView,
) -> Result<AccumulatorView, BlockError> {
    if state.seen.len() >= MAX_TRANSACTIONS {
        Err(BlockError::Validation(Validation::TooManyTransactions))
    } else if state.seen.contains(id) {
        Err(BlockError::Validation(Validation::DuplicatedTx))
    } else {
        match effect(transaction, claimer, ledger) {
            Err(error) => Err(error),
            Ok(change) => Ok(
                AccumulatorView { balance: state.balance + change, seen: state.seen.push(id) },
            ),
        }
    }
}

/// The accumulator after the first `count` transactions, taken in order; the
/// first failure ends the walk.
pub open spec fn walked(
    start: AccumulatorView,
    transactions: Seq<TransactionView>,
    ids: Seq<Seq<u8>>,
    count: nat,
    claimer: Seq<u8>,
    ledger: LedgerSnapshotView,
) -> Result<AccumulatorView, BlockError>
    decreases count,
{
    if count == 0 {
        Ok(start)
    } else {
        match walked(start, transactions, ids, (count - 1) as nat, claimer, ledger) {
            Err(error) => Err(error),
            Ok(state) => applied(
                state,
                ids[count - 1],
                transactions[count - 1],
                claimer,
                ledger,
            ),
        }
    }
}

/// Whether the accumulated balance is the declared one.
pub open spec fn settled(state: AccumulatorView, declared: u64) -> Result<(), BlockError> {
    if state.balance == declared && state.balance >= 0 {
        Ok(())
    } else {
        Err(BlockError::Validation(Validation::TxValidationError))
    }
}

/// An accumulator that starts from the balance `prior`.
pub open spec fn opening(prior: u64) -> AccumulatorView {
    AccumulatorView { balance: prior as int, seen: Seq::empty() }
}

/// The identifiers of the transactions of the block `block_id`, in order.
pub open spec fn transaction_ids(transactions: Seq<TransactionView>, block_id: Seq<u8>) -> Seq<
    Seq<u8>,
> {
    Seq::new(transactions.len(), |i: int| transactions[i].id(block_id))
}

/// The identifier that an account's first block names as its predecessor.
pub open spec fn genesis_previous() -> Seq<u8> {
    Seq::new(ID_LENGTH as nat, |i: int| 0u8)
}

/// The stored transactions that the claims among `transactions` name, in
/// order: one identifier for each claim whose reference is well-formed.
pub open spec fn claim_references(transactions: Seq<TransactionView>) -> Seq<Seq<u8>>
    decreases transactions.len(),
{
    if transactions.len() == 0 {
        Seq::empty()
    } else {
        let earlier = claim_references(transactions.drop_last());
        match transactions.last().data {
            Some(DataView::TxCollect(claim)) => if claim.transaction_id.len() == ID_LENGTH {
                earlier.push(claim.transaction_id)
            } else {
                earlier
            },
            _ => earlier,
        }
    }
}

/// Whether the transactions of `block` lead from the balance `prior` to the
/// balance that the block declares.
pub open spec fn balance_outcome(block: SignedBlockView, prior: u64, ledger: LedgerSnapshotView) -> Result<
    (),
    BlockError,
> {
    match block.data {
        None => Err(BlockError::Node(Node::BlockDataNotFound)),
        Some(data) => if data.transactions.len() > MAX_TRANSACTIONS {
            Err(BlockError::Validation(Validation::TooManyTransactions))
        } else {
            match walked(
                opening(prior),
                data.transactions,
                transaction_ids(data.transactions, data.id()),
                data.transactions.len(),
                account_address(block.public_key),
                ledger,
            ) {
                Err(error) => Err(error),
                Ok(state) => settled(state, data.balance),
            }
        },
    }
}

/// Whether the transactions of `new` lead from the balance of `prev` to the
/// balance that `new` declares.
pub open spec fn transactions_outcome(
    new: SignedBlockView,
    prev: SignedBlockView,
    ledger: LedgerSnapshotView,
) -> Result<(), BlockError> {
    match (new.data, prev.data) {
        (Some(_), Some(prev_data)) => balance_outcome(new, prev_data.balance, ledger),
        _ => Err(BlockError::Node(Node::BlockDataNotFound)),
    }
}

/// Whether `new` continues the chain that ends in `prev`.
pub open spec fn previous_block_outcome(new: SignedBlockView, prev: SignedBlockView) -> Result<
    (),
    BlockError,
> {
    match (new.data, prev.data) {
        (Some(new_data), Some(prev_data)) => linkage(new_data, prev_data, prev_data.id()),
        _ => Err(BlockError::Node(Node::BlockDataNotFound)),
    }
}

/// Whether `block` may open the chain of an account that has no block yet.
pub open spec fn genesis_outcome(block: SignedBlockView, ledger: LedgerSnapshotView) -> Result<
    (),
    BlockError,
> {
    match block.data {
        None => Err(BlockError::Node(Node::BlockDataNotFound)),
        Some(data) => if !ed25519_valid(data.encoding(), block.public_key, block.signature) {
            Err(BlockError::Signature(SignatureError::InvalidSignature))
        } else if data.height != 0 {
            Err(BlockError::Validation(Validation::BlockHeightError))
        } else if data.previous != genesis_previous() {
            Err(BlockError::Validation(Validation::PreviousBlockError))
        } else {
            balance_outcome(block, 0, ledger)
        },
    }
}

/// The verdict on `block` given what `ledger` holds of its account's chain.
/// The first failure is the verdict, in this order: block data, head lookup,
/// signature, linkage, transactions.
pub open spec fn validate_outcome(block: SignedBlockView, ledger: LedgerSnapshotView) -> Result<
    (),
    BlockError,
> {
    match block.data {
        None => Err(BlockError::Node(Node::BlockDataNotFound)),
        Some(data) => match ledger.latest_block(account_address(block.public_key)) {
            Err(DatabaseError::NoLastBlock) => genesis_outcome(block, ledger),
            Err(_) => Err(BlockError::Node(Node::BlockNotFound)),
            Ok(head) => if !ed25519_valid(data.encoding(), block.public_key, block.signature) {
                Err(BlockError::Signature(SignatureError::InvalidSignature))
            } else {
                match previous_block_outcome(block, head) {
                    Err(error) => Err(error),
                    Ok(_) => transactions_outcome(block, head, ledger),
                }
            },
        },
    }
}

/// Once a walk has failed, walking further does not change the failure.
pub proof fn lemma_walk_failure_is_final(
    start: AccumulatorView,
    transactions: Seq<TransactionView>,
    ids: Seq<Seq<u8>>,
    failed_at: nat,
    count: nat,
    claimer: Seq<u8>,
    ledger: LedgerSnapshotView,
)
    requires
        failed_at <= count,
        walked(start, transactions, ids, failed_at, claimer, ledger) is Err,
    ensures
        walked(start, transactions, ids, count, claimer, ledger) == walked(
            start,
            transactions,
            ids,
            failed_at,
            claimer,
            ledger,
        ),
    decreases count,
{
    if failed_at < count {
        lemma_walk_failure_is_final(
            start,
            transactions,
            ids,
            failed_at,
            (count - 1) as nat,
            claimer,
            ledger,
        );
    }
}

/// Checks that `new` is the successor of `prev`, whose identifier is
/// `prev_id`.
pub fn check_linkage(new: &BlockData, prev: &BlockData, prev_id: &BlockID) -> (result: Result<
    (),
    BlockError,
>)
    ensures
        result == linkage(new@, prev@, prev_id@),
{
    if new.height == 0 || new.height - 1 != prev.height {
        return Err(BlockError::Validation(Validation::BlockHeightError));
    }
    if !bytes_equal(new.previous.as_slice(), prev_id.as_slice()) {
        return Err(BlockError::Validation(Validation::PreviousBlockError));
    }
    Ok(())
}

/// Resolves `claim` for the account `claimer` against the transactions that
/// `ledger` holds, and returns the amount to credit.
pub fn resolve_claim(claim: &TxClaim, ledger: &LedgerSnapshot, claimer: &AccountID) -> (result:
    Result<i128, BlockError>)
    ensures
        widened(result) == claim_credit(claim@, claimer@, ledger@),
{
    let id: TransactionID = match to_array_32(claim.transaction_id.as_slice()) {
        Some(id) => id,
        None => {
            return Err(BlockError::Node(Node::TxNotFound));
        },
    };
    let transaction = match ledger.get_transaction_by_id(&id) {
        Ok(transaction) => transaction,
        Err(_) => {
            return Err(BlockError::Validation(Validation::TxValidationError));
        },
    };
    let send = match &transaction.data {
        Some(Data::TxSend(send)) => send,
        Some(_) => {
            return Err(BlockError::Validation(Validation::MissmatchedTx));
        },
        None => {
            return Err(BlockError::Validation(Validation::SendTxNotFound));
        },
    };
    if !bytes_equal(send.receiver.as_slice(), claimer.as_slice()) {
        return Err(BlockError::Validation(Validation::TxValidationError));
    }
    Ok(send.amount as i128)
}

/// Classifies `transaction` and returns what it adds to the balance of
/// `claimer`.
pub fn transaction_effect(
    transaction: &Transaction,
    ledger: &LedgerSnapshot,
    claimer: &AccountID,
) -> (result: Result<i128, BlockError>)
    ensures
        widened(result) == effect(transaction@, claimer@, ledger@),
{
    match &transaction.data {
        None => Err(BlockError::Validation(Validation::TransactionDataNotFound)),
        Some(Data::TxSend(send)) => Ok(-(send.amount as i128)),
        Some(Data::TxCollect(claim)) => resolve_claim(claim, ledger, claimer),
        Some(_) => Ok(0),
    }
}

/// Folds the transactions of one block into a running balance and remembers
/// their identifiers.
pub struct BalanceAccumulator {
    balance: i128,
    seen: Vec<TransactionID>,
}

impl View for BalanceAccumulator {
    type V = AccumulatorView;

    closed spec fn view(&self) -> AccumulatorView {
        AccumulatorView {
            balance: self.balance as int,
            seen: self.seen@.map_values(|id: TransactionID| id@),
        }
    }
}

impl BalanceAccumulator {
    #[verifier::type_invariant]
    spec fn within_limits(self) -> bool {
        &&& self.seen@.len() <= MAX_TRANSACTIONS
        &&& -(self.seen@.len() * 0x1_0000_0000_0000_0000) <= self.balance
        &&& self.balance <= (self.seen@.len() + 1) * 0x1_0000_0000_0000_0000
    }

    /// An accumulator that starts from the balance `prior`.
    pub fn new(prior: u64) -> (accumulator: Self)
        ensures
            accumulator@ == opening(prior),
    {
        let accumulator = BalanceAccumulator { balance: prior as i128, seen: Vec::new() };
        assert(accumulator@.seen == Seq::<Seq<u8>>::empty());
        accumulator
    }

    /// The balance after the transactions applied so far.
    pub fn balance(&self) -> (balance: i128)
        ensures
            balance == self@.balance,
    {
        self.balance
    }

    /// Whether a transaction with identifier `id` was applied before.
    pub fn has_seen(&self, id: &TransactionID) -> (seen: bool)
        ensures
            seen == self@.seen.contains(id@),
    {
        let mut i: usize = 0;
        while i < self.seen.len()
            invariant
                i <= self.seen@.len(),
                forall|j: int| 0 <= j < i ==> self@.seen[j] != id@,
            decreases self.seen@.len() - i,
        {
            if bytes_equal(self.seen[i].as_slice(), id.as_slice()) {
                assert(self@.seen[i as int] == id@);
                return true;
            }
            i = i + 1;
        }
        false
    }

    /// Applies one more transaction, whose identifier is `id`.
    pub fn apply(
        self,
        id: TransactionID,
        transaction: &Transaction,
        ledger: &LedgerSnapshot,
        claimer: &AccountID,
    ) -> (result: Result<Self, BlockError>)
        ensures
            match result {
                Ok(next) => applied(self@, id@, transaction@, claimer@, ledger@) == Ok::<
                    AccumulatorView,
                    BlockError,
                >(next@),
                Err(error) => applied(self@, id@, transaction@, claimer@, ledger@) == Err::<
                    AccumulatorView,
                    BlockError,
                >(error),
            },
    {
        proof {
            use_type_invariant(&self);
        }
        if self.seen.len() >= MAX_TRANSACTIONS {
            return Err(BlockError::Validation(Validation::TooManyTransactions));
        }
        if self.has_seen(&id) {
            return Err(BlockError::Validation(Validation::DuplicatedTx));
        }
        let change: i128 = match transaction_effect(transaction, ledger, claimer) {
            Ok(change) => change,
            Err(error) => {
                return Err(error);
            },
        };
        let ghost before = self@;
        let balance: i128 = self.balance + change;
        let mut seen = self.seen;
        seen.push(id);
        let next = BalanceAccumulator { balance, seen };
        assert(next@.seen == before.seen.push(id@));
        Ok(next)
    }

    /// Compares the accumulated balance with the balance that the block
    /// declares.
    pub fn settle(&self, declared: u64) -> (result: Result<(), BlockError>)
        ensures
            result == settled(self@, declared),
    {
        if self.balance == declared as i128 && self.balance >= 0 {
            Ok(())
        } else {
            Err(BlockError::Validation(Validation::TxValidationError))
        }
    }
}

/// Whether `previous` is the identifier that an account's first block names.
pub fn is_genesis_previous(previous: &[u8]) -> (is_genesis: bool)
    ensures
        is_genesis == (previous@ == genesis_previous()),
{
    if previous.len() != ID_LENGTH {
        return false;
    }
    let mut i: usize = 0;
    while i < ID_LENGTH
        invariant
            previous@.len() == ID_LENGTH,
            i <= ID_LENGTH,
            forall|j: int| 0 <= j < i ==> previous@[j] == 0,
        decreases ID_LENGTH - i,
    {
        if previous[i] != 0 {
            assert(genesis_previous()[i as int] == 0);
            return false;
        }
        i = i + 1;
    }
    assert(previous@ =~= genesis_previous());
    true
}

/// Lists the stored transactions that validating `block` looks up: the
/// references of its claims, in block order. A block without data has none.
pub fn claimed_transactions(block: &SignedBlock) -> (ids: Vec<TransactionID>)
    ensures
        ids@.map_values(|id: TransactionID| id@) == match block@.data {
            Some(data) => claim_references(data.transactions),
            None => Seq::empty(),
        },
{
    let mut ids: Vec<TransactionID> = Vec::new();
    let data = match &block.data {
        Some(data) => data,
        None => {
            return ids;
        },
    };
    let mut i: usize = 0;
    assert(data@.transactions.take(0) == Seq::<TransactionView>::empty());
    while i < data.transactions.len()
        invariant
            i <= data.transactions@.len(),
            ids@.map_values(|id: TransactionID| id@) == claim_references(
                data@.transactions.take(i as int),
            ),
        decreases data.transactions@.len() - i,
    {
        proof {
            let next = data@.transactions.take(i + 1);
            assert(next.drop_last() == data@.transactions.take(i as int));
            assert(next.last() == data.transactions[i as int]@);
        }
        let ghost listed = ids@.map_values(|id: TransactionID| id@);
        match &data.transactions[i].data {
            Some(Data::TxCollect(claim)) => {
                match to_array_32(claim.transaction_id.as_slice()) {
                    Some(id) => {
                        ids.push(id);
                        assert(ids@.map_values(|id: TransactionID| id@) == listed.push(id@));
                    },
                    None => {},
                }
            },
            _ => {},
        }
        i = i + 1;
    }
    assert(data@.transactions.take(i as int) == data@.transactions);
    ids
}

/// Verifies that the transactions of `block` lead from the balance `prior`
/// to the balance that the block declares.
pub fn verify_balance(block: &SignedBlock, prior: u64, ledger: &LedgerSnapshot) -> (result: Result<
    (),
    BlockError,
>)
    ensures
        result == balance_outcome(block@, prior, ledger@),
{
    let data = match &block.data {
        Some(data) => data,
        None => {
            return Err(BlockError::Node(Node::BlockDataNotFound));
        },
    };
    if data.transactions.len() > MAX_TRANSACTIONS {
        return Err(BlockError::Validation(Validation::TooManyTransactions));
    }
    let block_id = data.get_id();
    let claimer = generate_account_address(block.public_key.as_slice());
    let ghost ids = transaction_ids(data@.transactions, data@.id());
    let mut accumulator = BalanceAccumulator::new(prior);
    let mut i: usize = 0;
    while i < data.transactions.len()
        invariant
            i <= data.transactions@.len() <= MAX_TRANSACTIONS,
            block@.data == Some(data@),
            block_id@ == data@.id(),
            claimer@ == account_address(block@.public_key),
            ids == transaction_ids(data@.transactions, data@.id()),
            walked(opening(prior), data@.transactions, ids, i as nat, claimer@, ledger@) == Ok::<
                AccumulatorView,
                BlockError,
            >(accumulator@),
        decreases data.transactions@.len() - i,
    {
        let id = data.transactions[i].get_id(block_id);
        assert(data@.transactions[i as int] == data.transactions[i as int]@);
        match accumulator.apply(id, &data.transactions[i], ledger, &claimer) {
            Ok(next) => {
                accumulator = next;
            },
            Err(error) => {
                proof {
                    lemma_walk_failure_is_final(
                        opening(prior),
                        data@.transactions,
                        ids,
                        (i + 1) as nat,
                        data@.transactions.len(),
                        claimer@,
                        ledger@,
                    );
                }
                return Err(error);
            },
        }
        i = i + 1;
    }
    accumulator.settle(data.balance)
}

/// Verifies the transactions of `new_block` and the balance they leave,
/// starting from the balance of `prev_block`.
pub fn verify_transactions(
    new_block: &SignedBlock,
    prev_block: &SignedBlock,
    ledger: &LedgerSnapshot,
) -> (result: Result<(), BlockError>)
    ensures
        result == transactions_outcome(new_block@, prev_block@, ledger@),
{
    if new_block.data.is_none() {
        return Err(BlockError::Node(Node::BlockDataNotFound));
    }
    let prev_data = match &prev_block.data {
        Some(data) => data,
        None => {
            return Err(BlockError::Node(Node::BlockDataNotFound));
        },
    };
    verify_balance(new_block, prev_data.balance, ledger)
}

/// Verifies the height of `new_block` and its link to `prev_block`.
pub fn verify_previous_block(new_block: &SignedBlock, prev_block: &SignedBlock) -> (result: Result<
    (),
    BlockError,
>)
    ensures
        result == previous_block_outcome(new_block@, prev_block@),
{
    let new_data = match &new_block.data {
        Some(data) => data,
        None => {
            return Err(BlockError::Node(Node::BlockDataNotFound));
        },
    };
    let prev_data = match &prev_block.data {
        Some(data) => data,
        None => {
            return Err(BlockError::Node(Node::BlockDataNotFound));
        },
    };
    let prev_id = prev_data.get_id();
    check_linkage(new_data, prev_data, &prev_id)
}

/// Verifies the first block of an account's chain.
pub fn verify_account_genesis_block(block: &SignedBlock, ledger: &LedgerSnapshot) -> (result:
    Result<(), BlockError>)
    ensures
        result == genesis_outcome(block@, ledger@),
{
    let data = match &block.data {
        Some(data) => data,
        None => {
            return Err(BlockError::Node(Node::BlockDataNotFound));
        },
    };
    let message = data.encode_to_vec();
    match verify_signature(
        message.as_slice(),
        block.public_key.as_slice(),
        block.signature.as_slice(),
    ) {
        Ok(_) => {},
        Err(error) => {
            return Err(BlockError::Signature(error));
        },
    }
    if data.height != 0 {
        return Err(BlockError::Validation(Validation::BlockHeightError));
    }
    if !is_genesis_previous(data.previous.as_slice()) {
        return Err(BlockError::Validation(Validation::PreviousBlockError));
    }
    verify_balance(block, 0, ledger)
}

/// Resolves the claim `tx` made in `block` and returns the amount to credit
/// to the account that signed `block`.
pub fn validate_collect(tx: &TxClaim, ledger: &LedgerSnapshot, block: &SignedBlock) -> (result:
    Result<i128, BlockError>)
    ensures
        widened(result) == claim_credit(tx@, account_address(block@.public_key), ledger@),
{
    let account_id = generate_account_address(block.public_key.as_slice());
    resolve_claim(tx, ledger, &account_id)
}

/// Validates `block` against what `ledger` holds of its account's chain.
pub fn validate(block: &SignedBlock, ledger: &LedgerSnapshot) -> (result: Result<(), BlockError>)
    ensures
        result == validate_outcome(block@, ledger@),
{
    let data = match &block.data {
        Some(data) => data,
        None => {
            return Err(BlockError::Node(Node::BlockDataNotFound));
        },
    };
    let account_id = generate_account_address(block.public_key.as_slice());
    let latest_block = match ledger.get_latest_block_by_account(&account_id) {
        Ok(latest_block) => latest_block,
        Err(DatabaseError::NoLastBlock) => {
            return verify_account_genesis_block(block, ledger);
        },
        Err(_) => {
            return Err(BlockError::Node(Node::BlockNotFound));
        },
    };
    let message = data.encode_to_vec();
    match verify_signature(
        message.as_slice(),
        block.public_key.as_slice(),
        block.signature.as_slice(),
    ) {
        Ok(_) => {},
        Err(error) => {
            return Err(BlockError::Signature(error));
        },
    }
    match verify_previous_block(block, latest_block) {
        Ok(_) => {},
        Err(error) => {
            return Err(error);
        },
    }
    verify_transactions(block, latest_block, ledger)
}

} // verus!

//! What holds of block validation for every block and every ledger.

use crate::crypto::signatures::ed25519::ed25519_valid;
use crate::encoding::account::account_address;
use crate::proto::api::{
    BlockDataView, DataView, SignedBlockView, TransactionView, TxClaimView, TxSendView,
};
use crate::storage::LedgerSnapshotView;
use crate::validation::block::{
    applied, balance_outcome, claim_credit, claim_references, effect, lemma_walk_failure_is_final,
    linkage, opening, previous_block_outcome, settled, transaction_ids, transactions_outcome,
    validate_outcome, walked, AccumulatorView, BlockError, Validation, ID_LENGTH,
    MAX_TRANSACTIONS,
};
use vstd::prelude::*;

verus! {

/// No identifier occurs twice.
pub open spec fn distinct(ids: Seq<Seq<u8>>) -> bool {
    forall|i: int, j: int| 0 <= i < j < ids.len() ==> ids[i] != ids[j]
}

/// Every transaction has an effect: it carries a payload, and if it is a
/// claim, the claim resolves.
pub open spec fn all_effective(
    transactions: Seq<TransactionView>,
    claimer: Seq<u8>,
    ledger: LedgerSnapshotView,
) -> bool {
    forall|i: int|
        0 <= i < transactions.len() ==> (#[trigger] effect(transactions[i], claimer, ledger)) is Ok
}

/// The sum of the effects of the first `count` transactions.
pub open spec fn total_effect(
    transactions: Seq<TransactionView>,
    count: nat,
    claimer: Seq<u8>,
    ledger: LedgerSnapshotView,
) -> int
    decreases count,
{
    if count == 0 {
        0
    } else {
        total_effect(transactions, (count - 1) as nat, claimer, ledger) + match effect(
            transactions[count - 1],
            claimer,
            ledger,
        ) {
            Ok(change) => change,
            Err(_) => 0,
        }
    }
}

/// A send that differs from `send` in its amount alone.
pub open spec fn send_with_amount(send: TxSendView, amount: u64) -> TransactionView {
    TransactionView {
        data: Some(
            DataView::TxSend(TxSendView { receiver: send.receiver, amount, data: send.data }),
        ),
    }
}

/// A block that is the successor of the head, by height and by link, passes
/// the linkage check. With any other height it fails with `BlockHeightError`;
/// with the right height and any other link it fails with
/// `PreviousBlockError`.
pub proof fn law_linkage(new: BlockDataView, prev: BlockDataView, prev_id: Seq<u8>)
    requires
        new.height == prev.height + 1,
        new.previous == prev_id,
    ensures
        linkage(new, prev, prev_id) is Ok,
        forall|height: u64|
            height != new.height ==> #[trigger] linkage(
                (BlockDataView { height, ..new }),
                prev,
                prev_id,
            ) == Err::<(), BlockError>(BlockError::Validation(Validation::BlockHeightError)),
        forall|previous: Seq<u8>|
            previous != new.previous ==> #[trigger] linkage(
                (BlockDataView { previous, ..new }),
                prev,
                prev_id,
            ) == Err::<(), BlockError>(BlockError::Validation(Validation::PreviousBlockError)),
{
}

/// For two blocks that carry data, the linkage check succeeds if and only if
/// the new block's height is the head's plus one and it names the head's id.
pub proof fn law_previous_block(new: SignedBlockView, prev: SignedBlockView)
    requires
        new.data is Some,
        prev.data is Some,
    ensures
        previous_block_outcome(new, prev) is Ok <==> (new.data->0.height == prev.data->0.height + 1
            && new.data->0.previous == prev.data->0.id()),
{
}

/// When no identifier occurs twice and every transaction has an effect, a
/// walk over at most 255 transactions succeeds and ends at the starting
/// balance plus the sum of the effects.
pub proof fn law_walk_sums_effects(
    prior: u64,
    transactions: Seq<TransactionView>,
    ids: Seq<Seq<u8>>,
    count: nat,
    claimer: Seq<u8>,
    ledger: LedgerSnapshotView,
)
    requires
        count <= transactions.len(),
        transactions.len() == ids.len(),
        count <= MAX_TRANSACTIONS,
        distinct(ids),
        all_effective(transactions, claimer, ledger),
    ensures
        walked(opening(prior), transactions, ids, count, claimer, ledger) == Ok::<
            AccumulatorView,
            BlockError,
        >(
            AccumulatorView {
                balance: prior + total_effect(transactions, count, claimer, ledger),
                seen: ids.take(count as int),
            },
        ),
    decreases count,
{
    if count > 0 {
        law_walk_sums_effects(prior, transactions, ids, (count - 1) as nat, claimer, ledger);
        let before = ids.take(count - 1);
        assert(!before.contains(ids[count - 1]));
        assert(effect(transactions[count - 1], claimer, ledger) is Ok);
        assert(before.push(ids[count - 1]) == ids.take(count as int));
    } else {
        assert(ids.take(0) == Seq::<Seq<u8>>::empty());
    }
}

/// A block of at most 255 transactions, none of which repeats an identifier
/// and each of which has an effect, is accepted when the prior balance plus
/// the sum of the effects is the balance that the block declares.
pub proof fn law_balanced_block_accepted(
    block: SignedBlockView,
    prior: u64,
    ledger: LedgerSnapshotView,
)
    requires
        block.data is Some,
        block.data->0.transactions.len() <= MAX_TRANSACTIONS,
        distinct(transaction_ids(block.data->0.transactions, block.data->0.id())),
        all_effective(block.data->0.transactions, account_address(block.public_key), ledger),
        prior + total_effect(
            block.data->0.transactions,
            block.data->0.transactions.len(),
            account_address(block.public_key),
            ledger,
        ) == block.data->0.balance,
    ensures
        balance_outcome(block, prior, ledger) is Ok,
{
    let data = block.data->0;
    law_walk_sums_effects(
        prior,
        data.transactions,
        transaction_ids(data.transactions, data.id()),
        data.transactions.len(),
        account_address(block.public_key),
        ledger,
    );
}

/// A walk that succeeds met no identifier twice, found an effect for every
/// transaction it walked, took at most 255 of them, and ends at the starting
/// balance plus the sum of their effects.
pub proof fn lemma_successful_walk(
    prior: u64,
    transactions: Seq<TransactionView>,
    ids: Seq<Seq<u8>>,
    count: nat,
    claimer: Seq<u8>,
    ledger: LedgerSnapshotView,
)
    requires
        count <= ids.len(),
        walked(opening(prior), transactions, ids, count, claimer, ledger) is Ok,
    ensures
        count <= MAX_TRANSACTIONS,
        distinct(ids.take(count as int)),
        forall|i: int|
            0 <= i < count ==> (#[trigger] effect(transactions[i], claimer, ledger)) is Ok,
        walked(opening(prior), transactions, ids, count, claimer, ledger)->Ok_0 == (
        AccumulatorView {
            balance: prior + total_effect(transactions, count, claimer, ledger),
            seen: ids.take(count as int),
        }),
    decreases count,
{
    if count > 0 {
        let earlier = (count - 1) as nat;
        lemma_successful_walk(prior, transactions, ids, earlier, claimer, ledger);
        let before = ids.take(earlier as int);
        assert(before.push(ids[count - 1]) == ids.take(count as int));
        assert forall|i: int, j: int| 0 <= i < j < count implies ids.take(count as int)[i]
            != ids.take(count as int)[j] by {
            if j < count - 1 {
                assert(before[i] != before[j]);
            } else {
                assert(before[i] == ids[i]);
                assert(!before.contains(ids[count - 1]));
            }
        }
    } else {
        assert(ids.take(0) == Seq::<Seq<u8>>::empty());
    }
}

/// A block's transactions lead from the prior balance to the declared one if
/// and only if they are at most 255, no two of them have the same identifier,
/// each has an effect, and the prior balance plus the sum of the effects is
/// the declared balance.
pub proof fn law_balance_outcome(block: SignedBlockView, prior: u64, ledger: LedgerSnapshotView)
    requires
        block.data is Some,
    ensures
        balance_outcome(block, prior, ledger) is Ok <==> {
            let data = block.data->0;
            let claimer = account_address(block.public_key);
            &&& data.transactions.len() <= MAX_TRANSACTIONS
            &&& distinct(transaction_ids(data.transactions, data.id()))
            &&& all_effective(data.transactions, claimer, ledger)
            &&& prior + total_effect(
                data.transactions,
                data.transactions.len(),
                claimer,
                ledger,
            ) == data.balance
        },
{
    let data = block.data->0;
    let claimer = account_address(block.public_key);
    let ids = transaction_ids(data.transactions, data.id());
    if balance_outcome(block, prior, ledger) is Ok {
        lemma_successful_walk(
            prior,
            data.transactions,
            ids,
            data.transactions.len(),
            claimer,
            ledger,
        );
        assert(ids.take(ids.len() as int) == ids);
    } else if data.transactions.len() <= MAX_TRANSACTIONS && distinct(ids) && all_effective(
        data.transactions,
        claimer,
        ledger,
    ) {
        law_walk_sums_effects(
            prior,
            data.transactions,
            ids,
            data.transactions.len(),
            claimer,
            ledger,
        );
    }
}

/// A block that is accepted as the successor of a head is signed by its key,
/// follows the head by height and by link, and its transactions lead from
/// the head's balance to its own: every claim among them names a stored send
/// addressed to the signing account.
pub proof fn law_accepted_block_is_sound(block: SignedBlockView, ledger: LedgerSnapshotView)
    requires
        validate_outcome(block, ledger) is Ok,
        ledger.latest_block(account_address(block.public_key)) is Ok,
    ensures
        block.data is Some,
        ledger.head is Ok,
        ledger.head->Ok_0.data is Some,
        ledger.account == account_address(block.public_key),
        ({
            let data = block.data->0;
            let head = ledger.head->Ok_0.data->0;
            let claimer = account_address(block.public_key);
            &&& ed25519_valid(data.encoding(), block.public_key, block.signature)
            &&& data.height == head.height + 1
            &&& data.previous == head.id()
            &&& data.transactions.len() <= MAX_TRANSACTIONS
            &&& distinct(transaction_ids(data.transactions, data.id()))
            &&& head.balance + total_effect(
                data.transactions,
                data.transactions.len(),
                claimer,
                ledger,
            ) == data.balance
            &&& forall|i: int|
                0 <= i < data.transactions.len() ==> match (#[trigger] data.transactions[i]).data {
                    None => false,
                    Some(DataView::TxCollect(claim)) => {
                        &&& claim.transaction_id.len() == ID_LENGTH
                        &&& ledger.transaction(claim.transaction_id) is Some
                        &&& ledger.transaction(claim.transaction_id)->0.data is Some
                        &&& ledger.transaction(claim.transaction_id)->0.data->0 is TxSend
                        &&& ledger.transaction(
                            claim.transaction_id,
                        )->0.data->0->TxSend_0.receiver == claimer
                    },
                    Some(_) => true,
                }
        }),
{
    let data = block.data->0;
    let head = ledger.head->Ok_0;
    let claimer = account_address(block.public_key);
    law_balance_outcome(block, head.data->0.balance, ledger);
    assert forall|i: int| 0 <= i < data.transactions.len() implies match (
    #[trigger] data.transactions[i]).data {
        None => false,
        Some(DataView::TxCollect(claim)) => {
            &&& claim.transaction_id.len() == ID_LENGTH
            &&& ledger.transaction(claim.transaction_id) is Some
            &&& ledger.transaction(claim.transaction_id)->0.data is Some
            &&& ledger.transaction(claim.transaction_id)->0.data->0 is TxSend
            &&& ledger.transaction(claim.transaction_id)->0.data->0->TxSend_0.receiver == claimer
        },
        Some(_) => true,
    } by {
        assert(effect(data.transactions[i], claimer, ledger) is Ok);
    }
}

/// Replacing one transaction changes the sum of the effects by the difference
/// of the two effects.
pub proof fn lemma_total_after_replacement(
    transactions: Seq<TransactionView>,
    at: int,
    replacement: TransactionView,
    count: nat,
    claimer: Seq<u8>,
    ledger: LedgerSnapshotView,
)
    requires
        0 <= at < transactions.len(),
        count <= transactions.len(),
        effect(transactions[at], claimer, ledger) is Ok,
        effect(replacement, claimer, ledger) is Ok,
    ensures
        total_effect(transactions.update(at, replacement), count, claimer, ledger) == total_effect(
            transactions,
            count,
            claimer,
            ledger,
        ) + if at < count {
            effect(replacement, claimer, ledger)->Ok_0 - effect(
                transactions[at],
                claimer,
                ledger,
            )->Ok_0
        } else {
            0
        },
    decreases count,
{
    if count > 0 {
        lemma_total_after_replacement(
            transactions,
            at,
            replacement,
            (count - 1) as nat,
            claimer,
            ledger,
        );
    }
}

/// When a walk over transactions with an effect ends at the declared
/// balance, the same transactions with the amount of one send changed are
/// rejected with `TxValidationError`, provided that the changed transactions
/// still have pairwise different identifiers.
pub proof fn law_corrupted_amount_rejected(
    prior: u64,
    declared: u64,
    transactions: Seq<TransactionView>,
    at: int,
    send: TxSendView,
    amount: u64,
    changed_ids: Seq<Seq<u8>>,
    claimer: Seq<u8>,
    ledger: LedgerSnapshotView,
)
    requires
        transactions.len() <= MAX_TRANSACTIONS,
        all_effective(transactions, claimer, ledger),
        prior + total_effect(transactions, transactions.len(), claimer, ledger) == declared,
        0 <= at < transactions.len(),
        transactions[at].data == Some(DataView::TxSend(send)),
        amount != send.amount,
        changed_ids.len() == transactions.len(),
        distinct(changed_ids),
    ensures
        ({
            let changed = transactions.update(at, send_with_amount(send, amount));
            let end = walked(opening(prior), changed, changed_ids, changed.len(), claimer, ledger);
            end is Ok && settled(end->Ok_0, declared) == Err::<(), BlockError>(
                BlockError::Validation(Validation::TxValidationError),
            )
        }),
{
    let replacement = send_with_amount(send, amount);
    let changed = transactions.update(at, replacement);
    assert(effect(transactions[at], claimer, ledger) is Ok);
    assert forall|i: int| 0 <= i < changed.len() implies (#[trigger] effect(
        changed[i],
        claimer,
        ledger,
    )) is Ok by {
        if i != at {
            assert(changed[i] == transactions[i]);
            assert(effect(transactions[i], claimer, ledger) is Ok);
        }
    }
    lemma_total_after_replacement(
        transactions,
        at,
        replacement,
        transactions.len(),
        claimer,
        ledger,
    );
    law_walk_sums_effects(prior, changed, changed_ids, changed.len(), claimer, ledger);
}

/// A block that differs from a balanced block in the amount of one send, and
/// in whose transactions no identifier occurs twice, is rejected with
/// `TxValidationError`.
pub proof fn law_corrupted_block_rejected(
    block: SignedBlockView,
    corrupted: SignedBlockView,
    prior: u64,
    ledger: LedgerSnapshotView,
    at: int,
    send: TxSendView,
    amount: u64,
)
    requires
        block.data is Some,
        corrupted.data is Some,
        block.data->0.transactions.len() <= MAX_TRANSACTIONS,
        all_effective(block.data->0.transactions, account_address(block.public_key), ledger),
        prior + total_effect(
            block.data->0.transactions,
            block.data->0.transactions.len(),
            account_address(block.public_key),
            ledger,
        ) == block.data->0.balance,
        0 <= at < block.data->0.transactions.len(),
        block.data->0.transactions[at].data == Some(DataView::TxSend(send)),
        amount != send.amount,
        corrupted.public_key == block.public_key,
        corrupted.data->0.balance == block.data->0.balance,
        corrupted.data->0.transactions == block.data->0.transactions.update(
            at,
            send_with_amount(send, amount),
        ),
        distinct(transaction_ids(corrupted.data->0.transactions, corrupted.data->0.id())),
    ensures
        balance_outcome(corrupted, prior, ledger) == Err::<(), BlockError>(
            BlockError::Validation(Validation::TxValidationError),
        ),
{
    law_corrupted_amount_rejected(
        prior,
        block.data->0.balance,
        block.data->0.transactions,
        at,
        send,
        amount,
        transaction_ids(corrupted.data->0.transactions, corrupted.data->0.id()),
        account_address(block.public_key),
        ledger,
    );
}

/// A walk that reaches a transaction whose identifier an earlier transaction
/// of the same walk had fails, whatever the two transactions hold; if nothing
/// failed before, it fails there with `DuplicatedTx`.
pub proof fn law_duplicate_rejected(
    prior: u64,
    transactions: Seq<TransactionView>,
    ids: Seq<Seq<u8>>,
    first: int,
    second: int,
    count: nat,
    claimer: Seq<u8>,
    ledger: LedgerSnapshotView,
)
    requires
        0 <= first < second < count,
        count <= ids.len(),
        ids[first] == ids[second],
    ensures
        walked(opening(prior), transactions, ids, count, claimer, ledger) is Err,
        second < MAX_TRANSACTIONS && walked(
            opening(prior),
            transactions,
            ids,
            second as nat,
            claimer,
            ledger,
        ) is Ok ==> walked(
            opening(prior),
            transactions,
            ids,
            count,
            claimer,
            ledger,
        ) == Err::<AccumulatorView, BlockError>(BlockError::Validation(Validation::DuplicatedTx)),
{
    let start = opening(prior);
    let before = walked(start, transactions, ids, second as nat, claimer, ledger);
    let at = walked(start, transactions, ids, (second + 1) as nat, claimer, ledger);
    if before is Ok {
        lemma_successful_walk(prior, transactions, ids, second as nat, claimer, ledger);
        assert(ids.take(second)[first] == ids[second]);
        assert(before->Ok_0.seen.contains(ids[second]));
        assert(at == applied(before->Ok_0, ids[second], transactions[second], claimer, ledger));
        lemma_walk_failure_is_final(
            start,
            transactions,
            ids,
            (second + 1) as nat,
            count,
            claimer,
            ledger,
        );
    } else {
        lemma_walk_failure_is_final(start, transactions, ids, second as nat, count, claimer, ledger);
    }
}

/// A block in which two transactions have the same identifier is rejected.
/// Two transactions of one block with the same content are such a pair.
pub proof fn law_duplicate_in_block_rejected(
    block: SignedBlockView,
    prior: u64,
    ledger: LedgerSnapshotView,
    first: int,
    second: int,
)
    requires
        block.data is Some,
        0 <= first < second < block.data->0.transactions.len(),
        block.data->0.transactions[first].id(block.data->0.id())
            == block.data->0.transactions[second].id(block.data->0.id())
            || block.data->0.transactions[first] == block.data->0.transactions[second],
    ensures
        balance_outcome(block, prior, ledger) is Err,
{
    let data = block.data->0;
    if data.transactions.len() <= MAX_TRANSACTIONS {
        law_duplicate_rejected(
            prior,
            data.transactions,
            transaction_ids(data.transactions, data.id()),
            first,
            second,
            data.transactions.len(),
            account_address(block.public_key),
            ledger,
        );
    }
}

/// A block of 256 or more transactions fails the transaction check with
/// `TooManyTransactions`, and no ledger makes it valid.
pub proof fn law_too_many_transactions(
    block: SignedBlockView,
    prev: SignedBlockView,
    prior: u64,
    ledger: LedgerSnapshotView,
)
    requires
        block.data is Some,
        block.data->0.transactions.len() > MAX_TRANSACTIONS,
    ensures
        balance_outcome(block, prior, ledger) == Err::<(), BlockError>(
            BlockError::Validation(Validation::TooManyTransactions),
        ),
        prev.data is Some ==> transactions_outcome(block, prev, ledger) == Err::<(), BlockError>(
            BlockError::Validation(Validation::TooManyTransactions),
        ),
        validate_outcome(block, ledger) is Err,
{
}

/// A claim that names a stored send addressed to another account fails with
/// `TxValidationError`; one that names a stored transaction with another
/// payload fails with `MissmatchedTx`.
pub proof fn law_claim_of_foreign_or_other_transaction(
    claim: TxClaimView,
    claimer: Seq<u8>,
    ledger: LedgerSnapshotView,
)
    requires
        claim.transaction_id.len() == ID_LENGTH,
        ledger.transaction(claim.transaction_id) is Some,
        ledger.transaction(claim.transaction_id)->0.data is Some,
    ensures
        ({
            let stored = ledger.transaction(claim.transaction_id)->0.data->0;
            let credit = claim_credit(claim, claimer, ledger);
            &&& stored is TxSend && stored->TxSend_0.receiver != claimer ==> credit == Err::<
                int,
                BlockError,
            >(BlockError::Validation(Validation::TxValidationError))
            &&& stored is TxSend && stored->TxSend_0.receiver == claimer ==> credit == Ok::<
                int,
                BlockError,
            >(stored->TxSend_0.amount as int)
            &&& !(stored is TxSend) ==> credit == Err::<int, BlockError>(
                BlockError::Validation(Validation::MissmatchedTx),
            )
        }),
{
}

/// Two ledgers agree on every stored transaction that the claims among
/// `transactions` name.
pub open spec fn agree_on_claims(
    transactions: Seq<TransactionView>,
    a: LedgerSnapshotView,
    b: LedgerSnapshotView,
) -> bool {
    forall|id: Seq<u8>| #[trigger]
        claim_references(transactions).contains(id) ==> a.transaction(id) == b.transaction(id)
}

/// The well-formed reference of a claim among `transactions` is one of their
/// claim references.
pub proof fn lemma_reference_listed(transactions: Seq<TransactionView>, at: int)
    requires
        0 <= at < transactions.len(),
        transactions[at].data is Some,
        transactions[at].data->0 is TxCollect,
        transactions[at].data->0->TxCollect_0.transaction_id.len() == ID_LENGTH,
    ensures
        claim_references(transactions).contains(
            transactions[at].data->0->TxCollect_0.transaction_id,
        ),
    decreases transactions.len(),
{
    let reference = transactions[at].data->0->TxCollect_0.transaction_id;
    let earlier = claim_references(transactions.drop_last());
    if at == transactions.len() - 1 {
        assert(earlier.push(reference).last() == reference);
    } else {
        lemma_reference_listed(transactions.drop_last(), at);
        let found = choose|i: int| 0 <= i < earlier.len() && earlier[i] == reference;
        assert(claim_references(transactions)[found] == reference);
    }
}

/// Walks over the same transactions agree for two ledgers that agree on the
/// transactions' claims.
pub proof fn lemma_walk_agrees(
    start: AccumulatorView,
    transactions: Seq<TransactionView>,
    ids: Seq<Seq<u8>>,
    count: nat,
    claimer: Seq<u8>,
    a: LedgerSnapshotView,
    b: LedgerSnapshotView,
)
    requires
        count <= transactions.len(),
        agree_on_claims(transactions, a, b),
    ensures
        walked(start, transactions, ids, count, claimer, a) == walked(
            start,
            transactions,
            ids,
            count,
            claimer,
            b,
        ),
    decreases count,
{
    if count > 0 {
        lemma_walk_agrees(start, transactions, ids, (count - 1) as nat, claimer, a, b);
        let transaction = transactions[count - 1];
        if transaction.data is Some && transaction.data->0 is TxCollect
            && transaction.data->0->TxCollect_0.transaction_id.len() == ID_LENGTH {
            lemma_reference_listed(transactions, count - 1);
        }
        assert(effect(transaction, claimer, a) == effect(transaction, claimer, b));
    }
}

/// The verdict on a block depends on the ledger through the account, the
/// head and the stored transactions that the block's claims name, and
/// through nothing else: two ledgers that agree on these give the same
/// verdict.
pub proof fn law_claimed_transactions_suffice(
    block: SignedBlockView,
    a: LedgerSnapshotView,
    b: LedgerSnapshotView,
)
    requires
        a.account == b.account,
        a.head == b.head,
        block.data is Some ==> agree_on_claims(block.data->0.transactions, a, b),
    ensures
        validate_outcome(block, a) == validate_outcome(block, b),
{
    if block.data is Some {
        let data = block.data->0;
        if data.transactions.len() <= MAX_TRANSACTIONS {
            let ids = transaction_ids(data.transactions, data.id());
            let claimer = account_address(block.public_key);
            assert forall|prior: u64|
                walked(
                    opening(prior),
                    data.transactions,
                    ids,
                    data.transactions.len(),
                    claimer,
                    a,
                ) == #[trigger] walked(
                    opening(prior),
                    data.transactions,
                    ids,
                    data.transactions.len(),
                    claimer,
                    b,
                ) by {
                lemma_walk_agrees(
                    opening(prior),
                    data.transactions,
                    ids,
                    data.transactions.len(),
                    claimer,
                    a,
                    b,
                );
            }
        }
    }
}

/// Two blocks whose data encode to the same bytes have the same identifier.
pub proof fn law_block_id_follows_encoding(a: BlockDataView, b: BlockDataView)
    requires
        a.encoding() == b.encoding(),
    ensures
        a.id() == b.id(),
{
}

} // verus!

//! Blocks and transactions of an account chain, their mathematical views,
//! their canonical encoding and the identifiers derived from it.

use crate::crypto::hash::{sha3_256, sha3_256_digest};
use crate::proto::wire::{
    bytes_field, int32_field, message_field, put_bytes, put_int32, put_message, put_raw,
    put_uint64, uint64_field,
};
use vstd::prelude::*;

verus! {

/// Identifies an account; derived from the account's public key.
pub type AccountID = [u8; 24];

/// Identifies a block; the digest of the block's encoded data.
pub type BlockID = [u8; 32];

/// Identifies a transaction inside one particular block.
pub type TransactionID = [u8; 32];

/// Moves `amount` out of the sender's balance, to be claimed by `receiver`.
#[derive(Clone, Debug, PartialEq, Eq)]
pub struct TxSend {
    pub receiver: Vec<u8>,
    pub amount: u64,
    pub data: Vec<u8>,
}

/// Claims the value of an earlier send, named by its transaction id.
#[derive(Clone, Debug, PartialEq, Eq)]
pub struct TxClaim {
    pub transaction_id: Vec<u8>,
}

/// Names the account that votes on the sender's behalf.
#[derive(Clone, Debug, PartialEq, Eq)]
pub struct TxDelegate {
    pub representative: Vec<u8>,
}

/// The payload of a transaction.
#[derive(Clone, Debug, PartialEq, Eq)]
pub enum Data {
    TxSend(TxSend),
    TxCollect(TxClaim),
    TxDelegate(TxDelegate),
}

/// One transaction of a block; a transaction may arrive without payload.
#[derive(Clone, Debug, PartialEq, Eq)]
pub struct Transaction {
    pub data: Option<Data>,
}

/// The signed part of a block.
#[derive(Clone, Debug, PartialEq, Eq)]
pub struct BlockData {
    pub version: i32,
    pub signature_type: i32,
    pub balance: u64,
    pub height: u64,
    pub previous: Vec<u8>,
    pub transactions: Vec<Transaction>,
}

/// A block as submitted: its data with the key that signed it.
#[derive(Clone, Debug, PartialEq, Eq)]
pub struct SignedBlock {
    pub signature: Vec<u8>,
    pub public_key: Vec<u8>,
    pub timestamp: u64,
    pub data: Option<BlockData>,
}

/// The mathematical view of [`TxSend`].
pub struct TxSendView {
    pub receiver: Seq<u8>,
    pub amount: u64,
    pub data: Seq<u8>,
}

/// The mathematical view of [`TxClaim`].
pub struct TxClaimView {
    pub transaction_id: Seq<u8>,
}

/// The mathematical view of [`TxDelegate`].
pub struct TxDelegateView {
    pub representative: Seq<u8>,
}

/// The mathematical view of [`Data`].
pub enum DataView {
    TxSend(TxSendView),
    TxCollect(TxClaimView),
    TxDelegate(TxDelegateView),
}

/// The mathematical view of [`Transaction`].
pub struct TransactionView {
    pub data: Option<DataView>,
}

/// The mathematical view of [`BlockData`].
pub struct BlockDataView {
    pub version: i32,
    pub signature_type: i32,
    pub balance: u64,
    pub height: u64,
    pub previous: Seq<u8>,
    pub transactions: Seq<TransactionView>,
}

/// The mathematical view of [`SignedBlock`].
pub struct SignedBlockView {
    pub signature: Seq<u8>,
    pub public_key: Seq<u8>,
    pub timestamp: u64,
    pub data: Option<BlockDataView>,
}

impl View for TxSend {
    type V = TxSendView;

    open spec fn view(&self) -> TxSendView {
        TxSendView { receiver: self.receiver@, amount: self.amount, data: self.data@ }
    }
}

impl View for TxClaim {
    type V = TxClaimView;

    open spec fn view(&self) -> TxClaimView {
        TxClaimView { transaction_id: self.transaction_id@ }
    }
}

impl View for TxDelegate {
    type V = TxDelegateView;

    open spec fn view(&self) -> TxDelegateView {
        TxDelegateView { representative: self.representative@ }
    }
}

impl View for Data {
    type V = DataView;

    open spec fn view(&self) -> DataView {
        match *self {
            Data::TxSend(send) => DataView::TxSend(send@),
            Data::TxCollect(claim) => DataView::TxCollect(claim@),
            Data::TxDelegate(delegate) => DataView::TxDelegate(delegate@),
        }
    }
}

impl View for Transaction {
    type V = TransactionView;

    open spec fn view(&self) -> TransactionView {
        TransactionView {
            data: match self.data {
                Some(data) => Some(data@),
                None => None,
            },
        }
    }
}

impl View for BlockData {
    type V = BlockDataView;

    open spec fn view(&self) -> BlockDataView {
        BlockDataView {
            version: self.version,
            signature_type: self.signature_type,
            balance: self.balance,
            height: self.height,
            previous: self.previous@,
            transactions: self.transactions@.map_values(|t: Transaction| t@),
        }
    }
}

impl View for SignedBlock {
    type V = SignedBlockView;

    open spec fn view(&self) -> SignedBlockView {
        SignedBlockView {
            signature: self.signature@,
            public_key: self.public_key@,
            timestamp: self.timestamp,
            data: match self.data {
                Some(data) => Some(data@),
                None => None,
            },
        }
    }
}

impl TxSendView {
    /// Fields in order: receiver (1), amount (2), data (3).
    pub open spec fn encoding(self) -> Seq<u8> {
        bytes_field(1, self.receiver) + uint64_field(2, self.amount as nat) + bytes_field(
            3,
            self.data,
        )
    }
}

impl TxClaimView {
    /// One field: transaction_id (1).
    pub open spec fn encoding(self) -> Seq<u8> {
        bytes_field(1, self.transaction_id)
    }
}

impl TxDelegateView {
    /// One field: representative (1).
    pub open spec fn encoding(self) -> Seq<u8> {
        bytes_field(1, self.representative)
    }
}

impl DataView {
    /// The payload as the one field of its transaction: a send under number
    /// 1, a claim under 2, a delegation under 3.
    pub open spec fn encoding(self) -> Seq<u8> {
        match self {
            DataView::TxSend(send) => message_field(1, send.encoding()),
            DataView::TxCollect(claim) => message_field(2, claim.encoding()),
            DataView::TxDelegate(delegate) => message_field(3, delegate.encoding()),
        }
    }
}

impl TransactionView {
    /// The payload field, or nothing for a transaction without payload.
    pub open spec fn encoding(self) -> Seq<u8> {
        match self.data {
            Some(data) => data.encoding(),
            None => Seq::empty(),
        }
    }

    /// The identifier of this transaction inside the block `block_id`: the
    /// digest of the transaction's encoding followed by the block's id.
    pub open spec fn id(self, block_id: Seq<u8>) -> Seq<u8> {
        sha3_256(self.encoding() + block_id)
    }
}

/// The transactions of a block, each an embedded message under number 6, in
/// block order.
pub open spec fn transactions_encoding(transactions: Seq<TransactionView>) -> Seq<u8>
    decreases transactions.len(),
{
    if transactions.len() == 0 {
        Seq::empty()
    } else {
        transactions_encoding(transactions.drop_last()) + message_field(
            6,
            transactions.last().encoding(),
        )
    }
}

impl BlockDataView {
    /// Fields in order: version (1), signature_type (2), balance (3),
    /// height (4), previous (5), transactions (6, repeated).
    pub open spec fn encoding(self) -> Seq<u8> {
        int32_field(1, self.version as int) + int32_field(2, self.signature_type as int)
            + uint64_field(3, self.balance as nat) + uint64_field(4, self.height as nat)
            + bytes_field(5, self.previous) + transactions_encoding(self.transactions)
    }

    /// The identifier of the block that carries this data: the digest of the
    /// data's encoding.
    pub open spec fn id(self) -> Seq<u8> {
        sha3_256(self.encoding())
    }
}

impl TxSend {
    /// Encodes this send in wire format.
    pub fn encode_to_vec(&self) -> (out: Vec<u8>)
        ensures
            out@ == self@.encoding(),
    {
        let mut out: Vec<u8> = Vec::new();
        put_bytes(&mut out, 1, self.receiver.as_slice());
        put_uint64(&mut out, 2, self.amount);
        put_bytes(&mut out, 3, self.data.as_slice());
        out
    }
}

impl TxClaim {
    /// Encodes this claim in wire format.
    pub fn encode_to_vec(&self) -> (out: Vec<u8>)
        ensures
            out@ == self@.encoding(),
    {
        let mut out: Vec<u8> = Vec::new();
        put_bytes(&mut out, 1, self.transaction_id.as_slice());
        out
    }
}

impl TxDelegate {
    /// Encodes this delegation in wire format.
    pub fn encode_to_vec(&self) -> (out: Vec<u8>)
        ensures
            out@ == self@.encoding(),
    {
        let mut out: Vec<u8> = Vec::new();
        put_bytes(&mut out, 1, self.representative.as_slice());
        out
    }
}

impl Transaction {
    /// Encodes this transaction in wire format.
    pub fn encode_to_vec(&self) -> (out: Vec<u8>)
        ensures
            out@ == self@.encoding(),
    {
        let mut out: Vec<u8> = Vec::new();
        match &self.data {
            Some(Data::TxSend(send)) => {
                let body = send.encode_to_vec();
                put_message(&mut out, 1, body.as_slice());
            },
            Some(Data::TxCollect(claim)) => {
                let body = claim.encode_to_vec();
                put_message(&mut out, 2, body.as_slice());
            },
            Some(Data::TxDelegate(delegate)) => {
                let body = delegate.encode_to_vec();
                put_message(&mut out, 3, body.as_slice());
            },
            None => {},
        }
        out
    }

    /// Computes the identifier of this transaction as part of the block
    /// `block_id`.
    pub fn get_id(&self, block_id: BlockID) -> (id: TransactionID)
        ensures
            id@ == self@.id(block_id@),
    {
        let mut content = self.encode_to_vec();
        put_raw(&mut content, block_id.as_slice());
        sha3_256_digest(content.as_slice())
    }
}

impl BlockData {
    /// Encodes this block data in wire format: the bytes that are signed and
    /// hashed.
    pub fn encode_to_vec(&self) -> (out: Vec<u8>)
        ensures
            out@ == self@.encoding(),
    {
        let mut out: Vec<u8> = Vec::new();
        put_int32(&mut out, 1, self.version);
        put_int32(&mut out, 2, self.signature_type);
        put_uint64(&mut out, 3, self.balance);
        put_uint64(&mut out, 4, self.height);
        put_bytes(&mut out, 5, self.previous.as_slice());
        let ghost head = out@;
        let mut i: usize = 0;
        while i < self.transactions.len()
            invariant
                i <= self.transactions@.len(),
                out@ == head + transactions_encoding(self@.transactions.take(i as int)),
            decreases self.transactions@.len() - i,
        {
            let body = self.transactions[i].encode_to_vec();
            proof {
                let next = self@.transactions.take(i + 1);
                assert(next.drop_last() == self@.transactions.take(i as int));
                assert(next.last() == self.transactions[i as int]@);
            }
            put_message(&mut out, 6, body.as_slice());
            i = i + 1;
        }
        assert(self@.transactions.take(i as int) == self@.transactions);
        out
    }

    /// Computes the identifier of the block that carries this data.
    pub fn get_id(&self) -> (id: BlockID)
        ensures
            id@ == self@.id(),
    {
        let content = self.encode_to_vec();
        sha3_256_digest(content.as_slice())
    }
}

impl SignedBlock {
    /// Computes the identifier of this block, or `None` if it has no data.
    pub fn get_id(&self) -> (id: Option<BlockID>)
        ensures
            match id {
                Some(id) => self@.data is Some && id@ == self@.data->0.id(),
                None => self@.data is None,
            },
    {
        match &self.data {
            Some(data) => Some(data.get_id()),
            None => None,
        }
    }
}

} // verus!

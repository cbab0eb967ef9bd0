//! The contents of a block as the transformer reads them, with their
//! mathematical models.

use crate::text::hex_lower;
use bitcoincore_rpc::bitcoin::{BlockHash, Txid};
use vstd::prelude::*;

verus! {

/// A transaction id or block hash as text: the bytes in reverse order, in
/// lower-case hexadecimal.
pub open spec fn hash_text(hash: Seq<u8>) -> Seq<char> {
    hex_lower(hash.reverse())
}

/// Writes a transaction id with the `Display` impl of `Txid`, which prints
/// the bytes in reverse order as lower-case hexadecimal.
#[verifier::external_body]
pub(crate) fn txid_to_text(txid: &[u8; 32]) -> (text: String)
    ensures
        text@ == hash_text(txid@),
{
    <Txid as bitcoincore_rpc::bitcoin::hashes::Hash>::from_byte_array(*txid).to_string()
}

/// Writes a block hash with the `Display` impl of `BlockHash`, which prints
/// the bytes in reverse order as lower-case hexadecimal.
#[verifier::external_body]
pub(crate) fn block_hash_to_text(hash: &[u8; 32]) -> (text: String)
    ensures
        text@ == hash_text(hash@),
{
    <BlockHash as bitcoincore_rpc::bitcoin::hashes::Hash>::from_byte_array(*hash).to_string()
}

/// A reference to an output of an earlier transaction.
#[derive(Clone, Copy, Debug)]
pub struct OutPoint {
    /// The id of the transaction that holds the output, in its internal byte order.
    pub txid: [u8; 32],
    /// The index of the output in that transaction.
    pub vout: u32,
}

/// Model of an [`OutPoint`].
pub struct OutPointView {
    pub txid: Seq<u8>,
    pub vout: u32,
}

/// An output: an amount under a locking script.
#[derive(Debug)]
pub struct TxOut {
    /// The amount, in indivisible base units.
    pub value: u64,
    /// The locking script.
    pub script_pubkey: Vec<u8>,
}

/// Model of a [`TxOut`].
pub struct TxOutView {
    pub value: u64,
    pub script_pubkey: Seq<u8>,
}

/// An input: the output it spends and the witness stack that unlocks it.
#[derive(Debug)]
pub struct TxIn {
    /// The output that this input spends.
    pub previous_output: OutPoint,
    /// The witness stack, bottom first.
    pub witness: Vec<Vec<u8>>,
}

/// Model of a [`TxIn`].
pub struct TxInView {
    pub previous_output: OutPointView,
    pub witness: Seq<Seq<u8>>,
}

/// A transaction with its id.
#[derive(Debug)]
pub struct Transaction {
    /// The id of this transaction, in its internal byte order.
    pub txid: [u8; 32],
    /// The inputs, in order.
    pub input: Vec<TxIn>,
    /// The outputs, in order.
    pub output: Vec<TxOut>,
}

/// Model of a [`Transaction`].
pub struct TransactionView {
    pub txid: Seq<u8>,
    pub input: Seq<TxInView>,
    pub output: Seq<TxOutView>,
}

/// A block: where it stands in the chain, and its transactions.
#[derive(Debug)]
pub struct Block {
    /// The block hash, in its internal byte order.
    pub hash: [u8; 32],
    /// The height of the block in the chain.
    pub height: i32,
    /// The time in the block header, in seconds since the Unix epoch.
    pub time: i64,
    /// The transactions, in block order; the first one issues new supply.
    pub txdata: Vec<Transaction>,
}

/// Model of a [`Block`].
pub struct BlockView {
    pub hash: Seq<u8>,
    pub height: i32,
    pub time: i64,
    pub txdata: Seq<TransactionView>,
}

impl View for OutPoint {
    type V = OutPointView;

    open spec fn view(&self) -> OutPointView {
        OutPointView { txid: self.txid@, vout: self.vout }
    }
}

impl DeepView for OutPoint {
    type V = OutPointView;

    open spec fn deep_view(&self) -> OutPointView {
        self@
    }
}

impl View for TxOut {
    type V = TxOutView;

    open spec fn view(&self) -> TxOutView {
        TxOutView { value: self.value, script_pubkey: self.script_pubkey@ }
    }
}

impl DeepView for TxOut {
    type V = TxOutView;

    open spec fn deep_view(&self) -> TxOutView {
        self@
    }
}

impl View for TxIn {
    type V = TxInView;

    open spec fn view(&self) -> TxInView {
        TxInView { previous_output: self.previous_output@, witness: self.witness.deep_view() }
    }
}

impl DeepView for TxIn {
    type V = TxInView;

    open spec fn deep_view(&self) -> TxInView {
        self@
    }
}

impl View for Transaction {
    type V = TransactionView;

    open spec fn view(&self) -> TransactionView {
        TransactionView {
            txid: self.txid@,
            input: self.input.deep_view(),
            output: self.output.deep_view(),
        }
    }
}

impl DeepView for Transaction {
    type V = TransactionView;

    open spec fn deep_view(&self) -> TransactionView {
        self@
    }
}

impl View for Block {
    type V = BlockView;

    open spec fn view(&self) -> BlockView {
        BlockView {
            hash: self.hash@,
            height: self.height,
            time: self.time,
            txdata: self.txdata.deep_view(),
        }
    }
}

impl DeepView for Block {
    type V = BlockView;

    open spec fn deep_view(&self) -> BlockView {
        self@
    }
}

impl OutPointView {
    /// The reference that stands for "no previous output": an id of zero
    /// bytes only, with the largest index.
    pub open spec fn is_null(self) -> bool {
        &&& self.vout == u32::MAX
        &&& forall|i: int| 0 <= i < self.txid.len() ==> self.txid[i] == 0
    }
}

impl OutPoint {
    /// Whether this reference stands for "no previous output".
    pub fn is_null(&self) -> (b: bool)
        ensures
            b == self@.is_null(),
    {
        if self.vout != u32::MAX {
            return false;
        }
        let mut i: usize = 0;
        while i < 32
            invariant
                i <= 32,
                self.txid@.len() == 32,
                forall|j: int| 0 <= j < i ==> self.txid@[j] == 0,
            decreases 32 - i,
        {
            if self.txid[i] != 0 {
                assert(self@.txid[i as int] != 0);
                return false;
            }
            i += 1;
        }
        true
    }
}

} // verus!

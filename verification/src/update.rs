//! The change records that are delivered for a block.

use vstd::prelude::*;

verus! {

/// One change to the set of unspent outputs: an output that a block creates,
/// or one that it spends.
#[derive(Debug)]
pub struct UtxoUpdate {
    /// Transaction id and output index, joined by a colon.
    pub id: String,
    /// The address that the output pays to.
    pub address: String,
    /// The public key that the spending input revealed, if any.
    pub public_key: Option<String>,
    /// The id of the transaction that holds the output.
    pub txid: String,
    /// The index of the output in its transaction.
    pub vout: i32,
    /// The amount, in indivisible base units.
    pub amount: i64,
    /// The locking script, in hexadecimal.
    pub script_pub_key: String,
    /// The tag of the locking script.
    pub script_type: String,
    /// The time of the block that reports the output.
    pub created_at: i64,
    /// The height of the block that reports the output.
    pub block_height: i32,
    /// The id of the spending transaction; `None` for a created output.
    pub spent_txid: Option<String>,
    /// The time of the spending block; `None` for a created output.
    pub spent_at: Option<i64>,
    /// The height of the spending block; `None` for a created output.
    pub spent_block: Option<i32>,
}

/// Model of a [`UtxoUpdate`].
pub struct UtxoUpdateView {
    pub id: Seq<char>,
    pub address: Seq<char>,
    pub public_key: Option<Seq<char>>,
    pub txid: Seq<char>,
    pub vout: i32,
    pub amount: i64,
    pub script_pub_key: Seq<char>,
    pub script_type: Seq<char>,
    pub created_at: i64,
    pub block_height: i32,
    pub spent_txid: Option<Seq<char>>,
    pub spent_at: Option<i64>,
    pub spent_block: Option<i32>,
}

/// All changes that one block makes, in order.
#[derive(Debug)]
pub struct BlockUpdate {
    /// The height of the block.
    pub height: i32,
    /// The block hash as text.
    pub hash: String,
    /// The time in the block header, in seconds since the Unix epoch.
    pub timestamp: i64,
    /// The changes, in the order in which the block makes them.
    pub utxo_updates: Vec<UtxoUpdate>,
}

/// Model of a [`BlockUpdate`].
pub struct BlockUpdateView {
    pub height: i32,
    pub hash: Seq<char>,
    pub timestamp: i64,
    pub utxo_updates: Seq<UtxoUpdateView>,
}

impl View for UtxoUpdate {
    type V = UtxoUpdateView;

    open spec fn view(&self) -> UtxoUpdateView {
        UtxoUpdateView {
            id: self.id@,
            address: self.address@,
            public_key: self.public_key.deep_view(),
            txid: self.txid@,
            vout: self.vout,
            amount: self.amount,
            script_pub_key: self.script_pub_key@,
            script_type: self.script_type@,
            created_at: self.created_at,
            block_height: self.block_height,
            spent_txid: self.spent_txid.deep_view(),
            spent_at: self.spent_at,
            spent_block: self.spent_block,
        }
    }
}

impl DeepView for UtxoUpdate {
    type V = UtxoUpdateView;

    open spec fn deep_view(&self) -> UtxoUpdateView {
        self@
    }
}

impl View for BlockUpdate {
    type V = BlockUpdateView;

    open spec fn view(&self) -> BlockUpdateView {
        BlockUpdateView {
            height: self.height,
            hash: self.hash@,
            timestamp: self.timestamp,
            utxo_updates: self.utxo_updates.deep_view(),
        }
    }
}

impl DeepView for BlockUpdate {
    type V = BlockUpdateView;

    open spec fn deep_view(&self) -> BlockUpdateView {
        self@
    }
}

impl UtxoUpdateView {
    /// The update reports a spent output: all three spend fields are set.
    pub open spec fn is_spend(self) -> bool {
        self.spent_txid is Some && self.spent_at is Some && self.spent_block is Some
    }

    /// The update reports a created output: no spend field is set.
    pub open spec fn is_creation(self) -> bool {
        self.spent_txid is None && self.spent_at is None && self.spent_block is None
    }
}

impl UtxoUpdate {
    /// Whether the update reports a spent output.
    pub fn is_spend(&self) -> (b: bool)
        ensures
            b == self@.is_spend(),
    {
        self.spent_txid.is_some() && self.spent_at.is_some() && self.spent_block.is_some()
    }
}

} // verus!

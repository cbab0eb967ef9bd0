//! The transformation of a block into its ordered change records.
//!
//! A block is transformed transaction by transaction: first one spend record
//! for every input that names a previous output, then one creation record
//! for every output. The previous outputs are not in the block: whenever one
//! is needed the transformation stops and hands out a [`Pending`], and goes
//! on when the caller has resolved the reference and resumes it.

use crate::address::{has_address, no_address_error, Network};
use crate::block::{
    block_hash_to_text, hash_text, Block, BlockView, OutPoint, OutPointView, TransactionView,
    TxInView, TxOut, TxOutView,
};
use crate::error::{IndexerError, IndexerErrorView};
use crate::indexer::BitcoinIndexer;
use crate::record::{build_creation, build_spend, creation_update, spend_update};
use crate::update::{BlockUpdate, BlockUpdateView, UtxoUpdate, UtxoUpdateView};
use chrono::{DateTime, Utc};
use vstd::prelude::*;

verus! {

/// Whether chrono can represent the instant `secs` seconds after the Unix
/// epoch as a UTC date and time.
pub uninterp spec fn utc_representable(secs: int) -> bool;

/// Calls `DateTime::<Utc>::from_timestamp` with no nanoseconds, which
/// returns a value unless the seconds are out of its range, and says whether
/// it returned one.
#[verifier::external_body]
fn is_utc_timestamp(secs: i64) -> (ok: bool)
    ensures
        ok == utc_representable(secs as int),
{
    match DateTime::<Utc>::from_timestamp(secs, 0) {
        Some(_) => true,
        None => false,
    }
}

/// A transformation that waits for a previous output to be resolved.
#[derive(Debug)]
pub struct Pending {
    block: Block,
    network: Network,
    tx_index: usize,
    input_index: usize,
    updates: Vec<UtxoUpdate>,
}

/// Model of a [`Pending`]: the block, the input whose previous output is
/// awaited, and the records made so far.
pub struct PendingView {
    pub block: BlockView,
    pub network: Network,
    pub tx_index: nat,
    pub input_index: nat,
    pub updates: Seq<UtxoUpdateView>,
}

/// Where the transformation of a block stands.
#[derive(Debug)]
pub enum Transform {
    /// The previous output that the pending transformation names must be
    /// resolved, and the transformation resumed with it.
    Resolve(Pending),
    /// The block is transformed.
    Done(BlockUpdate),
    /// The block cannot be transformed; nothing of it is to be delivered.
    Failed(IndexerError),
}

/// Model of a [`Transform`].
pub enum TransformView {
    Resolve(PendingView),
    Done(BlockUpdateView),
    Failed(IndexerErrorView),
}

impl PendingView {
    /// The transaction that holds the awaited input.
    pub open spec fn transaction(self) -> TransactionView {
        self.block.txdata[self.tx_index as int]
    }

    /// The input whose previous output is awaited.
    pub open spec fn input(self) -> TxInView {
        self.transaction().input[self.input_index as int]
    }

    /// The reference that is to be resolved.
    pub open spec fn outpoint(self) -> OutPointView {
        self.input().previous_output
    }

    /// The awaited input exists and names a previous output.
    pub open spec fn wf(self) -> bool {
        &&& self.tx_index < self.block.txdata.len()
        &&& self.input_index < self.transaction().input.len()
        &&& !self.outpoint().is_null()
    }
}

impl View for Pending {
    type V = PendingView;

    closed spec fn view(&self) -> PendingView {
        PendingView {
            block: self.block@,
            network: self.network,
            tx_index: self.tx_index as nat,
            input_index: self.input_index as nat,
            updates: self.updates.deep_view(),
        }
    }
}

impl View for Transform {
    type V = TransformView;

    open spec fn view(&self) -> TransformView {
        match self {
            Transform::Resolve(pending) => TransformView::Resolve(pending@),
            Transform::Done(update) => TransformView::Done(update@),
            Transform::Failed(e) => TransformView::Failed(e@),
        }
    }
}

/// Every output of the transaction can be recorded: it is the issuance, or
/// each locking script encodes an address.
pub open spec fn creations_resolve(tx: TransactionView, issuance: bool) -> bool {
    issuance || forall|i: int| 0 <= i < tx.output.len() ==> has_address(#[trigger] tx.output[i].script_pubkey)
}

/// The creation records of a transaction, one per output, in order.
pub open spec fn creation_updates(
    tx: TransactionView,
    issuance: bool,
    height: i32,
    time: i64,
    network: Network,
) -> Seq<UtxoUpdateView> {
    Seq::new(
        tx.output.len(),
        |i: int| creation_update(tx, i, issuance, height, time, network),
    )
}

/// The update for a block whose records are `updates`.
pub open spec fn block_update(block: BlockView, updates: Seq<UtxoUpdateView>) -> BlockUpdateView {
    BlockUpdateView {
        height: block.height,
        hash: hash_text(block.hash),
        timestamp: block.time,
        utxo_updates: updates,
    }
}

/// The transformation from input `j` of transaction `k` on, with `updates`
/// made so far, up to the next stop: an input that names a previous output,
/// an output without an address, or the end of the block. Inputs with the
/// null reference are passed over; a transaction's outputs follow its
/// inputs; the transaction at index 0 is the issuance.
pub open spec fn scan(
    block: BlockView,
    network: Network,
    k: nat,
    j: nat,
    updates: Seq<UtxoUpdateView>,
) -> TransformView
    decreases block.txdata.len() - k, block.txdata[k as int].input.len() + 1 - j,
{
    if k >= block.txdata.len() {
        TransformView::Done(block_update(block, updates))
    } else {
        let tx = block.txdata[k as int];
        if j < tx.input.len() {
            if tx.input[j as int].previous_output.is_null() {
                scan(block, network, k, j + 1, updates)
            } else {
                TransformView::Resolve(
                    PendingView { block, network, tx_index: k, input_index: j, updates },
                )
            }
        } else if creations_resolve(tx, k == 0) {
            scan(
                block,
                network,
                k + 1,
                0,
                updates + creation_updates(tx, k == 0, block.height, block.time, network),
            )
        } else {
            TransformView::Failed(no_address_error())
        }
    }
}

/// The transformation after the awaited previous output was resolved to
/// `prev`: it fails if `prev` has no address, else the spend record is made
/// and the transformation goes on behind the input.
pub open spec fn resume_spec(pending: PendingView, prev: TxOutView) -> TransformView {
    if has_address(prev.script_pubkey) {
        scan(
            pending.block,
            pending.network,
            pending.tx_index,
            pending.input_index + 1,
            pending.updates.push(
                spend_update(
                    pending.input(),
                    prev,
                    pending.transaction().txid,
                    pending.block.height,
                    pending.block.time,
                    pending.network,
                ),
            ),
        )
    } else {
        TransformView::Failed(no_address_error())
    }
}

/// The records of a vector, after one more was pushed.
proof fn lemma_deep_view_push(before: Vec<UtxoUpdate>, after: Vec<UtxoUpdate>, update: UtxoUpdate)
    requires
        after@ == before@.push(update),
    ensures
        after.deep_view() == before.deep_view().push(update@),
{
    assert(after.deep_view() =~= before.deep_view().push(update@));
}

/// Runs the transformation from input `j` of transaction `k` up to its
/// next stop.
fn run_scan(
    block: Block,
    network: Network,
    first_tx: usize,
    first_input: usize,
    made: Vec<UtxoUpdate>,
) -> (next: Transform)
    ensures
        next@ == scan(block@, network, first_tx as nat, first_input as nat, made.deep_view()),
        next matches Transform::Resolve(pending) ==> pending@.wf(),
{
    let ghost target = scan(
        block@,
        network,
        first_tx as nat,
        first_input as nat,
        made.deep_view(),
    );
    let mut k: usize = first_tx;
    let mut j: usize = first_input;
    let mut updates = made;
    while k < block.txdata.len()
        invariant
            target == scan(block@, network, first_tx as nat, first_input as nat, made.deep_view()),
            scan(block@, network, k as nat, j as nat, updates.deep_view()) == target,
        decreases block.txdata.len() - k,
    {
        assert(block@.txdata[k as int] == block.txdata@[k as int]@);
        let ghost tx = block@.txdata[k as int];
        while j < block.txdata[k].input.len()
            invariant
                k < block.txdata.len(),
                tx == block@.txdata[k as int],
                tx == block.txdata@[k as int]@,
                target == scan(
                    block@,
                    network,
                    first_tx as nat,
                    first_input as nat,
                    made.deep_view(),
                ),
                scan(block@, network, k as nat, j as nat, updates.deep_view()) == target,
            decreases block.txdata[k as int].input.len() - j,
        {
            assert(tx.input[j as int] == block.txdata@[k as int].input@[j as int]@);
            if !block.txdata[k].input[j].previous_output.is_null() {
                let pending = Pending { block, network, tx_index: k, input_index: j, updates };
                return Transform::Resolve(pending);
            }
            j += 1;
        }
        let issuance: bool = k == 0;
        let ghost base = updates.deep_view();
        let mut i: usize = 0;
        while i < block.txdata[k].output.len()
            invariant
                k < block.txdata.len(),
                tx == block@.txdata[k as int],
                tx == block.txdata@[k as int]@,
                issuance == (k == 0),
                j >= tx.input.len(),
                i <= tx.output.len(),
                target == scan(
                    block@,
                    network,
                    first_tx as nat,
                    first_input as nat,
                    made.deep_view(),
                ),
                scan(block@, network, k as nat, j as nat, base) == target,
                issuance || forall|n: int| 0 <= n < i ==> has_address(#[trigger] tx.output[n].script_pubkey),
                updates.deep_view() == base + creation_updates(
                    tx,
                    issuance,
                    block.height,
                    block.time,
                    network,
                ).take(i as int),
            decreases block.txdata[k as int].output.len() - i,
        {
            let ghost before = updates;
            match build_creation(
                &block.txdata[k],
                i,
                issuance,
                block.height,
                block.time,
                network,
            ) {
                Ok(update) => {
                    updates.push(update);
                    proof {
                        lemma_deep_view_push(before, updates, update);
                        let all = creation_updates(tx, issuance, block.height, block.time, network);
                        assert(all.take(i + 1) =~= all.take(i as int).push(all[i as int]));
                        assert(updates.deep_view() =~= base + all.take(i + 1));
                    }
                },
                Err(e) => {
                    assert(!has_address(tx.output[i as int].script_pubkey));
                    assert(!creations_resolve(tx, issuance));
                    return Transform::Failed(e);
                },
            }
            i += 1;
        }
        proof {
            let all = creation_updates(tx, issuance, block.height, block.time, network);
            assert(all.take(i as int) =~= all);
            assert(creations_resolve(tx, issuance));
        }
        k += 1;
        j = 0;
    }
    Transform::Done(
        BlockUpdate {
            height: block.height,
            hash: block_hash_to_text(&block.hash),
            timestamp: block.time,
            utxo_updates: updates,
        },
    )
}

impl Pending {
    /// The awaited input exists and names a previous output.
    #[verifier::type_invariant]
    spec fn well_formed(&self) -> bool {
        self@.wf()
    }

    /// The reference that is to be resolved before the transformation can
    /// be resumed.
    pub fn outpoint(&self) -> (outpoint: OutPoint)
        ensures
            self@.wf(),
            outpoint@ == self@.outpoint(),
    {
        proof {
            use_type_invariant(self);
        }
        assert(self@.transaction() == self.block.txdata@[self.tx_index as int]@);
        assert(self@.input() == self.block.txdata@[self.tx_index as int].input@[self.input_index as int]@);
        self.block.txdata[self.tx_index].input[self.input_index].previous_output
    }

    /// Goes on with `prev`, the output that the awaited reference resolves
    /// to: makes the spend record, then runs up to the next stop.
    pub fn resume(self, prev: TxOut) -> (next: Transform)
        ensures
            self@.wf(),
            next@ == resume_spec(self@, prev@),
            next matches Transform::Resolve(pending) ==> pending@.wf(),
    {
        proof {
            use_type_invariant(&self);
        }
        assert(self@.transaction() == self.block.txdata@[self.tx_index as int]@);
        assert(self@.input() == self.block.txdata@[self.tx_index as int].input@[self.input_index as int]@);
        let built = build_spend(
            &self.block.txdata[self.tx_index].input[self.input_index],
            &prev,
            &self.block.txdata[self.tx_index].txid,
            self.block.height,
            self.block.time,
            self.network,
        );
        let inputs: usize = self.block.txdata[self.tx_index].input.len();
        match built {
            Ok(update) => {
                let Pending { block, network, tx_index, input_index, updates } = self;
                assert(input_index < inputs);
                let mut updates = updates;
                let ghost before = updates;
                updates.push(update);
                proof {
                    lemma_deep_view_push(before, updates, update);
                }
                run_scan(block, network, tx_index, input_index + 1, updates)
            },
            Err(e) => Transform::Failed(e),
        }
    }
}

/// What the transformation of a block starts with: a failure if the header
/// time cannot be represented, else the run up to the first stop.
pub open spec fn get_block_data_spec(block: BlockView, network: Network) -> TransformView {
    if utc_representable(block.time as int) {
        scan(block, network, 0, 0, Seq::empty())
    } else {
        TransformView::Failed(IndexerErrorView::InvalidTimestamp)
    }
}

impl BitcoinIndexer {
    /// Starts the transformation of the transactions of `block` and runs it
    /// up to its first stop.
    pub fn process_transactions(&self, block: Block) -> (next: Transform)
        ensures
            next@ == scan(block@, self@.network, 0, 0, Seq::empty()),
            next matches Transform::Resolve(pending) ==> pending@.wf(),
    {
        let made: Vec<UtxoUpdate> = Vec::new();
        assert(made.deep_view() =~= Seq::empty());
        run_scan(block, self.network(), 0, 0, made)
    }

    /// Starts the transformation of `block` into its update. A block whose
    /// header time cannot be represented as a UTC instant fails with
    /// `InvalidTimestamp` before any transaction is looked at.
    pub fn get_block_data(&self, block: Block) -> (next: Transform)
        ensures
            next@ == get_block_data_spec(block@, self@.network),
            next matches Transform::Resolve(pending) ==> pending@.wf(),
    {
        if !is_utc_timestamp(block.time) {
            return Transform::Failed(IndexerError::InvalidTimestamp);
        }
        self.process_transactions(block)
    }
}

} // verus!

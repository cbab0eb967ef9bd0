//! What the transformation of a block comes to, stated without the stops:
//! the records of a block as a function of the block and of the answers of
//! the chain-data provider, and the laws that tie the stepwise
//! transformation to it.
//!
//! The provider is modelled by `lookup`, which gives the output that each
//! reference resolves to.

use crate::address::{has_address, no_address_error, Network};
use crate::block::{hash_text, BlockView, OutPointView, TransactionView, TxOutView};
use crate::error::IndexerErrorView;
use crate::text::{decimal, lemma_decimal_is_injective, lemma_hex_is_injective};
use crate::record::{creation_update, output_id, spend_update};
use crate::transform::{
    block_update, creation_updates, creations_resolve, resume_spec, scan, PendingView,
    TransformView,
};
use crate::update::{BlockUpdateView, UtxoUpdateView};
use vstd::prelude::*;

verus! {

/// The spend records of the inputs of `tx` from index `from` on, in order:
/// one for each input that names a previous output.
pub open spec fn spend_updates_from(
    tx: TransactionView,
    from: nat,
    height: i32,
    time: i64,
    network: Network,
    lookup: spec_fn(OutPointView) -> TxOutView,
) -> Seq<UtxoUpdateView>
    decreases tx.input.len() - from,
{
    if from >= tx.input.len() {
        Seq::empty()
    } else {
        let input = tx.input[from as int];
        let rest = spend_updates_from(tx, from + 1, height, time, network, lookup);
        if input.previous_output.is_null() {
            rest
        } else {
            seq![spend_update(input, lookup(input.previous_output), tx.txid, height, time, network)]
                + rest
        }
    }
}

/// Every previous output that the inputs of `tx` name, from index `from`
/// on, has an address.
pub open spec fn spends_resolve_from(
    tx: TransactionView,
    from: nat,
    lookup: spec_fn(OutPointView) -> TxOutView,
) -> bool {
    forall|j: int|
        from <= j < tx.input.len() && !(#[trigger] tx.input[j]).previous_output.is_null()
            ==> has_address(lookup(tx.input[j].previous_output).script_pubkey)
}

/// The records of one transaction: its spend records, then its creation
/// records.
pub open spec fn transaction_updates(
    tx: TransactionView,
    issuance: bool,
    height: i32,
    time: i64,
    network: Network,
    lookup: spec_fn(OutPointView) -> TxOutView,
) -> Seq<UtxoUpdateView> {
    spend_updates_from(tx, 0, height, time, network, lookup) + creation_updates(
        tx,
        issuance,
        height,
        time,
        network,
    )
}

/// Every record of the transaction can be made.
pub open spec fn transaction_resolves(
    tx: TransactionView,
    issuance: bool,
    lookup: spec_fn(OutPointView) -> TxOutView,
) -> bool {
    spends_resolve_from(tx, 0, lookup) && creations_resolve(tx, issuance)
}

/// The records of the transactions of `block` from index `from` on, in
/// block order. The transaction at index 0 is the issuance.
pub open spec fn block_updates_from(
    block: BlockView,
    from: nat,
    network: Network,
    lookup: spec_fn(OutPointView) -> TxOutView,
) -> Seq<UtxoUpdateView>
    decreases block.txdata.len() - from,
{
    if from >= block.txdata.len() {
        Seq::empty()
    } else {
        transaction_updates(
            block.txdata[from as int],
            from == 0,
            block.height,
            block.time,
            network,
            lookup,
        ) + block_updates_from(block, from + 1, network, lookup)
    }
}

/// Every record of the transactions of `block` from index `from` on can be
/// made.
pub open spec fn block_resolves_from(
    block: BlockView,
    from: nat,
    lookup: spec_fn(OutPointView) -> TxOutView,
) -> bool {
    forall|k: int|
        from <= k < block.txdata.len() ==> transaction_resolves(
            #[trigger] block.txdata[k],
            k == 0,
            lookup,
        )
}

/// The update for a block: all records of all its transactions, if every
/// one can be made; else the block fails as a whole.
pub open spec fn transform_spec(
    block: BlockView,
    network: Network,
    lookup: spec_fn(OutPointView) -> TxOutView,
) -> Result<BlockUpdateView, IndexerErrorView> {
    if block_resolves_from(block, 0, lookup) {
        Ok(block_update(block, block_updates_from(block, 0, network, lookup)))
    } else {
        Err(no_address_error())
    }
}

/// The records that are still to be made from input `j` of transaction `k`
/// on.
pub open spec fn rest_updates(
    block: BlockView,
    network: Network,
    k: nat,
    j: nat,
    lookup: spec_fn(OutPointView) -> TxOutView,
) -> Seq<UtxoUpdateView> {
    if k >= block.txdata.len() {
        Seq::empty()
    } else {
        let tx = block.txdata[k as int];
        spend_updates_from(tx, j, block.height, block.time, network, lookup) + creation_updates(
            tx,
            k == 0,
            block.height,
            block.time,
            network,
        ) + block_updates_from(block, k + 1, network, lookup)
    }
}

/// Every record from input `j` of transaction `k` on can be made.
pub open spec fn rest_resolves(
    block: BlockView,
    k: nat,
    j: nat,
    lookup: spec_fn(OutPointView) -> TxOutView,
) -> bool {
    k >= block.txdata.len() || {
        &&& spends_resolve_from(block.txdata[k as int], j, lookup)
        &&& creations_resolve(block.txdata[k as int], k == 0)
        &&& block_resolves_from(block, k + 1, lookup)
    }
}

/// What a transformation that stands at input `j` of transaction `k`, with
/// `updates` made, comes to when the provider answers by `lookup`.
pub open spec fn outcome_from(
    block: BlockView,
    network: Network,
    k: nat,
    j: nat,
    updates: Seq<UtxoUpdateView>,
    lookup: spec_fn(OutPointView) -> TxOutView,
) -> Result<BlockUpdateView, IndexerErrorView> {
    if rest_resolves(block, k, j, lookup) {
        Ok(block_update(block, updates + rest_updates(block, network, k, j, lookup)))
    } else {
        Err(no_address_error())
    }
}

/// What a transformation comes to when the provider answers by `lookup`:
/// a finished one to what it holds, a pending one to the records made so
/// far followed by those still to be made.
pub open spec fn outcome(state: TransformView, lookup: spec_fn(OutPointView) -> TxOutView) -> Result<
    BlockUpdateView,
    IndexerErrorView,
> {
    match state {
        TransformView::Done(update) => Ok(update),
        TransformView::Failed(e) => Err(e),
        TransformView::Resolve(pending) => outcome_from(
            pending.block,
            pending.network,
            pending.tx_index,
            pending.input_index,
            pending.updates,
            lookup,
        ),
    }
}

/// Running on from any place up to the next stop does not change what the
/// transformation comes to.
pub proof fn lemma_scan_keeps_outcome(
    block: BlockView,
    network: Network,
    k: nat,
    j: nat,
    updates: Seq<UtxoUpdateView>,
    lookup: spec_fn(OutPointView) -> TxOutView,
)
    ensures
        outcome(scan(block, network, k, j, updates), lookup) == outcome_from(
            block,
            network,
            k,
            j,
            updates,
            lookup,
        ),
    decreases block.txdata.len() - k, block.txdata[k as int].input.len() + 1 - j,
{
    if k >= block.txdata.len() {
        assert(updates + rest_updates(block, network, k, j, lookup) =~= updates);
    } else {
        let tx = block.txdata[k as int];
        let (height, time) = (block.height, block.time);
        if j < tx.input.len() {
            if tx.input[j as int].previous_output.is_null() {
                lemma_scan_keeps_outcome(block, network, k, j + 1, updates, lookup);
                assert(spends_resolve_from(tx, j, lookup) == spends_resolve_from(
                    tx,
                    j + 1,
                    lookup,
                ));
            }
        } else {
            let made = creation_updates(tx, k == 0, height, time, network);
            assert(spend_updates_from(tx, j, height, time, network, lookup) =~= Seq::empty());
            if creations_resolve(tx, k == 0) {
                lemma_scan_keeps_outcome(block, network, k + 1, 0, updates + made, lookup);
                lemma_block_from_is_rest(block, network, k + 1, lookup);
                assert((updates + made) + rest_updates(block, network, k + 1, 0, lookup)
                    =~= updates + rest_updates(block, network, k, j, lookup));
            }
        }
    }
}

/// The records and the resolvability of a block from transaction `k` on are
/// those of the rest when no input of `k` has been looked at.
proof fn lemma_block_from_is_rest(
    block: BlockView,
    network: Network,
    k: nat,
    lookup: spec_fn(OutPointView) -> TxOutView,
)
    ensures
        rest_updates(block, network, k, 0, lookup) == block_updates_from(block, k, network, lookup),
        rest_resolves(block, k, 0, lookup) == block_resolves_from(block, k, lookup),
{
    if k < block.txdata.len() {
        let tx = block.txdata[k as int];
        assert(rest_updates(block, network, k, 0, lookup) =~= block_updates_from(
            block,
            k,
            network,
            lookup,
        ));
        if block_resolves_from(block, k, lookup) {
            assert(transaction_resolves(block.txdata[k as int], k == 0, lookup));
            assert(block_resolves_from(block, k + 1, lookup));
        }
        if rest_resolves(block, k, 0, lookup) {
            assert(block_resolves_from(block, k, lookup)) by {
                assert forall|m: int| k <= m < block.txdata.len() implies transaction_resolves(
                    #[trigger] block.txdata[m],
                    m == 0,
                    lookup,
                ) by {
                    if m > k {
                        assert(block_resolves_from(block, k + 1, lookup));
                    }
                }
            }
        }
    }
}

/// A transformation that is started on a block comes to the update of the
/// block, as a function of the block and of the provider's answers alone.
/// So two transformations of one block give the same records, as long as
/// the provider answers alike.
pub proof fn lemma_start_comes_to_transform(
    block: BlockView,
    network: Network,
    lookup: spec_fn(OutPointView) -> TxOutView,
)
    ensures
        outcome(scan(block, network, 0, 0, Seq::empty()), lookup) == transform_spec(
            block,
            network,
            lookup,
        ),
{
    lemma_scan_keeps_outcome(block, network, 0, 0, Seq::empty(), lookup);
    lemma_block_from_is_rest(block, network, 0, lookup);
    assert(Seq::<UtxoUpdateView>::empty() + rest_updates(block, network, 0, 0, lookup)
        =~= rest_updates(block, network, 0, 0, lookup));
}

/// Resuming a pending transformation with the provider's answer does not
/// change what it comes to.
pub proof fn lemma_resume_keeps_outcome(
    pending: PendingView,
    lookup: spec_fn(OutPointView) -> TxOutView,
)
    requires
        pending.wf(),
    ensures
        outcome(resume_spec(pending, lookup(pending.outpoint())), lookup) == outcome(
            TransformView::Resolve(pending),
            lookup,
        ),
{
    let PendingView { block, network, tx_index: k, input_index: j, updates } = pending;
    let tx = block.txdata[k as int];
    let prev = lookup(pending.outpoint());
    let record = spend_update(pending.input(), prev, tx.txid, block.height, block.time, network);
    if has_address(prev.script_pubkey) {
        lemma_scan_keeps_outcome(block, network, k, j + 1, updates.push(record), lookup);
        assert(spends_resolve_from(tx, j, lookup) == spends_resolve_from(tx, j + 1, lookup)) by {
            if spends_resolve_from(tx, j + 1, lookup) {
                assert forall|n: int|
                    j <= n < tx.input.len() && !(#[trigger] tx.input[n]).previous_output.is_null()
                    implies has_address(lookup(tx.input[n].previous_output).script_pubkey) by {
                    if n > j {
                        assert(j + 1 <= n);
                    }
                }
            }
        }
        assert(updates.push(record) + rest_updates(block, network, k, j + 1, lookup) =~= updates
            + rest_updates(block, network, k, j, lookup));
    } else {
        assert(!spends_resolve_from(tx, j, lookup)) by {
            assert(!tx.input[j as int].previous_output.is_null());
        }
    }
}

/// The number of records of the transactions of `block` with indices from
/// `from` up to, not including, `to`.
pub open spec fn record_count_between(
    block: BlockView,
    from: nat,
    to: nat,
    network: Network,
    lookup: spec_fn(OutPointView) -> TxOutView,
) -> nat
    decreases to - from,
{
    if from >= to {
        0
    } else {
        transaction_updates(
            block.txdata[from as int],
            from == 0,
            block.height,
            block.time,
            network,
            lookup,
        ).len() + record_count_between(block, from + 1, to, network, lookup)
    }
}

/// Every record in the spend records of a transaction is a spend by that
/// transaction in this block.
proof fn lemma_spend_records_are_spends(
    tx: TransactionView,
    from: nat,
    height: i32,
    time: i64,
    network: Network,
    lookup: spec_fn(OutPointView) -> TxOutView,
)
    ensures
        forall|i: int|
            0 <= i < spend_updates_from(tx, from, height, time, network, lookup).len() ==> {
                let record = #[trigger] spend_updates_from(tx, from, height, time, network, lookup)[i];
                &&& record.is_spend()
                &&& record.spent_txid == Some(hash_text(tx.txid))
                &&& record.spent_at == Some(time)
                &&& record.spent_block == Some(height)
            },
    decreases tx.input.len() - from,
{
    if from < tx.input.len() {
        lemma_spend_records_are_spends(tx, from + 1, height, time, network, lookup);
    }
}

/// Within the records of a transaction the spend records come first, all
/// of them spends by this transaction, and the creation records follow, one
/// for each output in order, none with a spend field.
pub proof fn lemma_spends_precede_creations(
    tx: TransactionView,
    issuance: bool,
    height: i32,
    time: i64,
    network: Network,
    lookup: spec_fn(OutPointView) -> TxOutView,
)
    ensures
        ({
            let spends = spend_updates_from(tx, 0, height, time, network, lookup);
            let records = transaction_updates(tx, issuance, height, time, network, lookup);
            &&& records.len() == spends.len() + tx.output.len()
            &&& forall|i: int|
                0 <= i < spends.len() ==> {
                    &&& (#[trigger] records[i]).is_spend()
                    &&& records[i].spent_txid == Some(hash_text(tx.txid))
                }
            &&& forall|i: int|
                spends.len() <= i < records.len() ==> {
                    &&& (#[trigger] records[i]).is_creation()
                    &&& records[i] == creation_update(
                        tx,
                        i - spends.len(),
                        issuance,
                        height,
                        time,
                        network,
                    )
                }
        }),
{
    lemma_spend_records_are_spends(tx, 0, height, time, network, lookup);
    let spends = spend_updates_from(tx, 0, height, time, network, lookup);
    let records = transaction_updates(tx, issuance, height, time, network, lookup);
    assert forall|i: int| 0 <= i < spends.len() implies {
        &&& (#[trigger] records[i]).is_spend()
        &&& records[i].spent_txid == Some(hash_text(tx.txid))
    } by {
        assert(records[i] == spends[i]);
    }
}

/// The records of transaction `k` stand together in the records of the
/// block from `from` on, behind the records of the transactions between.
proof fn lemma_segment_within(
    block: BlockView,
    network: Network,
    lookup: spec_fn(OutPointView) -> TxOutView,
    from: nat,
    k: nat,
)
    requires
        from <= k < block.txdata.len(),
    ensures
        ({
            let all = block_updates_from(block, from, network, lookup);
            let start = record_count_between(block, from, k, network, lookup) as int;
            let records = transaction_updates(
                block.txdata[k as int],
                k == 0,
                block.height,
                block.time,
                network,
                lookup,
            );
            &&& start + records.len() <= all.len()
            &&& all.subrange(start, start + records.len()) == records
            &&& record_count_between(block, from, k + 1, network, lookup) == start + records.len()
        }),
    decreases k - from,
{
    let all = block_updates_from(block, from, network, lookup);
    let first = transaction_updates(
        block.txdata[from as int],
        from == 0,
        block.height,
        block.time,
        network,
        lookup,
    );
    let later = block_updates_from(block, from + 1, network, lookup);
    assert(all == first + later);
    if from == k {
        assert(record_count_between(block, from + 1, k + 1, network, lookup) == 0);
        assert(all.subrange(0, first.len() as int) =~= first);
    } else {
        lemma_segment_within(block, network, lookup, from + 1, k);
        let start = record_count_between(block, from + 1, k, network, lookup) as int;
        let records = transaction_updates(
            block.txdata[k as int],
            k == 0,
            block.height,
            block.time,
            network,
            lookup,
        );
        assert(all.subrange(first.len() + start, first.len() + start + records.len())
            =~= later.subrange(start, start + records.len()));
    }
}

/// The records of a block are the records of its transactions, one
/// transaction after the other in block order: those of transaction `k`
/// stand together, right behind those of all transactions before it, and
/// those of transaction `k + 1` begin where they end.
pub proof fn lemma_transactions_in_block_order(
    block: BlockView,
    network: Network,
    lookup: spec_fn(OutPointView) -> TxOutView,
    k: nat,
)
    requires
        k < block.txdata.len(),
    ensures
        ({
            let all = block_updates_from(block, 0, network, lookup);
            let start = record_count_between(block, 0, k, network, lookup) as int;
            let records = transaction_updates(
                block.txdata[k as int],
                k == 0,
                block.height,
                block.time,
                network,
                lookup,
            );
            &&& start + records.len() <= all.len()
            &&& all.subrange(start, start + records.len()) == records
            &&& record_count_between(block, 0, k + 1, network, lookup) == start + records.len()
        }),
{
    lemma_segment_within(block, network, lookup, 0, k);
}

/// The transformation after up to `steps` of its awaited references were
/// answered by `lookup`, one after the other.
pub open spec fn driven(
    state: TransformView,
    lookup: spec_fn(OutPointView) -> TxOutView,
    steps: nat,
) -> TransformView
    decreases steps,
{
    match state {
        TransformView::Resolve(pending) => if steps > 0 {
            driven(
                resume_spec(pending, lookup(pending.outpoint())),
                lookup,
                (steps - 1) as nat,
            )
        } else {
            state
        },
        _ => state,
    }
}

/// The number of inputs of the transactions of `block` from index `from`
/// on.
pub open spec fn inputs_from(block: BlockView, from: nat) -> nat
    decreases block.txdata.len() - from,
{
    if from >= block.txdata.len() {
        0
    } else {
        block.txdata[from as int].input.len() + inputs_from(block, from + 1)
    }
}

/// The number of inputs that lie at or behind input `j` of transaction `k`.
pub open spec fn inputs_left(block: BlockView, k: nat, j: nat) -> nat {
    if k >= block.txdata.len() {
        0
    } else if j >= block.txdata[k as int].input.len() {
        inputs_from(block, k + 1)
    } else {
        (block.txdata[k as int].input.len() - j + inputs_from(block, k + 1)) as nat
    }
}

/// A run from input `j` of transaction `k` stops, if at an input at all,
/// at an input of the same block at or behind that place, which exists and
/// names a previous output.
pub proof fn lemma_scan_stops_at_pending_input(
    block: BlockView,
    network: Network,
    k: nat,
    j: nat,
    updates: Seq<UtxoUpdateView>,
)
    ensures
        scan(block, network, k, j, updates) matches TransformView::Resolve(pending) ==> {
            &&& pending.wf()
            &&& pending.block == block
            &&& pending.network == network
            &&& 1 <= inputs_left(block, pending.tx_index, pending.input_index) <= inputs_left(
                block,
                k,
                j,
            )
        },
    decreases block.txdata.len() - k, block.txdata[k as int].input.len() + 1 - j,
{
    if k < block.txdata.len() {
        let tx = block.txdata[k as int];
        if j < tx.input.len() {
            if tx.input[j as int].previous_output.is_null() {
                lemma_scan_stops_at_pending_input(block, network, k, j + 1, updates);
            }
        } else if creations_resolve(tx, k == 0) {
            let made = creation_updates(tx, k == 0, block.height, block.time, network);
            lemma_scan_stops_at_pending_input(block, network, k + 1, 0, updates + made);
        }
    }
}

/// Answering references by `lookup` never changes what a transformation
/// comes to under `lookup`, however many are answered.
pub proof fn lemma_driving_keeps_outcome(
    state: TransformView,
    lookup: spec_fn(OutPointView) -> TxOutView,
    steps: nat,
)
    requires
        state matches TransformView::Resolve(pending) ==> pending.wf(),
    ensures
        outcome(driven(state, lookup, steps), lookup) == outcome(state, lookup),
    decreases steps,
{
    if let TransformView::Resolve(pending) = state {
        if steps > 0 {
            let prev = lookup(pending.outpoint());
            lemma_resume_keeps_outcome(pending, lookup);
            if has_address(prev.script_pubkey) {
                let record = spend_update(
                    pending.input(),
                    prev,
                    pending.transaction().txid,
                    pending.block.height,
                    pending.block.time,
                    pending.network,
                );
                lemma_scan_stops_at_pending_input(
                    pending.block,
                    pending.network,
                    pending.tx_index,
                    pending.input_index + 1,
                    pending.updates.push(record),
                );
            }
            lemma_driving_keeps_outcome(resume_spec(pending, prev), lookup, (steps - 1) as nat);
        }
    }
}

/// A pending transformation is finished once as many references were
/// answered as inputs lie at or behind the awaited one.
proof fn lemma_driving_finishes(
    pending: PendingView,
    lookup: spec_fn(OutPointView) -> TxOutView,
    steps: nat,
)
    requires
        pending.wf(),
        inputs_left(pending.block, pending.tx_index, pending.input_index) <= steps,
    ensures
        !(driven(TransformView::Resolve(pending), lookup, steps) is Resolve),
    decreases steps,
{
    let prev = lookup(pending.outpoint());
    if has_address(prev.script_pubkey) {
        let record = spend_update(
            pending.input(),
            prev,
            pending.transaction().txid,
            pending.block.height,
            pending.block.time,
            pending.network,
        );
        lemma_scan_stops_at_pending_input(
            pending.block,
            pending.network,
            pending.tx_index,
            pending.input_index + 1,
            pending.updates.push(record),
        );
        if let TransformView::Resolve(next) = resume_spec(pending, prev) {
            lemma_driving_finishes(next, lookup, (steps - 1) as nat);
        }
    }
    let resumed = resume_spec(pending, prev);
    assert(steps > 0);
    assert(driven(TransformView::Resolve(pending), lookup, steps) == driven(
        resumed,
        lookup,
        (steps - 1) as nat,
    ));
    if !(resumed is Resolve) {
        assert(driven(resumed, lookup, (steps - 1) as nat) == resumed);
    }
}

/// The transformation of a block is a function of the block and of the
/// provider's answers: once every reference has been answered by `lookup`,
/// which takes no more answers than the block has inputs, it has ended with
/// exactly the update, or the failure, that `transform_spec` gives. So
/// transforming a block again, against a provider that answers as before,
/// gives the identical sequence of records.
pub proof fn lemma_transformation_is_a_function(
    block: BlockView,
    network: Network,
    lookup: spec_fn(OutPointView) -> TxOutView,
    steps: nat,
)
    requires
        steps >= inputs_from(block, 0),
    ensures
        match driven(scan(block, network, 0, 0, Seq::empty()), lookup, steps) {
            TransformView::Done(update) => transform_spec(block, network, lookup) == Ok::<
                BlockUpdateView,
                IndexerErrorView,
            >(update),
            TransformView::Failed(e) => transform_spec(block, network, lookup) == Err::<
                BlockUpdateView,
                IndexerErrorView,
            >(e),
            TransformView::Resolve(_) => false,
        },
{
    let start = scan(block, network, 0, 0, Seq::empty());
    lemma_start_comes_to_transform(block, network, lookup);
    lemma_scan_stops_at_pending_input(block, network, 0, 0, Seq::empty());
    lemma_driving_keeps_outcome(start, lookup, steps);
    if let TransformView::Resolve(pending) = start {
        lemma_driving_finishes(pending, lookup, steps);
    }
}

/// Two outputs have the same id only if they are the same output: ids of
/// transactions of one length, with an output index each, give different
/// texts unless both the transaction ids and the indices agree.
pub proof fn lemma_output_ids_differ(txid_a: Seq<u8>, index_a: nat, txid_b: Seq<u8>, index_b: nat)
    requires
        txid_a.len() == txid_b.len(),
        txid_a != txid_b || index_a != index_b,
    ensures
        output_id(txid_a, index_a) != output_id(txid_b, index_b),
{
    let (id_a, id_b) = (output_id(txid_a, index_a), output_id(txid_b, index_b));
    if id_a == id_b {
        let (text_a, text_b) = (hash_text(txid_a), hash_text(txid_b));
        let width = 2 * txid_a.len() as int;
        assert(text_a.len() == width && text_b.len() == width);
        assert(id_a.subrange(0, width) =~= text_a);
        assert(id_b.subrange(0, width) =~= text_b);
        lemma_hex_is_injective(txid_a.reverse(), txid_b.reverse());
        assert(txid_a =~= txid_b) by {
            assert forall|i: int| 0 <= i < txid_a.len() implies txid_a[i] == txid_b[i] by {
                assert(txid_a.reverse()[txid_a.len() - 1 - i] == txid_a[i]);
                assert(txid_b.reverse()[txid_b.len() - 1 - i] == txid_b[i]);
            }
        }
        assert(id_a.subrange(width + 1, id_a.len() as int) =~= decimal(index_a));
        assert(id_b.subrange(width + 1, id_b.len() as int) =~= decimal(index_b));
        lemma_decimal_is_injective(index_a, index_b);
    }
}

/// The keys of the creation records of a block are unique, given that its
/// transactions have ids of one length that differ from one another: the
/// records of two different outputs never share an id.
pub proof fn lemma_creation_keys_are_unique(
    block: BlockView,
    network: Network,
    tx_a: int,
    output_a: int,
    tx_b: int,
    output_b: int,
)
    requires
        forall|k: int, m: int|
            0 <= k < m < block.txdata.len() ==> {
                &&& (#[trigger] block.txdata[k]).txid.len() == (#[trigger] block.txdata[m]).txid.len()
                &&& block.txdata[k].txid != block.txdata[m].txid
            },
        0 <= tx_a < block.txdata.len(),
        0 <= tx_b < block.txdata.len(),
        0 <= output_a < block.txdata[tx_a].output.len(),
        0 <= output_b < block.txdata[tx_b].output.len(),
        tx_a != tx_b || output_a != output_b,
    ensures
        creation_updates(
            block.txdata[tx_a],
            tx_a == 0,
            block.height,
            block.time,
            network,
        )[output_a].id != creation_updates(
            block.txdata[tx_b],
            tx_b == 0,
            block.height,
            block.time,
            network,
        )[output_b].id,
{
    let (a, b) = (block.txdata[tx_a], block.txdata[tx_b]);
    if tx_a < tx_b {
        assert(a.txid != b.txid && a.txid.len() == b.txid.len());
    } else if tx_b < tx_a {
        assert(a.txid != b.txid && a.txid.len() == b.txid.len());
    }
    lemma_output_ids_differ(a.txid, output_a as nat, b.txid, output_b as nat);
}

} // verus!

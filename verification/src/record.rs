//! The change records: what the record of a spent output and of a created
//! output hold.

use crate::address::{
    address_text, extract_address, extract_public_key, has_address, no_address_error, revealed_key,
    Network,
};
use crate::block::{
    hash_text, txid_to_text, Transaction, TransactionView, TxIn, TxInView, TxOut, TxOutView,
};
use crate::error::IndexerError;
use crate::script::{classify_spec, determine_script_type};
use crate::text::{decimal, hex_encode, hex_lower, u64_to_decimal};
use crate::update::{UtxoUpdate, UtxoUpdateView};
use vstd::prelude::*;
use vstd::string::StringExecFns;

verus! {

/// The id of an output: the id of its transaction as text, a colon, and the
/// index in decimal.
pub open spec fn output_id(txid: Seq<u8>, index: nat) -> Seq<char> {
    hash_text(txid) + seq![':'] + decimal(index)
}

/// The record of the output `prev`, which pays to `address`, being spent by
/// `input`, an input of the transaction `spender` in a block at `height`
/// with header time `time`.
///
/// Amount, script and tag are those of `prev`. Index and amount are written
/// as signed numbers of the same bits. Both pairs of time and height, of
/// creation and of spending, are those of the spending block: when the
/// output was made is not known here.
pub open spec fn spend_record_spec(
    input: TxInView,
    prev: TxOutView,
    spender: Seq<u8>,
    height: i32,
    time: i64,
    address: Seq<char>,
) -> UtxoUpdateView {
    UtxoUpdateView {
        id: output_id(input.previous_output.txid, input.previous_output.vout as nat),
        address,
        public_key: revealed_key(input.witness),
        txid: hash_text(input.previous_output.txid),
        vout: input.previous_output.vout as i32,
        amount: prev.value as i64,
        script_pub_key: hex_lower(prev.script_pubkey),
        script_type: classify_spec(prev.script_pubkey).label_spec(),
        created_at: time,
        block_height: height,
        spent_txid: Some(hash_text(spender)),
        spent_at: Some(time),
        spent_block: Some(height),
    }
}

/// The record of `output`, the output at `index` of the transaction `txid`,
/// being created in a block at `height` with header time `time`.
///
/// `resolved` is the address that the locking script pays to, or `None` for
/// an output of the issuance transaction, whose address is not derived: it
/// gets a fixed address and a fixed tag. Index and amount are written as
/// signed numbers of the same bits.
pub open spec fn creation_record_spec(
    txid: Seq<u8>,
    index: int,
    output: TxOutView,
    height: i32,
    time: i64,
    resolved: Option<Seq<char>>,
) -> UtxoUpdateView {
    UtxoUpdateView {
        id: output_id(txid, index as nat),
        address: match resolved {
            Some(address) => address,
            None => "coinbase"@,
        },
        public_key: None,
        txid: hash_text(txid),
        vout: index as i32,
        amount: output.value as i64,
        script_pub_key: hex_lower(output.script_pubkey),
        script_type: match resolved {
            Some(_) => classify_spec(output.script_pubkey).label_spec(),
            None => "COINBASE"@,
        },
        created_at: time,
        block_height: height,
        spent_txid: None,
        spent_at: None,
        spent_block: None,
    }
}

/// The spend record with the address that the script of `prev` has on
/// `network`.
pub open spec fn spend_update(
    input: TxInView,
    prev: TxOutView,
    spender: Seq<u8>,
    height: i32,
    time: i64,
    network: Network,
) -> UtxoUpdateView {
    spend_record_spec(
        input,
        prev,
        spender,
        height,
        time,
        address_text(prev.script_pubkey, network),
    )
}

/// The creation record of output `index` of `tx`, with the address that its
/// script has on `network`, unless `tx` is the issuance.
pub open spec fn creation_update(
    tx: TransactionView,
    index: int,
    issuance: bool,
    height: i32,
    time: i64,
    network: Network,
) -> UtxoUpdateView {
    creation_record_spec(
        tx.txid,
        index,
        tx.output[index],
        height,
        time,
        if issuance {
            None
        } else {
            Some(address_text(tx.output[index].script_pubkey, network))
        },
    )
}

/// Writes the id of an output.
pub fn write_output_id(txid: &[u8; 32], index: u64) -> (id: String)
    ensures
        id@ == output_id(txid@, index as nat),
{
    let mut id = txid_to_text(txid);
    id.push(':');
    let digits = u64_to_decimal(index);
    id.append(digits.as_str());
    assert(id@ =~= output_id(txid@, index as nat));
    id
}

/// Makes the record of `prev`, which pays to `address`, being spent by
/// `input` of the transaction `spender`.
pub fn spend_record(
    input: &TxIn,
    prev: &TxOut,
    spender: &[u8; 32],
    height: i32,
    time: i64,
    address: String,
) -> (record: UtxoUpdate)
    ensures
        record@ == spend_record_spec(input@, prev@, spender@, height, time, address@),
{
    UtxoUpdate {
        id: write_output_id(&input.previous_output.txid, input.previous_output.vout as u64),
        address,
        public_key: extract_public_key(&input.witness),
        txid: txid_to_text(&input.previous_output.txid),
        vout: input.previous_output.vout as i32,
        amount: prev.value as i64,
        script_pub_key: hex_encode(&prev.script_pubkey),
        script_type: determine_script_type(&prev.script_pubkey),
        created_at: time,
        block_height: height,
        spent_txid: Some(txid_to_text(spender)),
        spent_at: Some(time),
        spent_block: Some(height),
    }
}

/// Makes the record of `output`, the output at `index` of the transaction
/// `txid`, being created. `resolved` is the address that the output pays
/// to, or `None` for an output of the issuance transaction.
pub fn creation_record(
    txid: &[u8; 32],
    index: usize,
    output: &TxOut,
    height: i32,
    time: i64,
    resolved: Option<String>,
) -> (record: UtxoUpdate)
    ensures
        record@ == creation_record_spec(
            txid@,
            index as int,
            output@,
            height,
            time,
            resolved.deep_view(),
        ),
{
    let (address, script_type) = match resolved {
        Some(address) => (address, determine_script_type(&output.script_pubkey)),
        None => (String::from_str("coinbase"), String::from_str("COINBASE")),
    };
    UtxoUpdate {
        id: write_output_id(txid, index as u64),
        address,
        public_key: None,
        txid: txid_to_text(txid),
        vout: index as i32,
        amount: output.value as i64,
        script_pub_key: hex_encode(&output.script_pubkey),
        script_type,
        created_at: time,
        block_height: height,
        spent_txid: None,
        spent_at: None,
        spent_block: None,
    }
}

/// Resolves the address of `prev` and makes the record of it being spent by
/// `input`. It fails where the locking script of `prev` encodes no address.
pub(crate) fn build_spend(
    input: &TxIn,
    prev: &TxOut,
    spender: &[u8; 32],
    height: i32,
    time: i64,
    network: Network,
) -> (result: Result<UtxoUpdate, IndexerError>)
    ensures
        result is Ok <==> has_address(prev@.script_pubkey),
        result matches Ok(update) ==> update@ == spend_update(
            input@,
            prev@,
            spender@,
            height,
            time,
            network,
        ),
        result matches Err(e) ==> e@ == no_address_error(),
{
    match extract_address(&prev.script_pubkey, network) {
        Ok(address) => Ok(spend_record(input, prev, spender, height, time, address)),
        Err(e) => Err(e),
    }
}

/// Makes the record of output `index` of `tx` being created, resolving its
/// address unless `tx` is the issuance. It fails where the address is
/// wanted and the locking script encodes none.
pub(crate) fn build_creation(
    tx: &Transaction,
    index: usize,
    issuance: bool,
    height: i32,
    time: i64,
    network: Network,
) -> (result: Result<UtxoUpdate, IndexerError>)
    requires
        index < tx.output.len(),
    ensures
        result is Ok <==> issuance || has_address(tx@.output[index as int].script_pubkey),
        result matches Ok(update) ==> update@ == creation_update(
            tx@,
            index as int,
            issuance,
            height,
            time,
            network,
        ),
        result matches Err(e) ==> e@ == no_address_error(),
{
    let output = &tx.output[index];
    assert(output@ == tx@.output[index as int]);
    let resolved = if issuance {
        None
    } else {
        match extract_address(&output.script_pubkey, network) {
            Ok(address) => Some(address),
            Err(e) => {
                return Err(e);
            },
        }
    };
    Ok(creation_record(&tx.txid, index, output, height, time, resolved))
}

} // verus!

//! Address derivation from locking scripts, and recovery of the public key
//! that a spending witness reveals.

use crate::error::{IndexerError, IndexerErrorView};
use crate::script::{is_p2pkh, is_p2sh, is_witness_program};
use crate::text::{hex_encode, hex_lower};
use bitcoincore_rpc::bitcoin::{Address, Script};
use vstd::prelude::*;
use vstd::string::StringExecFns;

verus! {

/// The network whose address encoding is used.
#[derive(Clone, Copy, Debug, PartialEq, Eq, Structural)]
pub enum Network {
    /// The main network.
    Bitcoin,
    /// The public test network.
    Testnet,
    /// The signed test network.
    Signet,
    /// A local regression-test network.
    Regtest,
}

/// The scripts that encode an address: pay to pubkey hash, pay to script
/// hash, and witness programs, where a version-0 program must hold 20 or 32
/// bytes.
pub open spec fn has_address(script: Seq<u8>) -> bool {
    ||| is_p2pkh(script)
    ||| is_p2sh(script)
    ||| {
        &&& is_witness_program(script)
        &&& (script[0] == 0x00 ==> (script.len() == 22 || script.len() == 34))
    }
}

/// The address of a script on a network, as the bitcoin crate writes it
/// (Base58Check, Bech32 or Bech32m, by the form of the script).
pub uninterp spec fn address_text(script: Seq<u8>, network: Network) -> Seq<char>;

/// The key that a witness stack reveals: its second element in hexadecimal,
/// where it has one.
pub open spec fn revealed_key(witness: Seq<Seq<u8>>) -> Option<Seq<char>> {
    if witness.len() >= 2 {
        Some(hex_lower(witness[1]))
    } else {
        None
    }
}

/// Calls `Address::from_script` and writes the address with its `Display`
/// impl. The call succeeds on pay-to-pubkey-hash and pay-to-script-hash
/// scripts and on witness programs, except a version-0 program of a length
/// other than 20 or 32 bytes; every other script is refused.
#[verifier::external_body]
fn address_of_script(script: &Vec<u8>, network: Network) -> (address: Option<String>)
    ensures
        address is Some <==> has_address(script@),
        address matches Some(text) ==> text@ == address_text(script@, network),
{
    let network = match network {
        Network::Bitcoin => bitcoincore_rpc::bitcoin::Network::Bitcoin,
        Network::Testnet => bitcoincore_rpc::bitcoin::Network::Testnet,
        Network::Signet => bitcoincore_rpc::bitcoin::Network::Signet,
        Network::Regtest => bitcoincore_rpc::bitcoin::Network::Regtest,
    };
    match Address::from_script(Script::from_bytes(script.as_slice()), network) {
        Ok(address) => Some(address.to_string()),
        Err(_) => None,
    }
}

/// The error for a script that encodes no address.
pub open spec fn no_address_error() -> IndexerErrorView {
    IndexerErrorView::ScriptParsing("Failed to parse address from script"@)
}

/// The address that a locking script pays to, or `ScriptParsing` when the
/// script encodes none.
pub fn extract_address(script: &Vec<u8>, network: Network) -> (result: Result<
    String,
    IndexerError,
>)
    ensures
        result is Ok <==> has_address(script@),
        result matches Ok(text) ==> text@ == address_text(script@, network),
        result matches Err(e) ==> e@ == no_address_error(),
{
    match address_of_script(script, network) {
        Some(text) => Ok(text),
        None => Err(
            IndexerError::ScriptParsing(String::from_str("Failed to parse address from script")),
        ),
    }
}

/// The public key that a spending input reveals, as far as it can be told:
/// the second element of the witness stack in hexadecimal. A stack of fewer
/// than two elements reveals none. This is a guess that fits spends of
/// witness pubkey-hash outputs only.
pub fn extract_public_key(witness: &Vec<Vec<u8>>) -> (key: Option<String>)
    ensures
        key.deep_view() == revealed_key(witness.deep_view()),
{
    if witness.len() < 2 {
        return None;
    }
    Some(hex_encode(&witness[1]))
}

} // verus!

//! Classification of locking scripts by their standard structural templates.

use bitcoincore_rpc::bitcoin::Script;
use vstd::prelude::*;
use vstd::string::StringExecFns;

verus! {

/// The tag given to a locking script.
#[derive(Clone, Copy, Debug, PartialEq, Eq, Structural)]
pub enum ScriptType {
    /// Pay to public-key hash.
    P2pkh,
    /// Pay to script hash.
    P2sh,
    /// Version-0 witness program paying to a public-key hash.
    P2wpkh,
    /// Version-0 witness program paying to a script hash.
    P2wsh,
    /// Data carrier that can never be spent.
    OpReturn,
    /// Any other witness program.
    Witness,
    /// None of the known templates.
    Unknown,
}

/// `OP_DUP OP_HASH160 <20 bytes> OP_EQUALVERIFY OP_CHECKSIG`.
pub open spec fn is_p2pkh(script: Seq<u8>) -> bool {
    &&& script.len() == 25
    &&& script[0] == 0x76
    &&& script[1] == 0xa9
    &&& script[2] == 0x14
    &&& script[23] == 0x88
    &&& script[24] == 0xac
}

/// `OP_HASH160 <20 bytes> OP_EQUAL`.
pub open spec fn is_p2sh(script: Seq<u8>) -> bool {
    &&& script.len() == 23
    &&& script[0] == 0xa9
    &&& script[1] == 0x14
    &&& script[22] == 0x87
}

/// `OP_0 <20 bytes>`.
pub open spec fn is_v0_p2wpkh(script: Seq<u8>) -> bool {
    &&& script.len() == 22
    &&& script[0] == 0x00
    &&& script[1] == 0x14
}

/// `OP_0 <32 bytes>`.
pub open spec fn is_v0_p2wsh(script: Seq<u8>) -> bool {
    &&& script.len() == 34
    &&& script[0] == 0x00
    &&& script[1] == 0x20
}

/// The script begins with `OP_RETURN`.
pub open spec fn is_op_return(script: Seq<u8>) -> bool {
    script.len() > 0 && script[0] == 0x6a
}

/// The opcode stands for a witness version: `OP_0`, or `OP_1` to `OP_16`.
pub open spec fn is_witness_version_opcode(opcode: u8) -> bool {
    opcode == 0x00 || (0x51 <= opcode && opcode <= 0x60)
}

/// A witness-version opcode followed by one push of 2 to 40 bytes that
/// fills the rest of the script.
pub open spec fn is_witness_program(script: Seq<u8>) -> bool {
    &&& 4 <= script.len() <= 42
    &&& is_witness_version_opcode(script[0])
    &&& 0x02 <= script[1] <= 0x28
    &&& script.len() - 2 == script[1]
}

/// The tag of a script: the first template that matches, in the order
/// pubkey hash, script hash, the two version-0 witness forms, data carrier,
/// witness program; `Unknown` when none does.
pub open spec fn classify_spec(script: Seq<u8>) -> ScriptType {
    if is_p2pkh(script) {
        ScriptType::P2pkh
    } else if is_p2sh(script) {
        ScriptType::P2sh
    } else if is_v0_p2wpkh(script) {
        ScriptType::P2wpkh
    } else if is_v0_p2wsh(script) {
        ScriptType::P2wsh
    } else if is_op_return(script) {
        ScriptType::OpReturn
    } else if is_witness_program(script) {
        ScriptType::Witness
    } else {
        ScriptType::Unknown
    }
}

impl ScriptType {
    /// The tag as it is written in an update.
    pub open spec fn label_spec(self) -> Seq<char> {
        match self {
            ScriptType::P2pkh => "P2PKH"@,
            ScriptType::P2sh => "P2SH"@,
            ScriptType::P2wpkh => "P2WPKH"@,
            ScriptType::P2wsh => "P2WSH"@,
            ScriptType::OpReturn => "OP_RETURN"@,
            ScriptType::Witness => "WITNESS"@,
            ScriptType::Unknown => "UNKNOWN"@,
        }
    }

    /// The tag as it is written in an update.
    pub fn label(&self) -> (tag: String)
        ensures
            tag@ == self.label_spec(),
    {
        match self {
            ScriptType::P2pkh => String::from_str("P2PKH"),
            ScriptType::P2sh => String::from_str("P2SH"),
            ScriptType::P2wpkh => String::from_str("P2WPKH"),
            ScriptType::P2wsh => String::from_str("P2WSH"),
            ScriptType::OpReturn => String::from_str("OP_RETURN"),
            ScriptType::Witness => String::from_str("WITNESS"),
            ScriptType::Unknown => String::from_str("UNKNOWN"),
        }
    }
}

/// Calls `Script::is_p2pkh`, which compares the length with 25 and the five
/// fixed opcode bytes of the template.
#[verifier::external_body]
fn script_is_p2pkh(script: &Vec<u8>) -> (b: bool)
    ensures
        b == is_p2pkh(script@),
{
    Script::from_bytes(script.as_slice()).is_p2pkh()
}

/// Calls `Script::is_p2sh`, which compares the length with 23 and the three
/// fixed opcode bytes of the template.
#[verifier::external_body]
fn script_is_p2sh(script: &Vec<u8>) -> (b: bool)
    ensures
        b == is_p2sh(script@),
{
    Script::from_bytes(script.as_slice()).is_p2sh()
}

/// Calls `Script::is_v0_p2wpkh`, which asks for 22 bytes, witness version 0
/// (a first byte of zero) and a push of 20 bytes.
#[verifier::external_body]
fn script_is_v0_p2wpkh(script: &Vec<u8>) -> (b: bool)
    ensures
        b == is_v0_p2wpkh(script@),
{
    Script::from_bytes(script.as_slice()).is_v0_p2wpkh()
}

/// Calls `Script::is_v0_p2wsh`, which asks for 34 bytes, witness version 0
/// (a first byte of zero) and a push of 32 bytes.
#[verifier::external_body]
fn script_is_v0_p2wsh(script: &Vec<u8>) -> (b: bool)
    ensures
        b == is_v0_p2wsh(script@),
{
    Script::from_bytes(script.as_slice()).is_v0_p2wsh()
}

/// Calls `Script::is_op_return`, which tests whether the first byte is
/// `OP_RETURN`; an empty script is none.
#[verifier::external_body]
fn script_is_op_return(script: &Vec<u8>) -> (b: bool)
    ensures
        b == is_op_return(script@),
{
    Script::from_bytes(script.as_slice()).is_op_return()
}

/// Calls `Script::is_witness_program`, which asks for 4 to 42 bytes, a
/// witness-version opcode first, and then a push opcode for 2 to 40 bytes
/// that equals the number of bytes left.
#[verifier::external_body]
fn script_is_witness_program(script: &Vec<u8>) -> (b: bool)
    ensures
        b == is_witness_program(script@),
{
    Script::from_bytes(script.as_slice()).is_witness_program()
}

/// Classifies a locking script. Every byte sequence has exactly one tag.
pub fn classify(script: &Vec<u8>) -> (tag: ScriptType)
    ensures
        tag == classify_spec(script@),
{
    if script_is_p2pkh(script) {
        ScriptType::P2pkh
    } else if script_is_p2sh(script) {
        ScriptType::P2sh
    } else if script_is_v0_p2wpkh(script) {
        ScriptType::P2wpkh
    } else if script_is_v0_p2wsh(script) {
        ScriptType::P2wsh
    } else if script_is_op_return(script) {
        ScriptType::OpReturn
    } else if script_is_witness_program(script) {
        ScriptType::Witness
    } else {
        ScriptType::Unknown
    }
}

/// The written tag of a locking script.
pub fn determine_script_type(script: &Vec<u8>) -> (tag: String)
    ensures
        tag@ == classify_spec(script@).label_spec(),
{
    classify(script).label()
}

/// The templates exclude one another except that both version-0 witness
/// forms are witness programs; so the tag names the one template the script
/// has, or the more specific of the two.
pub proof fn lemma_classification_is_exclusive(script: Seq<u8>)
    ensures
        classify_spec(script) == ScriptType::P2pkh <==> is_p2pkh(script),
        classify_spec(script) == ScriptType::P2sh <==> is_p2sh(script),
        classify_spec(script) == ScriptType::P2wpkh <==> is_v0_p2wpkh(script),
        classify_spec(script) == ScriptType::P2wsh <==> is_v0_p2wsh(script),
        classify_spec(script) == ScriptType::OpReturn <==> is_op_return(script),
        classify_spec(script) == ScriptType::Witness <==> is_witness_program(script)
            && !is_v0_p2wpkh(script) && !is_v0_p2wsh(script),
        classify_spec(script) == ScriptType::Unknown <==> !is_p2pkh(script) && !is_p2sh(script)
            && !is_op_return(script) && !is_witness_program(script),
{
}

} // verus!

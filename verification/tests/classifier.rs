use bitcoincore_rpc::bitcoin;
use utxo_indexer::address::{extract_address, extract_public_key, Network};
use utxo_indexer::error::IndexerError;
use utxo_indexer::script::{classify, determine_script_type, ScriptType};

fn p2pkh_script(hash: [u8; 20]) -> Vec<u8> {
    let mut script = vec![0x76, 0xa9, 0x14];
    script.extend_from_slice(&hash);
    script.push(0x88);
    script.push(0xac);
    script
}

fn witness_script(version_opcode: u8, program: &[u8]) -> Vec<u8> {
    let mut script = vec![version_opcode, program.len() as u8];
    script.extend_from_slice(program);
    script
}

const GENESIS_KEY_HASH: [u8; 20] = [
    0x62, 0xe9, 0x07, 0xb1, 0x5c, 0xbf, 0x27, 0xd5, 0x42, 0x53, 0x99, 0xeb, 0xf6, 0xf0, 0xfb, 0x50,
    0xeb, 0xb8, 0x8f, 0x18,
];

const BIP173_KEY_HASH: [u8; 20] = [
    0x75, 0x1e, 0x76, 0xe8, 0x19, 0x91, 0x96, 0xd4, 0x54, 0x94, 0x1c, 0x45, 0xd1, 0xb3, 0xa3, 0x23,
    0xf1, 0x43, 0x3b, 0xd6,
];

#[test]
fn classifies_pay_to_pubkey_hash() {
    let script = p2pkh_script(GENESIS_KEY_HASH);
    assert_eq!(classify(&script), ScriptType::P2pkh);
    assert_eq!(determine_script_type(&script), "P2PKH");
}

#[test]
fn classifies_pay_to_script_hash() {
    let mut script = vec![0xa9, 0x14];
    script.extend_from_slice(&[7u8; 20]);
    script.push(0x87);
    assert_eq!(classify(&script), ScriptType::P2sh);
    assert_eq!(determine_script_type(&script), "P2SH");
}

#[test]
fn classifies_version_zero_witness_forms() {
    let wpkh = witness_script(0x00, &BIP173_KEY_HASH);
    assert_eq!(classify(&wpkh), ScriptType::P2wpkh);
    assert_eq!(determine_script_type(&wpkh), "P2WPKH");
    let wsh = witness_script(0x00, &[9u8; 32]);
    assert_eq!(classify(&wsh), ScriptType::P2wsh);
    assert_eq!(determine_script_type(&wsh), "P2WSH");
}

#[test]
fn classifies_data_carrier() {
    let script = vec![0x6a, 0x04, 0xde, 0xad, 0xbe, 0xef];
    assert_eq!(classify(&script), ScriptType::OpReturn);
    assert_eq!(determine_script_type(&script), "OP_RETURN");
    assert_eq!(classify(&vec![0x6a]), ScriptType::OpReturn);
}

#[test]
fn classifies_other_witness_programs() {
    let taproot = witness_script(0x51, &[3u8; 32]);
    assert_eq!(classify(&taproot), ScriptType::Witness);
    assert_eq!(determine_script_type(&taproot), "WITNESS");
    assert_eq!(classify(&witness_script(0x60, &[1, 2])), ScriptType::Witness);
    assert_eq!(classify(&witness_script(0x00, &[1u8; 25])), ScriptType::Witness);
    assert_eq!(classify(&witness_script(0x51, &[1u8; 40])), ScriptType::Witness);
}

#[test]
fn unmatched_scripts_are_unknown() {
    assert_eq!(classify(&Vec::new()), ScriptType::Unknown);
    assert_eq!(determine_script_type(&Vec::new()), "UNKNOWN");
    assert_eq!(classify(&vec![0x51]), ScriptType::Unknown);
    assert_eq!(classify(&witness_script(0x61, &[1u8; 20])), ScriptType::Unknown);
    assert_eq!(classify(&witness_script(0x50, &[1u8; 20])), ScriptType::Unknown);
    assert_eq!(classify(&witness_script(0x51, &[1u8; 41])), ScriptType::Unknown);
    assert_eq!(classify(&vec![0x51, 0x01, 0xaa]), ScriptType::Unknown);
    let mut wrong_length = witness_script(0x51, &[1u8; 20]);
    wrong_length.push(0);
    assert_eq!(classify(&wrong_length), ScriptType::Unknown);
    let mut bare_multisig = vec![0x51, 0x21];
    bare_multisig.extend_from_slice(&[2u8; 33]);
    bare_multisig.extend_from_slice(&[0x51, 0xae]);
    assert_eq!(classify(&bare_multisig), ScriptType::Unknown);
}

#[test]
fn earlier_template_wins() {
    let mut almost = p2pkh_script(GENESIS_KEY_HASH);
    almost[24] = 0xad;
    assert_eq!(classify(&almost), ScriptType::Unknown);
    let mut data = vec![0x6a, 0x14];
    data.extend_from_slice(&[0u8; 20]);
    assert_eq!(classify(&data), ScriptType::OpReturn);
}

#[test]
fn address_of_pubkey_hash_on_main_network() {
    let script = p2pkh_script(GENESIS_KEY_HASH);
    let address = extract_address(&script, Network::Bitcoin).unwrap();
    assert_eq!(address, "1A1zP1eP5QGefi2DMPTfTL5SLmv7DivfNa");
}

#[test]
fn address_of_witness_pubkey_hash_by_network() {
    let script = witness_script(0x00, &BIP173_KEY_HASH);
    assert_eq!(
        extract_address(&script, Network::Bitcoin).unwrap(),
        "bc1qw508d6qejxtdg4y5r3zarvary0c5xw7kv8f3t4"
    );
    assert_eq!(
        extract_address(&script, Network::Testnet).unwrap(),
        "tb1qw508d6qejxtdg4y5r3zarvary0c5xw7kxpjzsx"
    );
    assert_eq!(
        extract_address(&script, Network::Signet).unwrap(),
        "tb1qw508d6qejxtdg4y5r3zarvary0c5xw7kxpjzsx"
    );
    assert_eq!(
        extract_address(&script, Network::Regtest).unwrap(),
        "bcrt1qw508d6qejxtdg4y5r3zarvary0c5xw7kygt080"
    );
}

#[test]
fn address_matches_the_bitcoin_crate() {
    let mut p2sh = vec![0xa9, 0x14];
    p2sh.extend_from_slice(&[0x33u8; 20]);
    p2sh.push(0x87);
    let scripts = vec![
        p2pkh_script([0x11; 20]),
        p2sh,
        witness_script(0x00, &[0x22; 32]),
        witness_script(0x51, &[0x44; 32]),
        witness_script(0x60, &[0x55; 2]),
    ];
    for script in scripts {
        let expected = bitcoin::Address::from_script(
            bitcoin::Script::from_bytes(&script),
            bitcoin::Network::Regtest,
        )
        .unwrap()
        .to_string();
        assert_eq!(extract_address(&script, Network::Regtest).unwrap(), expected);
        assert_ne!(expected.as_bytes(), script.as_slice());
    }
}

#[test]
fn scripts_without_address_are_refused() {
    let mut bare_multisig = vec![0x51, 0x21];
    bare_multisig.extend_from_slice(&[2u8; 33]);
    bare_multisig.extend_from_slice(&[0x51, 0xae]);
    let refused = vec![
        vec![0x6a, 0x04, 0xde, 0xad, 0xbe, 0xef],
        bare_multisig,
        Vec::new(),
        witness_script(0x00, &[1u8; 25]),
        witness_script(0x00, &[1u8; 2]),
    ];
    for script in refused {
        match extract_address(&script, Network::Regtest) {
            Err(IndexerError::ScriptParsing(msg)) => {
                assert_eq!(msg, "Failed to parse address from script")
            }
            other => panic!("expected a script parsing error, got {:?}", other),
        }
    }
}

#[test]
fn public_key_is_second_witness_element() {
    let witness = vec![vec![0x30, 0x45, 0x01], vec![0x02, 0xab, 0xcd, 0x0f]];
    assert_eq!(extract_public_key(&witness), Some("02abcd0f".to_string()));
    let longer = vec![vec![1], vec![0xff, 0x00], vec![3]];
    assert_eq!(extract_public_key(&longer), Some("ff00".to_string()));
}

#[test]
fn short_witness_reveals_no_key() {
    assert_eq!(extract_public_key(&Vec::new()), None);
    assert_eq!(extract_public_key(&vec![vec![0x02, 0xab]]), None);
    assert_eq!(extract_public_key(&vec![vec![1], Vec::new()]), Some(String::new()));
}

/// The templates, written out byte by byte.
fn tag_by_template(s: &[u8]) -> ScriptType {
    let version_opcode = |b: u8| b == 0x00 || (0x51..=0x60).contains(&b);
    if s.len() == 25 && s[0] == 0x76 && s[1] == 0xa9 && s[2] == 0x14 && s[23] == 0x88 && s[24] == 0xac
    {
        ScriptType::P2pkh
    } else if s.len() == 23 && s[0] == 0xa9 && s[1] == 0x14 && s[22] == 0x87 {
        ScriptType::P2sh
    } else if s.len() == 22 && s[0] == 0x00 && s[1] == 0x14 {
        ScriptType::P2wpkh
    } else if s.len() == 34 && s[0] == 0x00 && s[1] == 0x20 {
        ScriptType::P2wsh
    } else if !s.is_empty() && s[0] == 0x6a {
        ScriptType::OpReturn
    } else if (4..=42).contains(&s.len())
        && version_opcode(s[0])
        && (0x02..=0x28).contains(&s[1])
        && s.len() - 2 == s[1] as usize
    {
        ScriptType::Witness
    } else {
        ScriptType::Unknown
    }
}

/// The scripts that encode an address, written out byte by byte.
fn address_by_template(s: &[u8]) -> bool {
    match tag_by_template(s) {
        ScriptType::P2pkh | ScriptType::P2sh | ScriptType::P2wpkh | ScriptType::P2wsh => true,
        ScriptType::Witness => s[0] != 0x00,
        ScriptType::OpReturn | ScriptType::Unknown => false,
    }
}

fn expected_tag(script: &[u8]) -> &'static str {
    let script = bitcoin::Script::from_bytes(script);
    if script.is_p2pkh() {
        "P2PKH"
    } else if script.is_p2sh() {
        "P2SH"
    } else if script.is_v0_p2wpkh() {
        "P2WPKH"
    } else if script.is_v0_p2wsh() {
        "P2WSH"
    } else if script.is_op_return() {
        "OP_RETURN"
    } else if script.is_witness_program() {
        "WITNESS"
    } else {
        "UNKNOWN"
    }
}

#[test]
fn every_script_gets_exactly_one_tag() {
    let firsts = [0x00u8, 0x14, 0x20, 0x50, 0x51, 0x60, 0x61, 0x6a, 0x76, 0xa9, 0xff];
    let seconds = [0x00u8, 0x01, 0x02, 0x14, 0x20, 0x28, 0x29, 0xa9];
    let mut seen = std::collections::BTreeSet::new();
    let mut state: u32 = 0x2545_f491;
    for len in 0..50usize {
        for first in firsts {
            for second in seconds {
                for fix_tail in [false, true] {
                    let mut script = Vec::with_capacity(len);
                    for _ in 0..len {
                        state = state.wrapping_mul(1_664_525).wrapping_add(1_013_904_223);
                        script.push((state >> 24) as u8);
                    }
                    if len > 0 {
                        script[0] = first;
                    }
                    if len > 1 {
                        script[1] = second;
                    }
                    if fix_tail && len == 25 {
                        script[2] = 0x14;
                        script[23] = 0x88;
                        script[24] = 0xac;
                    }
                    if fix_tail && len == 23 {
                        script[22] = 0x87;
                    }
                    let tag = determine_script_type(&script);
                    assert_eq!(tag, expected_tag(&script));
                    assert_eq!(tag, classify(&script).label());
                    assert_eq!(classify(&script), tag_by_template(&script));
                    assert_eq!(
                        extract_address(&script, Network::Bitcoin).is_ok(),
                        address_by_template(&script)
                    );
                    let address = extract_address(&script, Network::Testnet);
                    let expected = bitcoin::Address::from_script(
                        bitcoin::Script::from_bytes(&script),
                        bitcoin::Network::Testnet,
                    );
                    assert_eq!(address.ok(), expected.ok().map(|a| a.to_string()));
                    seen.insert(tag);
                }
            }
        }
    }
    let all = ["OP_RETURN", "P2PKH", "P2SH", "P2WPKH", "P2WSH", "UNKNOWN", "WITNESS"];
    assert_eq!(seen.into_iter().collect::<Vec<String>>(), all);
}

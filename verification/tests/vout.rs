use counterparty_rs::chain::TxOut;
use counterparty_rs::config::{Activations, Config, Mode, Network};
use counterparty_rs::error::Error;
use counterparty_rs::script::Instruction;
use counterparty_rs::vout::{parse_instructions, parse_vout, ParseOutput, PotentialDispenser};
use crypto::symmetriccipher::SynchronousStreamCipher;

const NEVER: u32 = u32::MAX;

fn all_on() -> Activations {
    Activations {
        multisig_addresses: 0,
        p2sh_addresses: 0,
        p2sh_dispensers: 0,
        segwit: 0,
        correct_segwit_txids: 0,
        fix_is_segwit: 0,
        taproot_support: 0,
    }
}

fn config_with(activations: Activations) -> Config {
    Config {
        mode: Mode::Indexer,
        network: Network::Mainnet,
        prefix: b"CNTRPRTY".to_vec(),
        address_version: vec![0x00],
        p2sh_address_version: vec![0x05],
        unspendable: "1CounterpartyXXXXXXXXXXXXXXXUWLpVr".to_string(),
        rpc_address: String::new(),
        rpc_user: String::new(),
        rpc_password: String::new(),
        activations,
    }
}

fn config() -> Config {
    config_with(all_on())
}

fn key() -> Vec<u8> {
    (1..=32).rev().collect()
}

fn txid() -> String {
    "aa".repeat(32)
}

fn encrypt(key: &[u8], plain: &[u8]) -> Vec<u8> {
    let mut cipher = crypto::rc4::Rc4::new(key);
    let mut out = vec![0u8; plain.len()];
    cipher.process(plain, &mut out);
    out
}

fn push(data: &[u8]) -> Vec<u8> {
    let mut script = Vec::new();
    if data.len() < 0x4c {
        script.push(data.len() as u8);
    } else {
        script.push(0x4c);
        script.push(data.len() as u8);
    }
    script.extend_from_slice(data);
    script
}

fn script(parts: &[Vec<u8>]) -> Vec<u8> {
    parts.concat()
}

fn out(value: u64, script_pubkey: Vec<u8>) -> TxOut {
    TxOut { value, script_pubkey }
}

fn parse(config: &Config, height: u32, vi: usize, vout: &TxOut) -> Result<(ParseOutput, PotentialDispenser), Error> {
    parse_vout(config, key(), height, txid(), vi, vout)
}

fn nothing() -> PotentialDispenser {
    PotentialDispenser { destination: None, value: None }
}

fn value_only(value: u64) -> PotentialDispenser {
    PotentialDispenser { destination: None, value: Some(value) }
}

fn paying(address: &str, value: u64) -> PotentialDispenser {
    PotentialDispenser { destination: Some(address.to_string()), value: Some(value) }
}

fn failure(what: &str, vi: usize) -> Error {
    Error::ParseVout(format!("{} | tx: {}, vout: {}", what, txid(), vi))
}

fn hash160(data: &[u8]) -> Vec<u8> {
    let hash: bitcoin::hashes::hash160::Hash = bitcoin::hashes::Hash::hash(data);
    bitcoin::hashes::Hash::to_byte_array(hash).to_vec()
}

fn address_of_key(version: u8, public_key: &[u8]) -> String {
    let mut bytes = vec![version];
    bytes.extend_from_slice(&hash160(public_key));
    bitcoin::base58::encode_check(&bytes)
}

#[test]
fn op_return_with_magic_gives_the_payload() {
    let cipher = encrypt(&key(), b"CNTRPRTYHELLO");
    let vout = out(0, script(&[vec![0x6a], push(&cipher)]));
    assert_eq!(
        parse(&config(), 5, 0, &vout),
        Ok((ParseOutput::Data(b"HELLO".to_vec()), nothing()))
    );
}

#[test]
fn op_return_with_long_payload_uses_a_longer_push() {
    let mut plain = b"CNTRPRTY".to_vec();
    plain.extend_from_slice(&[7u8; 72]);
    let cipher = encrypt(&key(), &plain);
    let vout = out(0, script(&[vec![0x6a], push(&cipher)]));
    assert_eq!(parse(&config(), 5, 0, &vout), Ok((ParseOutput::Data(vec![7u8; 72]), nothing())));
}

#[test]
fn op_return_marker_is_handed_on_when_taproot_is_read() {
    let vout = out(0, script(&[vec![0x6a], push(b"CNTRPRTY")]));
    assert_eq!(
        parse(&config(), 5, 0, &vout),
        Ok((ParseOutput::Data(b"CNTRPRTY".to_vec()), nothing()))
    );
}

#[test]
fn op_return_marker_is_decrypted_before_taproot() {
    let activations = Activations { taproot_support: 100, ..all_on() };
    let vout = out(0, script(&[vec![0x6a], push(b"CNTRPRTY")]));
    assert_eq!(
        parse(&config_with(activations), 99, 2, &vout),
        Err(failure("Encountered invalid OP_RETURN script", 2))
    );
    let marker_encrypted = encrypt(&key(), b"CNTRPRTYCNTRPRTY");
    let vout = out(0, script(&[vec![0x6a], push(&marker_encrypted)]));
    assert_eq!(
        parse(&config_with(activations), 99, 2, &vout),
        Ok((ParseOutput::Data(b"CNTRPRTY".to_vec()), nothing()))
    );
}

#[test]
fn op_return_without_the_prefix_fails() {
    let cipher = encrypt(&key(), b"XNTRPRTYHELLO");
    let vout = out(0, script(&[vec![0x6a], push(&cipher)]));
    assert_eq!(
        parse(&config(), 5, 3, &vout),
        Err(failure("Encountered invalid OP_RETURN script", 3))
    );
}

#[test]
fn op_return_with_two_pushes_fails() {
    let cipher = encrypt(&key(), b"CNTRPRTYHELLO");
    let vout = out(0, script(&[vec![0x6a], push(&cipher), push(b"more")]));
    assert_eq!(
        parse(&config(), 5, 12, &vout),
        Err(failure("Encountered invalid OP_RETURN script", 12))
    );
    let bare = out(0, vec![0x6a]);
    assert_eq!(
        parse(&config(), 5, 0, &bare),
        Err(failure("Encountered invalid OP_RETURN script", 0))
    );
}

#[test]
fn key_that_cannot_key_the_cipher_fails_the_output() {
    let cipher = encrypt(&key(), b"CNTRPRTYHELLO");
    let vout = out(0, script(&[vec![0x6a], push(&cipher)]));
    assert_eq!(
        parse_vout(&config(), Vec::new(), 5, txid(), 1, &vout),
        Err(failure("Encountered unusable decryption key", 1))
    );
    assert_eq!(
        parse_vout(&config(), vec![1u8; 257], 5, txid(), 1, &vout),
        Err(failure("Encountered unusable decryption key", 1))
    );
    let long_key = vec![1u8; 256];
    let cipher = encrypt(&long_key, b"CNTRPRTYHELLO");
    let vout = out(0, script(&[vec![0x6a], push(&cipher)]));
    assert_eq!(
        parse_vout(&config(), long_key, 5, txid(), 1, &vout),
        Ok((ParseOutput::Data(b"HELLO".to_vec()), nothing()))
    );
}

#[test]
fn empty_key_does_not_matter_where_nothing_is_decrypted() {
    let p2sh = out(9, script(&[vec![0xa9], push(&[0u8; 20]), vec![0x87]]));
    assert_eq!(
        parse_vout(&config(), Vec::new(), 5, txid(), 0, &p2sh),
        Ok((
            ParseOutput::Destination("31h1vYVSYuKP6AhS86fbRdMw9XHieotbST".to_string()),
            paying("31h1vYVSYuKP6AhS86fbRdMw9XHieotbST", 9)
        ))
    );
}

#[test]
fn pay_to_pubkey_hash_pays_the_address_of_its_hash() {
    let vout = out(
        1000,
        script(&[vec![0x76, 0xa9], push(&[0u8; 20]), vec![0x88, 0xac]]),
    );
    assert_eq!(
        parse(&config(), 5, 0, &vout),
        Ok((
            ParseOutput::Destination("1111111111111111111114oLvT2".to_string()),
            paying("1111111111111111111114oLvT2", 1000)
        ))
    );
}

#[test]
fn checksig_script_pays_the_address_of_its_third_instruction() {
    let hash = [0x42u8; 20];
    let vout = out(7, script(&[vec![0x76, 0xa9], push(&hash), vec![0x88, 0xac]]));
    let mut bytes = vec![0u8];
    bytes.extend_from_slice(&hash);
    let address = bitcoin::base58::encode_check(&bytes);
    assert_eq!(
        parse(&config(), 5, 0, &vout),
        Ok((ParseOutput::Destination(address.clone()), paying(&address, 7)))
    );
}

#[test]
fn checksig_script_with_an_opcode_third_pays_the_address_of_that_byte() {
    let one = out(7, vec![0x76, 0xa9, 0x51, 0x88, 0xac]);
    let address = bitcoin::base58::encode_check(&[0, 1]);
    assert_eq!(
        parse(&config(), 5, 0, &one),
        Ok((ParseOutput::Destination(address.clone()), paying(&address, 7)))
    );
    let other = out(7, vec![0x76, 0xa9, 0x52, 0x88, 0xac]);
    let address = bitcoin::base58::encode_check(&[0, 0x52]);
    assert_eq!(
        parse(&config(), 5, 0, &other),
        Ok((ParseOutput::Destination(address.clone()), paying(&address, 7)))
    );
}

#[test]
fn checksig_script_carrying_data_gives_the_payload() {
    let mut plain = vec![8 + 4];
    plain.extend_from_slice(b"CNTRPRTYdata");
    plain.extend_from_slice(&[0u8; 7]);
    let cipher = encrypt(&key(), &plain);
    let vout = out(5430, script(&[vec![0x76, 0xa9], push(&cipher), vec![0x88, 0xac]]));
    assert_eq!(
        parse(&config(), 5, 0, &vout),
        Ok((ParseOutput::Data(b"data".to_vec()), value_only(5430)))
    );
}

#[test]
fn checksig_script_with_a_length_past_the_end_fails() {
    let mut plain = vec![200u8];
    plain.extend_from_slice(b"CNTRPRTYdata");
    let cipher = encrypt(&key(), &plain);
    let vout = out(1, script(&[vec![0x76, 0xa9], push(&cipher), vec![0x88, 0xac]]));
    assert_eq!(
        parse(&config(), 5, 4, &vout),
        Err(failure("Encountered invalid OP_CHECKSIG script", 4))
    );
}

#[test]
fn checksig_script_of_two_instructions_fails() {
    let vout = out(1, script(&[push(&[2u8; 33]), vec![0xac]]));
    assert_eq!(
        parse(&config(), 5, 6, &vout),
        Err(failure("Encountered invalid OP_CHECKSIG script", 6))
    );
}

fn data_key(middle: &[u8]) -> Vec<u8> {
    let mut public_key = vec![0x02];
    public_key.extend_from_slice(middle);
    public_key.push(0x99);
    public_key
}

#[test]
fn multisig_one_of_three_carrying_data_gives_the_payload() {
    let payload = b"a payload spread over two public keys";
    let mut plain = vec![(8 + payload.len()) as u8];
    plain.extend_from_slice(b"CNTRPRTY");
    plain.extend_from_slice(payload);
    plain.resize(62, 0);
    let cipher = encrypt(&key(), &plain);
    let pk1 = data_key(&cipher[..31]);
    let pk2 = data_key(&cipher[31..]);
    let pk3 = vec![0x03; 33];
    let vout = out(
        7800,
        script(&[vec![0x51], push(&pk1), push(&pk2), push(&pk3), vec![0x53, 0xae]]),
    );
    assert_eq!(
        parse(&config(), 5, 0, &vout),
        Ok((ParseOutput::Data(payload.to_vec()), value_only(7800)))
    );
}

#[test]
fn multisig_one_of_two_carrying_data_reads_the_first_key_only() {
    let mut plain = vec![8 + 3];
    plain.extend_from_slice(b"CNTRPRTYabc");
    plain.resize(31, 0);
    let cipher = encrypt(&key(), &plain);
    let pk1 = data_key(&cipher);
    let pk2 = vec![0x03; 33];
    let vout = out(7800, script(&[vec![0x51], push(&pk1), push(&pk2), vec![0x52, 0xae]]));
    assert_eq!(
        parse(&config(), 5, 0, &vout),
        Ok((ParseOutput::Data(b"abc".to_vec()), value_only(7800)))
    );
}

#[test]
fn multisig_length_past_the_end_is_cut_to_the_end() {
    let mut plain = vec![255u8];
    plain.extend_from_slice(b"CNTRPRTYabc");
    let cipher = encrypt(&key(), &plain);
    let pk1 = data_key(&cipher);
    let pk2 = vec![0x03; 33];
    let vout = out(1, script(&[vec![0x51], push(&pk1), push(&pk2), vec![0x52, 0xae]]));
    assert_eq!(
        parse(&config(), 5, 0, &vout),
        Ok((ParseOutput::Data(b"abc".to_vec()), value_only(1)))
    );
}

#[test]
fn multisig_length_inside_the_prefix_fails() {
    let mut plain = vec![2u8];
    plain.extend_from_slice(b"CNTRPRTYabc");
    let cipher = encrypt(&key(), &plain);
    let pk1 = data_key(&cipher);
    let pk2 = vec![0x03; 33];
    let vout = out(1, script(&[vec![0x51], push(&pk1), push(&pk2), vec![0x52, 0xae]]));
    assert_eq!(
        parse(&config(), 5, 8, &vout),
        Err(failure("Encountered invalid OP_MULTISIG script", 8))
    );
}

#[test]
fn multisig_without_data_pays_the_sorted_addresses_of_all_keys() {
    let keys = [vec![0x02; 33], vec![0x03; 33], vec![0x04; 65]];
    let vout = out(
        600,
        script(&[vec![0x52], push(&keys[0]), push(&keys[1]), push(&keys[2]), vec![0x53, 0xae]]),
    );
    let mut addresses: Vec<String> = keys.iter().map(|k| address_of_key(0, k)).collect();
    addresses.sort();
    let destination = format!("2_{}_{}_{}_3", addresses[0], addresses[1], addresses[2]);
    assert_eq!(
        parse(&config(), 5, 0, &vout),
        Ok((ParseOutput::Destination(destination.clone()), paying(&destination, 600)))
    );
}

#[test]
fn multisig_three_of_two_is_kept_as_it_always_was() {
    let keys = [vec![0x03; 33], vec![0x02; 33]];
    let vout = out(600, script(&[vec![0x53], push(&keys[0]), push(&keys[1]), vec![0x52, 0xae]]));
    let mut addresses: Vec<String> = keys.iter().map(|k| address_of_key(0, k)).collect();
    addresses.sort();
    let destination = format!("3_{}_{}_2", addresses[0], addresses[1]);
    assert_eq!(
        parse(&config(), 5, 0, &vout),
        Ok((ParseOutput::Destination(destination.clone()), paying(&destination, 600)))
    );
}

#[test]
fn multisig_of_pushes_alone_counts_the_inner_keys() {
    let keys = [vec![0x05; 33], vec![0x02; 33], vec![0x03; 33], vec![0x04; 33]];
    let vout = out(
        600,
        script(&[push(&keys[0]), push(&keys[1]), push(&keys[2]), push(&keys[3]), vec![0xae]]),
    );
    let mut addresses: Vec<String> = keys[1..3].iter().map(|k| address_of_key(0, k)).collect();
    addresses.sort();
    let destination = format!("1_{}_{}_2", addresses[0], addresses[1]);
    assert_eq!(
        parse(&config(), 5, 0, &vout),
        Ok((ParseOutput::Destination(destination.clone()), paying(&destination, 600)))
    );
}

#[test]
fn multisig_of_another_form_fails() {
    let vout = out(
        600,
        script(&[vec![0x51], push(&[2u8; 33]), push(&[3u8; 33]), vec![0x53, 0xae]]),
    );
    assert_eq!(
        parse(&config(), 5, 1, &vout),
        Err(failure("Encountered invalid OP_MULTISIG script", 1))
    );
    let four = out(
        600,
        script(&[
            vec![0x51],
            push(&[2u8; 33]),
            push(&[3u8; 33]),
            push(&[4u8; 33]),
            push(&[5u8; 33]),
            vec![0x54, 0xae],
        ]),
    );
    assert_eq!(
        parse(&config(), 5, 1, &four),
        Err(failure("Encountered invalid OP_MULTISIG script", 1))
    );
}

#[test]
fn multisig_with_a_key_too_short_to_carry_fails() {
    let vout = out(600, script(&[vec![0x51], push(&[2u8]), push(&[3u8; 33]), vec![0x52, 0xae]]));
    assert_eq!(
        parse(&config(), 5, 1, &vout),
        Err(failure("Encountered invalid OP_MULTISIG script", 1))
    );
}

#[test]
fn script_hash_pays_its_address() {
    let vout = out(9, script(&[vec![0xa9], push(&[0u8; 20]), vec![0x87]]));
    assert_eq!(
        parse(&config(), 5, 0, &vout),
        Ok((
            ParseOutput::Destination("31h1vYVSYuKP6AhS86fbRdMw9XHieotbST".to_string()),
            paying("31h1vYVSYuKP6AhS86fbRdMw9XHieotbST", 9)
        ))
    );
}

#[test]
fn script_hash_is_noted_only_from_the_dispenser_height() {
    let activations = Activations { p2sh_dispensers: 10, ..all_on() };
    let vout = out(9, script(&[vec![0xa9], push(&[0u8; 20]), vec![0x87]]));
    assert_eq!(
        parse(&config_with(activations), 9, 0, &vout),
        Ok((ParseOutput::Destination("31h1vYVSYuKP6AhS86fbRdMw9XHieotbST".to_string()), nothing()))
    );
    assert_eq!(
        parse(&config_with(activations), 10, 0, &vout),
        Ok((
            ParseOutput::Destination("31h1vYVSYuKP6AhS86fbRdMw9XHieotbST".to_string()),
            paying("31h1vYVSYuKP6AhS86fbRdMw9XHieotbST", 9)
        ))
    );
}

#[test]
fn script_hash_is_unrecognized_before_its_height() {
    let activations = Activations { p2sh_addresses: 10, ..all_on() };
    let vout = out(9, script(&[vec![0xa9], push(&[0u8; 20]), vec![0x87]]));
    assert_eq!(
        parse(&config_with(activations), 9, 2, &vout),
        Err(failure("Unrecognized output type", 2))
    );
}

#[test]
fn script_hash_of_another_length_is_unrecognized() {
    let vout = out(9, script(&[vec![0xa9], push(&[0u8; 19]), vec![0x87]]));
    assert_eq!(parse(&config(), 5, 2, &vout), Err(failure("Unrecognized output type", 2)));
}

#[test]
fn witness_key_hash_pays_its_address() {
    let vout = out(33, script(&[vec![0x00], push(&[0u8; 20])]));
    let address = "bc1qqqqqqqqqqqqqqqqqqqqqqqqqqqqqqqqq9e75rs";
    assert_eq!(
        parse(&config(), 5, 0, &vout),
        Ok((ParseOutput::Destination(address.to_string()), paying(address, 33)))
    );
    let before_taproot = Activations { taproot_support: NEVER, ..all_on() };
    assert_eq!(
        parse(&config_with(before_taproot), 5, 0, &vout),
        Ok((ParseOutput::Destination(address.to_string()), paying(address, 33)))
    );
    let before_txid_fix =
        Activations { taproot_support: NEVER, correct_segwit_txids: NEVER, ..all_on() };
    assert_eq!(
        parse(&config_with(before_txid_fix), 5, 0, &vout),
        Ok((ParseOutput::Destination(address.to_string()), nothing()))
    );
}

#[test]
fn witness_program_follows_the_network() {
    let mut config = config();
    config.network = Network::Testnet;
    let vout = out(33, script(&[vec![0x00], push(&[0u8; 20])]));
    match parse(&config, 5, 0, &vout) {
        Ok((ParseOutput::Destination(address), _)) => assert!(address.starts_with("tb1q")),
        other => panic!("unexpected outcome {:?}", other),
    }
    config.network = Network::Regtest;
    match parse(&config, 5, 0, &vout) {
        Ok((ParseOutput::Destination(address), _)) => assert!(address.starts_with("bcrt1q")),
        other => panic!("unexpected outcome {:?}", other),
    }
    config.network = Network::Signet;
    match parse(&config, 5, 0, &vout) {
        Ok((ParseOutput::Destination(address), _)) => assert!(address.starts_with("tb1q")),
        other => panic!("unexpected outcome {:?}", other),
    }
}

#[test]
fn witness_program_is_unrecognized_before_segwit() {
    let activations = Activations { segwit: 10, taproot_support: 20, ..all_on() };
    let vout = out(33, script(&[vec![0x00], push(&[0u8; 20])]));
    assert_eq!(
        parse(&config_with(activations), 9, 0, &vout),
        Err(failure("Unrecognized output type", 0))
    );
    assert!(parse(&config_with(activations), 10, 0, &vout).is_ok());
}

#[test]
fn taproot_output_pays_its_address_once_taproot_is_read() {
    let script_pubkey = script(&[vec![0x51], push(&[0x11u8; 32])]);
    let vout = out(546, script_pubkey.clone());
    let expected = bitcoin::Address::from_script(
        bitcoin::Script::from_bytes(&script_pubkey),
        bitcoin::Network::Bitcoin,
    )
    .unwrap()
    .to_string();
    assert!(expected.starts_with("bc1p"));
    assert_eq!(
        parse(&config(), 5, 0, &vout),
        Ok((ParseOutput::Destination(expected.clone()), paying(&expected, 546)))
    );
    let activations = Activations { taproot_support: 10, ..all_on() };
    assert_eq!(
        parse(&config_with(activations), 9, 0, &vout),
        Err(failure("Unrecognized output type", 0))
    );
}

#[test]
fn script_that_opens_like_a_witness_program_but_is_none_has_no_address() {
    let vout = out(33, script(&[vec![0x00], push(&[0u8; 5]), vec![0x51]]));
    match parse(&config(), 5, 0, &vout) {
        Err(Error::ParseVout(message)) => {
            assert!(message.starts_with("Segwit script to address failed: "));
            assert!(message.len() > "Segwit script to address failed: ".len());
        }
        other => panic!("unexpected outcome {:?}", other),
    }
}

#[test]
fn script_of_no_known_shape_is_unrecognized() {
    let vout = out(1, vec![0x76, 0xa9]);
    assert_eq!(parse(&config(), 5, 12, &vout), Err(failure("Unrecognized output type", 12)));
    let empty = out(1, Vec::new());
    assert_eq!(parse(&config(), 5, 0, &empty), Err(failure("Unrecognized output type", 0)));
    let without_checksig = out(1, script(&[vec![0x76, 0xa9], push(&[0u8; 20]), vec![0x88]]));
    assert_eq!(
        parse(&config(), 5, 100, &without_checksig),
        Err(failure("Unrecognized output type", 100))
    );
}

#[test]
fn script_that_breaks_off_in_a_push_is_unrecognized() {
    let vout = out(1, vec![0x76, 0x05, 0x01]);
    assert_eq!(parse(&config(), 5, 0, &vout), Err(failure("Unrecognized output type", 0)));
}

#[test]
fn instructions_decide_the_outcome() {
    let hash = vec![0u8; 20];
    let instructions = vec![
        Instruction::Op(0xa9),
        Instruction::PushBytes(hash),
        Instruction::Op(0x87),
    ];
    let vout = out(9, vec![0xff]);
    assert_eq!(
        parse_instructions(&config(), &key(), 5, &txid(), 0, &vout, &instructions),
        Ok((
            ParseOutput::Destination("31h1vYVSYuKP6AhS86fbRdMw9XHieotbST".to_string()),
            paying("31h1vYVSYuKP6AhS86fbRdMw9XHieotbST", 9)
        ))
    );
}

#[test]
fn same_output_parses_the_same_twice() {
    let cipher = encrypt(&key(), b"CNTRPRTYHELLO");
    let vout = out(0, script(&[vec![0x6a], push(&cipher)]));
    assert_eq!(parse(&config(), 5, 0, &vout), parse(&config(), 5, 0, &vout));
}

#[test]
fn address_is_base58_of_the_bytes_and_their_checksum() {
    let hash = [0x42u8; 20];
    let vout = out(7, script(&[vec![0xa9], push(&hash), vec![0x87]]));
    let mut bytes = vec![5u8];
    bytes.extend_from_slice(&hash);
    let once: bitcoin::hashes::sha256::Hash = bitcoin::hashes::Hash::hash(&bytes);
    let twice: bitcoin::hashes::sha256::Hash =
        bitcoin::hashes::Hash::hash(&bitcoin::hashes::Hash::to_byte_array(once));
    bytes.extend_from_slice(&bitcoin::hashes::Hash::to_byte_array(twice)[..4]);
    let address = bitcoin::base58::encode(&bytes);
    assert_eq!(
        parse(&config(), 5, 0, &vout),
        Ok((ParseOutput::Destination(address.clone()), paying(&address, 7)))
    );
}

use counterparty_rs::chain::{Header, OutPoint, RawBlock, RawTransaction, TxIn, TxOut};
use counterparty_rs::config::Mode;
use counterparty_rs::entries::{emit_entries, summarize, Entry, TxSummary};

fn test_h160_hash(i: u32) -> [u8; 20] {
    let mut hash = [0u8; 20];
    hash[..4].copy_from_slice(&i.to_be_bytes());
    hash
}

fn test_sha256_hash(i: u32) -> [u8; 32] {
    let mut hash = [0u8; 32];
    hash[..4].copy_from_slice(&i.to_be_bytes());
    hash
}

fn bytes_of<H: bitcoin::hashes::Hash>(hash: H) -> H::Bytes {
    hash.to_byte_array()
}

fn hash_of<H: bitcoin::hashes::Hash>(bytes: &[u8]) -> H {
    H::from_slice(bytes).unwrap()
}

fn test_block_hash(i: u32) -> [u8; 32] {
    test_sha256_hash(i)
}

fn one_transaction(script_pubkey: Vec<u8>) -> RawTransaction {
    RawTransaction {
        version: 1,
        lock_time: 0,
        input: vec![TxIn {
            previous_output: OutPoint { txid: test_sha256_hash(0), vout: 1 },
            script_sig: test_h160_hash(0).to_vec(),
            sequence: u32::MAX,
            witness: Vec::new(),
        }],
        output: vec![TxOut { value: 1, script_pubkey }],
    }
}

fn one_block(height: u32, txdata: Vec<RawTransaction>) -> RawBlock {
    RawBlock {
        header: Header {
            version: 1,
            prev_blockhash: test_block_hash(1),
            merkle_root: test_sha256_hash(height),
            time: 1234567890,
            bits: 0,
            nonce: 0,
        },
        txdata,
    }
}

fn outside_transaction(script_pubkey: Vec<u8>) -> bitcoin::Transaction {
    bitcoin::Transaction {
        version: bitcoin::transaction::Version::ONE,
        lock_time: bitcoin::absolute::LockTime::ZERO,
        input: vec![bitcoin::TxIn {
            previous_output: bitcoin::OutPoint {
                txid: bitcoin::Txid::from_raw_hash(hash_of(&test_sha256_hash(0))),
                vout: 1,
            },
            script_sig: bitcoin::ScriptBuf::from_bytes(test_h160_hash(0).to_vec()),
            sequence: bitcoin::Sequence::MAX,
            witness: bitcoin::Witness::default(),
        }],
        output: vec![bitcoin::TxOut {
            value: bitcoin::Amount::from_sat(1),
            script_pubkey: bitcoin::ScriptBuf::from_bytes(script_pubkey),
        }],
    }
}

fn outside_header(height: u32) -> bitcoin::block::Header {
    bitcoin::block::Header {
        version: bitcoin::block::Version::ONE,
        prev_blockhash: hash_of(&test_block_hash(1)),
        merkle_root: bitcoin::TxMerkleNode::from_raw_hash(hash_of(&test_sha256_hash(height))),
        time: 1234567890,
        bits: bitcoin::CompactTarget::default(),
        nonce: 0,
    }
}

#[test]
fn test_get_entries() {
    let height = 2;

    let script_pubkey = test_h160_hash(0).to_vec();
    let block = one_block(height, vec![one_transaction(script_pubkey.clone())]);
    let outside_tx = outside_transaction(script_pubkey.clone());
    let outside_block_hash = outside_header(height).block_hash();

    let entries = block.get_entries(Mode::Indexer, height);

    match entries.first().unwrap() {
        Entry::BlockAtHeightHasHash { height: h, hash } => {
            assert_eq!(*h, height);
            assert_eq!(*hash, bytes_of(outside_block_hash));
        }
        other => panic!("unexpected entry {:?}", other),
    }

    match entries.get(1).unwrap() {
        Entry::TxInBlockAtHeight { txid, height: h } => {
            assert_eq!(*txid, bytes_of(outside_tx.compute_txid()));
            assert_eq!(*h, height);
        }
        other => panic!("unexpected entry {:?}", other),
    }

    match entries.get(2).unwrap() {
        Entry::BlockAtHeightSpentOutputInTx { txid, vout, height: h } => {
            assert_eq!(*txid, test_sha256_hash(0));
            assert_eq!(*vout, 1);
            assert_eq!(*h, height);
        }
        other => panic!("unexpected entry {:?}", other),
    }

    match entries.get(3).unwrap() {
        Entry::ScriptHashHasOutputsInBlockAtHeight { script_hash, height: h } => {
            assert_eq!(
                script_hash.to_vec(),
                bytes_of(bitcoin::ScriptBuf::from_bytes(script_pubkey).script_hash()).to_vec()
            );
            assert_eq!(*h, height);
        }
        other => panic!("unexpected entry {:?}", other),
    }
}

#[test]
fn indexer_mode_emits_four_entries_in_order() {
    let block = one_block(2, vec![one_transaction(test_h160_hash(0).to_vec())]);
    let entries = block.get_entries(Mode::Indexer, 2);
    assert_eq!(entries.len(), 4);
    assert!(matches!(entries[0], Entry::BlockAtHeightHasHash { height: 2, .. }));
    assert!(matches!(entries[1], Entry::TxInBlockAtHeight { height: 2, .. }));
    assert!(matches!(entries[2], Entry::BlockAtHeightSpentOutputInTx { vout: 1, height: 2, .. }));
    assert!(matches!(entries[3], Entry::ScriptHashHasOutputsInBlockAtHeight { height: 2, .. }));
}

#[test]
fn fetcher_mode_emits_only_the_block_hash() {
    let height = 7;
    let block = one_block(height, vec![one_transaction(test_h160_hash(0).to_vec())]);
    let entries = block.get_entries(Mode::Fetcher, height);
    assert_eq!(entries.len(), 1);
    match entries[0] {
        Entry::BlockAtHeightHasHash { height: h, hash } => {
            assert_eq!(h, height);
            assert_eq!(hash, bytes_of(outside_header(height).block_hash()));
        }
        other => panic!("unexpected entry {:?}", other),
    }
}

#[test]
fn block_without_transactions_has_one_entry() {
    let block = one_block(3, Vec::new());
    assert_eq!(block.get_entries(Mode::Indexer, 3).len(), 1);
}

#[test]
fn genesis_header_has_the_known_hash() {
    let mut merkle_root = [0u8; 32];
    let displayed = "4a5e1e4baab89f3a32518a88c31bc87f618f76673e2cc77ab2127b7afdeda33b";
    for i in 0..32 {
        merkle_root[31 - i] = u8::from_str_radix(&displayed[2 * i..2 * i + 2], 16).unwrap();
    }
    let block = RawBlock {
        header: Header {
            version: 1,
            prev_blockhash: [0u8; 32],
            merkle_root,
            time: 1231006505,
            bits: 0x1d00ffff,
            nonce: 2083236893,
        },
        txdata: Vec::new(),
    };
    let entries = block.get_entries(Mode::Fetcher, 0);
    match entries[0] {
        Entry::BlockAtHeightHasHash { hash, .. } => {
            let mut shown = String::new();
            for byte in hash.iter().rev() {
                shown.push_str(&format!("{:02x}", byte));
            }
            assert_eq!(shown, "000000000019d6689c085ae165831e934ff763ae46a2a6c172b3f1b60a8ce26f");
        }
        other => panic!("unexpected entry {:?}", other),
    }
}

#[test]
fn repeated_script_hash_is_emitted_once_at_its_first_place() {
    let a = vec![0x51];
    let b = vec![0x52];
    let mut first = one_transaction(a.clone());
    first.output.push(TxOut { value: 2, script_pubkey: b.clone() });
    first.output.push(TxOut { value: 3, script_pubkey: a.clone() });
    let mut second = one_transaction(b.clone());
    second.output.push(TxOut { value: 5, script_pubkey: vec![0x53] });
    let block = one_block(9, vec![first, second]);
    let entries = block.get_entries(Mode::Indexer, 9);
    let hashes: Vec<Vec<u8>> = entries
        .iter()
        .filter_map(|entry| match entry {
            Entry::ScriptHashHasOutputsInBlockAtHeight { script_hash, .. } => {
                Some(script_hash.to_vec())
            }
            _ => None,
        })
        .collect();
    let expected: Vec<Vec<u8>> = [a, b, vec![0x53]]
        .iter()
        .map(|script| {
            bytes_of(bitcoin::ScriptBuf::from_bytes(script.clone()).script_hash()).to_vec()
        })
        .collect();
    assert_eq!(hashes, expected);
    // block, tx, input, two hashes, tx, input, one hash
    assert_eq!(entries.len(), 8);
    assert!(matches!(entries[5], Entry::TxInBlockAtHeight { .. }));
    assert!(matches!(entries[7], Entry::ScriptHashHasOutputsInBlockAtHeight { .. }));
}

#[test]
fn inputs_are_emitted_in_order() {
    let mut tx = one_transaction(vec![0x51]);
    tx.input.push(TxIn {
        previous_output: OutPoint { txid: test_sha256_hash(5), vout: 9 },
        script_sig: Vec::new(),
        sequence: 0,
        witness: Vec::new(),
    });
    let block = one_block(4, vec![tx]);
    let entries = block.get_entries(Mode::Indexer, 4);
    match (entries[2], entries[3]) {
        (
            Entry::BlockAtHeightSpentOutputInTx { txid: first, vout: 1, height: 4 },
            Entry::BlockAtHeightSpentOutputInTx { txid: second, vout: 9, height: 4 },
        ) => {
            assert_eq!(first, test_sha256_hash(0));
            assert_eq!(second, test_sha256_hash(5));
        }
        other => panic!("unexpected entries {:?}", other),
    }
}

#[test]
fn previous_block_hash_is_the_header_field() {
    let block = one_block(2, Vec::new());
    assert_eq!(*block.get_prev_block_hash(), test_block_hash(1));
}

#[test]
fn entries_are_the_same_on_a_second_run() {
    let block = one_block(2, vec![one_transaction(test_h160_hash(0).to_vec())]);
    let first = format!("{:?}", block.get_entries(Mode::Indexer, 2));
    let second = format!("{:?}", block.get_entries(Mode::Indexer, 2));
    assert_eq!(first, second);
}

fn summary(txid: u8, spent: &[(u8, u32)], script_hashes: &[u8]) -> TxSummary {
    TxSummary {
        txid: [txid; 32],
        spent: spent.iter().map(|(txid, vout)| OutPoint { txid: [*txid; 32], vout: *vout }).collect(),
        script_hashes: script_hashes.iter().map(|byte| [*byte; 20]).collect(),
    }
}

#[test]
fn entries_follow_from_the_summaries() {
    let summaries = vec![
        summary(1, &[(9, 0)], &[7, 8, 7]),
        summary(2, &[], &[]),
        summary(3, &[(1, 1), (1, 2)], &[8, 6, 6, 7]),
    ];
    let entries = emit_entries(&[5u8; 32], &summaries, Mode::Indexer, 11);
    let height = 11;
    assert_eq!(
        entries,
        vec![
            Entry::BlockAtHeightHasHash { height, hash: [5u8; 32] },
            Entry::TxInBlockAtHeight { txid: [1u8; 32], height },
            Entry::BlockAtHeightSpentOutputInTx { txid: [9u8; 32], vout: 0, height },
            Entry::ScriptHashHasOutputsInBlockAtHeight { script_hash: [7u8; 20], height },
            Entry::ScriptHashHasOutputsInBlockAtHeight { script_hash: [8u8; 20], height },
            Entry::TxInBlockAtHeight { txid: [2u8; 32], height },
            Entry::TxInBlockAtHeight { txid: [3u8; 32], height },
            Entry::BlockAtHeightSpentOutputInTx { txid: [1u8; 32], vout: 1, height },
            Entry::BlockAtHeightSpentOutputInTx { txid: [1u8; 32], vout: 2, height },
            Entry::ScriptHashHasOutputsInBlockAtHeight { script_hash: [6u8; 20], height },
        ]
    );
    assert_eq!(
        emit_entries(&[5u8; 32], &summaries, Mode::Fetcher, 11),
        vec![Entry::BlockAtHeightHasHash { height, hash: [5u8; 32] }]
    );
    assert_eq!(
        emit_entries(&[5u8; 32], &Vec::new(), Mode::Indexer, 11),
        vec![Entry::BlockAtHeightHasHash { height, hash: [5u8; 32] }]
    );
}

#[test]
fn script_hashes_that_differ_in_one_byte_are_both_emitted() {
    let mut other = [7u8; 20];
    other[19] = 8;
    let summaries = vec![TxSummary {
        txid: [1u8; 32],
        spent: Vec::new(),
        script_hashes: vec![[7u8; 20], other, [7u8; 20], other],
    }];
    let entries = emit_entries(&[0u8; 32], &summaries, Mode::Indexer, 1);
    assert_eq!(entries.len(), 4);
    assert_eq!(
        entries[3],
        Entry::ScriptHashHasOutputsInBlockAtHeight { script_hash: other, height: 1 }
    );
}

#[test]
fn summary_holds_the_identifier_the_inputs_and_the_script_hashes() {
    let mut tx = one_transaction(vec![0x51]);
    tx.output.push(TxOut { value: 2, script_pubkey: vec![0x52] });
    let reference = outside_transaction(vec![0x51]);
    let found = summarize(&tx);
    let mut with_second = reference.clone();
    with_second.output.push(bitcoin::TxOut {
        value: bitcoin::Amount::from_sat(2),
        script_pubkey: bitcoin::ScriptBuf::from_bytes(vec![0x52]),
    });
    assert_eq!(found.txid, bytes_of(with_second.compute_txid()));
    assert_eq!(found.spent, vec![OutPoint { txid: test_sha256_hash(0), vout: 1 }]);
    assert_eq!(
        found.script_hashes,
        vec![
            bytes_of(bitcoin::ScriptBuf::from_bytes(vec![0x51]).script_hash()),
            bytes_of(bitcoin::ScriptBuf::from_bytes(vec![0x52]).script_hash()),
        ]
    );
}

fn sha256_of(data: &[u8]) -> Vec<u8> {
    let digest: bitcoin::hashes::sha256::Hash = bitcoin::hashes::Hash::hash(data);
    bytes_of(digest).to_vec()
}

fn ripemd160_of(data: &[u8]) -> Vec<u8> {
    let digest: bitcoin::hashes::ripemd160::Hash = bitcoin::hashes::Hash::hash(data);
    bytes_of(digest).to_vec()
}

#[test]
fn block_hash_is_the_double_digest_of_the_eighty_header_bytes() {
    let block = RawBlock {
        header: Header {
            version: -3,
            prev_blockhash: test_block_hash(1),
            merkle_root: test_sha256_hash(2),
            time: 0x0102_0304,
            bits: 0x1d00_ffff,
            nonce: 0xfffe_fdfc,
        },
        txdata: Vec::new(),
    };
    let mut encoded = Vec::new();
    encoded.extend_from_slice(&[0xfd, 0xff, 0xff, 0xff]);
    encoded.extend_from_slice(&test_block_hash(1));
    encoded.extend_from_slice(&test_sha256_hash(2));
    encoded.extend_from_slice(&[0x04, 0x03, 0x02, 0x01]);
    encoded.extend_from_slice(&[0xff, 0xff, 0x00, 0x1d]);
    encoded.extend_from_slice(&[0xfc, 0xfd, 0xfe, 0xff]);
    assert_eq!(encoded.len(), 80);
    let expected = sha256_of(&sha256_of(&encoded));
    match block.get_entries(Mode::Fetcher, 0)[0] {
        Entry::BlockAtHeightHasHash { hash, .. } => assert_eq!(hash.to_vec(), expected),
        other => panic!("unexpected entry {:?}", other),
    }
}

#[test]
fn script_hash_is_ripemd160_of_sha256() {
    let script = vec![0x76, 0xa9, 0x01, 0x02, 0x88, 0xac];
    let found = summarize(&one_transaction(script.clone()));
    assert_eq!(found.script_hashes[0].to_vec(), ripemd160_of(&sha256_of(&script)));
}

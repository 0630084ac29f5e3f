//! Blocks and transactions as they come off the chain, held as plain values,
//! and the identifiers that the Bitcoin library computes from them.

use bitcoin::absolute::LockTime;
use bitcoin::transaction::Version;
use bitcoin::{
    hashes, Amount, OutPoint as BitcoinOutPoint, ScriptBuf, Sequence, Transaction as BitcoinTransaction,
    TxIn as BitcoinTxIn, TxOut as BitcoinTxOut, Witness,
};
use crate::digest::{sha256, sha256d};
use vstd::bytes::spec_u32_to_le_bytes;
use vstd::prelude::*;

verus! {

/// A reference to an output of an earlier transaction.
#[derive(Clone, Copy, Debug, PartialEq, Eq)]
pub struct OutPoint {
    pub txid: [u8; 32],
    pub vout: u32,
}

/// An input of a transaction.
#[derive(Clone, Debug, PartialEq, Eq)]
pub struct TxIn {
    pub previous_output: OutPoint,
    pub script_sig: Vec<u8>,
    pub sequence: u32,
    pub witness: Vec<Vec<u8>>,
}

/// An output of a transaction.
#[derive(Clone, Debug, PartialEq, Eq)]
pub struct TxOut {
    pub value: u64,
    pub script_pubkey: Vec<u8>,
}

/// A transaction.
#[derive(Clone, Debug, PartialEq, Eq)]
pub struct RawTransaction {
    pub version: i32,
    pub lock_time: u32,
    pub input: Vec<TxIn>,
    pub output: Vec<TxOut>,
}

/// The header of a block.
#[derive(Clone, Copy, Debug, PartialEq, Eq)]
pub struct Header {
    pub version: i32,
    pub prev_blockhash: [u8; 32],
    pub merkle_root: [u8; 32],
    pub time: u32,
    pub bits: u32,
    pub nonce: u32,
}

/// A block.
#[derive(Clone, Debug, PartialEq, Eq)]
pub struct RawBlock {
    pub header: Header,
    pub txdata: Vec<RawTransaction>,
}

pub struct TxInView {
    pub txid: Seq<u8>,
    pub vout: u32,
    pub script_sig: Seq<u8>,
    pub sequence: u32,
    pub witness: Seq<Seq<u8>>,
}

pub struct TxOutView {
    pub value: u64,
    pub script_pubkey: Seq<u8>,
}

pub struct RawTransactionView {
    pub version: i32,
    pub lock_time: u32,
    pub input: Seq<TxInView>,
    pub output: Seq<TxOutView>,
}

pub struct HeaderView {
    pub version: i32,
    pub prev_blockhash: Seq<u8>,
    pub merkle_root: Seq<u8>,
    pub time: u32,
    pub bits: u32,
    pub nonce: u32,
}

/// The views of a list of byte strings, in order.
pub open spec fn byte_strings(items: Seq<Vec<u8>>) -> Seq<Seq<u8>> {
    items.map_values(|item: Vec<u8>| item@)
}

impl View for TxIn {
    type V = TxInView;

    open spec fn view(&self) -> TxInView {
        TxInView {
            txid: self.previous_output.txid@,
            vout: self.previous_output.vout,
            script_sig: self.script_sig@,
            sequence: self.sequence,
            witness: byte_strings(self.witness@),
        }
    }
}

impl View for TxOut {
    type V = TxOutView;

    open spec fn view(&self) -> TxOutView {
        TxOutView { value: self.value, script_pubkey: self.script_pubkey@ }
    }
}

impl View for RawTransaction {
    type V = RawTransactionView;

    open spec fn view(&self) -> RawTransactionView {
        RawTransactionView {
            version: self.version,
            lock_time: self.lock_time,
            input: self.input@.map_values(|i: TxIn| i@),
            output: self.output@.map_values(|o: TxOut| o@),
        }
    }
}

impl View for Header {
    type V = HeaderView;

    open spec fn view(&self) -> HeaderView {
        HeaderView {
            version: self.version,
            prev_blockhash: self.prev_blockhash@,
            merkle_root: self.merkle_root@,
            time: self.time,
            bits: self.bits,
            nonce: self.nonce,
        }
    }
}

pub struct RawBlockView {
    pub header: HeaderView,
    pub txdata: Seq<RawTransactionView>,
}

impl View for RawBlock {
    type V = RawBlockView;

    open spec fn view(&self) -> RawBlockView {
        RawBlockView {
            header: self.header@,
            txdata: self.txdata@.map_values(|tx: RawTransaction| tx@),
        }
    }
}

/// The identifier of a transaction: the hash of its encoding without witnesses.
pub uninterp spec fn txid_of(tx: RawTransactionView) -> Seq<u8>;

/// The consensus encoding of a transaction.
pub uninterp spec fn consensus_encoding(tx: RawTransactionView) -> Seq<u8>;

/// The witness identifier of a transaction: the double SHA-256 digest of
/// its encoding.
pub open spec fn wtxid_of(tx: RawTransactionView) -> Seq<u8> {
    sha256d(consensus_encoding(tx))
}

/// The consensus encoding of a block header: its six fields in order, the
/// numbers in four bytes each, lowest byte first.
pub open spec fn header_encoding(header: HeaderView) -> Seq<u8> {
    spec_u32_to_le_bytes(header.version as u32) + header.prev_blockhash + header.merkle_root
        + spec_u32_to_le_bytes(header.time) + spec_u32_to_le_bytes(header.bits)
        + spec_u32_to_le_bytes(header.nonce)
}

/// The hash of a block header: the double SHA-256 digest of its encoding.
pub open spec fn block_hash_of(header: HeaderView) -> Seq<u8> {
    sha256d(header_encoding(header))
}

/// `bitcoin::Transaction::compute_txid` on a transaction of the same values:
/// the identifier is named.
#[verifier::external_body]
pub(crate) fn compute_txid(tx: &RawTransaction) -> (txid: [u8; 32])
    ensures
        txid@ == txid_of(tx@),
{
    let input = tx.input.iter().map(|i| BitcoinTxIn {
        previous_output: BitcoinOutPoint::new(hashes::Hash::from_byte_array(i.previous_output.txid), i.previous_output.vout),
        script_sig: ScriptBuf::from_bytes(i.script_sig.clone()),
        sequence: Sequence(i.sequence),
        witness: Witness::from_slice(&i.witness),
    }).collect();
    let output = tx.output.iter().map(|o| BitcoinTxOut {
        value: Amount::from_sat(o.value),
        script_pubkey: ScriptBuf::from_bytes(o.script_pubkey.clone()),
    }).collect();
    let version = Version(tx.version);
    let lock_time = LockTime::from_consensus(tx.lock_time);
    hashes::Hash::to_byte_array(BitcoinTransaction { version, lock_time, input, output }.compute_txid())
}

/// `bitcoin::Transaction::compute_wtxid` on a transaction of the same values:
/// the double SHA-256 digest of what `bitcoin::consensus::serialize` gives.
#[verifier::external_body]
pub(crate) fn compute_wtxid(tx: &RawTransaction) -> (wtxid: [u8; 32])
    ensures
        wtxid@ == sha256(sha256(consensus_encoding(tx@))),
{
    let input = tx.input.iter().map(|i| BitcoinTxIn {
        previous_output: BitcoinOutPoint::new(hashes::Hash::from_byte_array(i.previous_output.txid), i.previous_output.vout),
        script_sig: ScriptBuf::from_bytes(i.script_sig.clone()),
        sequence: Sequence(i.sequence),
        witness: Witness::from_slice(&i.witness),
    }).collect();
    let output = tx.output.iter().map(|o| BitcoinTxOut {
        value: Amount::from_sat(o.value),
        script_pubkey: ScriptBuf::from_bytes(o.script_pubkey.clone()),
    }).collect();
    let version = Version(tx.version);
    let lock_time = LockTime::from_consensus(tx.lock_time);
    hashes::Hash::to_byte_array(BitcoinTransaction { version, lock_time, input, output }.compute_wtxid())
}

/// `bitcoin::consensus::serialize` on a transaction of the same values: the
/// encoding is named.
#[verifier::external_body]
pub(crate) fn serialize(tx: &RawTransaction) -> (bytes: Vec<u8>)
    ensures
        bytes@ == consensus_encoding(tx@),
{
    let input = tx.input.iter().map(|i| BitcoinTxIn {
        previous_output: BitcoinOutPoint::new(hashes::Hash::from_byte_array(i.previous_output.txid), i.previous_output.vout),
        script_sig: ScriptBuf::from_bytes(i.script_sig.clone()),
        sequence: Sequence(i.sequence),
        witness: Witness::from_slice(&i.witness),
    }).collect();
    let output = tx.output.iter().map(|o| BitcoinTxOut {
        value: Amount::from_sat(o.value),
        script_pubkey: ScriptBuf::from_bytes(o.script_pubkey.clone()),
    }).collect();
    let version = Version(tx.version);
    let lock_time = LockTime::from_consensus(tx.lock_time);
    bitcoin::consensus::serialize(&BitcoinTransaction { version, lock_time, input, output })
}

/// `bitcoin::block::Header::block_hash` on a header of the same values: the
/// double SHA-256 digest of the header's 80 bytes.
#[verifier::external_body]
pub(crate) fn block_hash(header: &Header) -> (hash: [u8; 32])
    ensures
        hash@ == sha256(sha256(header_encoding(header@))),
{
    let outside = bitcoin::block::Header {
        version: bitcoin::block::Version::from_consensus(header.version),
        prev_blockhash: hashes::Hash::from_byte_array(header.prev_blockhash),
        merkle_root: hashes::Hash::from_byte_array(header.merkle_root),
        time: header.time,
        bits: bitcoin::CompactTarget::from_consensus(header.bits),
        nonce: header.nonce,
    };
    hashes::Hash::to_byte_array(outside.block_hash())
}

} // verus!

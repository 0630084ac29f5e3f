//! The normalized records that parsing produces.

use crate::text::string_views;
use crate::vout::{PotentialDispenser, PotentialDispenserView};
use vstd::prelude::*;

verus! {

/// An output as it stood in the transaction.
#[derive(Clone, Debug, PartialEq, Eq)]
pub struct Vout {
    pub value: u64,
    pub script_pub_key: Vec<u8>,
}

pub struct VoutView {
    pub value: u64,
    pub script_pub_key: Seq<u8>,
}

impl View for Vout {
    type V = VoutView;

    open spec fn view(&self) -> VoutView {
        VoutView { value: self.value, script_pub_key: self.script_pub_key@ }
    }
}

/// The output that an input spends.
#[derive(Clone, Debug, PartialEq, Eq)]
pub struct VinOutput {
    pub value: u64,
    pub script_pub_key: Vec<u8>,
    pub is_segwit: bool,
}

pub struct VinOutputView {
    pub value: u64,
    pub script_pub_key: Seq<u8>,
    pub is_segwit: bool,
}

impl View for VinOutput {
    type V = VinOutputView;

    open spec fn view(&self) -> VinOutputView {
        VinOutputView {
            value: self.value,
            script_pub_key: self.script_pub_key@,
            is_segwit: self.is_segwit,
        }
    }
}

/// An input, with the output it spends where that was resolved.
#[derive(Clone, Debug, PartialEq, Eq)]
pub struct Vin {
    pub hash: String,
    pub n: u32,
    pub sequence: u32,
    pub script_sig: Vec<u8>,
    pub info: Option<VinOutput>,
}

pub struct VinView {
    pub hash: Seq<char>,
    pub n: u32,
    pub sequence: u32,
    pub script_sig: Seq<u8>,
    pub info: Option<VinOutputView>,
}

impl View for Vin {
    type V = VinView;

    open spec fn view(&self) -> VinView {
        VinView {
            hash: self.hash@,
            n: self.n,
            sequence: self.sequence,
            script_sig: self.script_sig@,
            info: match self.info {
                Some(info) => Some(info@),
                None => None,
            },
        }
    }
}

/// What the outputs of a transaction decode to, taken together.
#[derive(Clone, Debug, PartialEq, Eq)]
pub struct ParsedVouts {
    pub destinations: Vec<String>,
    pub btc_amount: i64,
    pub fee: i64,
    pub data: Vec<u8>,
    pub potential_dispensers: Vec<PotentialDispenser>,
    pub is_reveal_tx: bool,
}

pub struct ParsedVoutsView {
    pub destinations: Seq<Seq<char>>,
    pub btc_amount: i64,
    pub fee: i64,
    pub data: Seq<u8>,
    pub potential_dispensers: Seq<PotentialDispenserView>,
    pub is_reveal_tx: bool,
}

/// The views of a list of notes, in order.
pub open spec fn dispenser_views(notes: Seq<PotentialDispenser>) -> Seq<PotentialDispenserView> {
    notes.map_values(|note: PotentialDispenser| note@)
}

impl View for ParsedVouts {
    type V = ParsedVoutsView;

    open spec fn view(&self) -> ParsedVoutsView {
        ParsedVoutsView {
            destinations: string_views(self.destinations@),
            btc_amount: self.btc_amount,
            fee: self.fee,
            data: self.data@,
            potential_dispensers: dispenser_views(self.potential_dispensers@),
            is_reveal_tx: self.is_reveal_tx,
        }
    }
}

/// A transaction, normalized.
#[derive(Debug, PartialEq, Eq)]
pub struct Transaction {
    pub version: i32,
    pub segwit: bool,
    pub coinbase: bool,
    pub lock_time: u32,
    pub tx_id: String,
    pub tx_hash: String,
    pub vtxinwit: Vec<Vec<String>>,
    pub vin: Vec<Vin>,
    pub vout: Vec<Vout>,
    pub parsed_vouts: Result<ParsedVouts, String>,
}

pub struct TransactionView {
    pub version: i32,
    pub segwit: bool,
    pub coinbase: bool,
    pub lock_time: u32,
    pub tx_id: Seq<char>,
    pub tx_hash: Seq<char>,
    pub vtxinwit: Seq<Seq<Seq<char>>>,
    pub vin: Seq<VinView>,
    pub vout: Seq<VoutView>,
    pub parsed_vouts: Result<ParsedVoutsView, Seq<char>>,
}

/// The views of the witness stacks of a transaction, in order.
pub open spec fn witness_views(stacks: Seq<Vec<String>>) -> Seq<Seq<Seq<char>>> {
    stacks.map_values(|stack: Vec<String>| string_views(stack@))
}

/// The view of the outcome of decoding the outputs.
pub open spec fn parsed_vouts_view(parsed: Result<ParsedVouts, String>) -> Result<
    ParsedVoutsView,
    Seq<char>,
> {
    match parsed {
        Ok(p) => Ok(p@),
        Err(message) => Err(message@),
    }
}

impl View for Transaction {
    type V = TransactionView;

    open spec fn view(&self) -> TransactionView {
        TransactionView {
            version: self.version,
            segwit: self.segwit,
            coinbase: self.coinbase,
            lock_time: self.lock_time,
            tx_id: self.tx_id@,
            tx_hash: self.tx_hash@,
            vtxinwit: witness_views(self.vtxinwit@),
            vin: self.vin@.map_values(|i: Vin| i@),
            vout: self.vout@.map_values(|o: Vout| o@),
            parsed_vouts: parsed_vouts_view(self.parsed_vouts),
        }
    }
}

/// A block, normalized.
#[derive(Debug, PartialEq, Eq)]
pub struct Block {
    pub height: u32,
    pub version: i32,
    pub hash_prev: String,
    pub hash_merkle_root: String,
    pub block_time: u32,
    pub bits: u32,
    pub nonce: u32,
    pub block_hash: String,
    pub transaction_count: usize,
    pub transactions: Vec<Transaction>,
}

pub struct BlockView {
    pub height: u32,
    pub version: i32,
    pub hash_prev: Seq<char>,
    pub hash_merkle_root: Seq<char>,
    pub block_time: u32,
    pub bits: u32,
    pub nonce: u32,
    pub block_hash: Seq<char>,
    pub transaction_count: usize,
    pub transactions: Seq<TransactionView>,
}

impl View for Block {
    type V = BlockView;

    open spec fn view(&self) -> BlockView {
        BlockView {
            height: self.height,
            version: self.version,
            hash_prev: self.hash_prev@,
            hash_merkle_root: self.hash_merkle_root@,
            block_time: self.block_time,
            bits: self.bits,
            nonce: self.nonce,
            block_hash: self.block_hash@,
            transaction_count: self.transaction_count,
            transactions: self.transactions@.map_values(|t: Transaction| t@),
        }
    }
}

} // verus!

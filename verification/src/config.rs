//! Settings of a parse: protocol magic, address versions, network, and the
//! heights at which each rule set starts to apply.

use vstd::prelude::*;

verus! {

/// The Bitcoin network whose addresses are produced.
#[derive(Clone, Copy, Debug, PartialEq, Eq, Structural)]
pub enum Network {
    Mainnet,
    Testnet,
    Regtest,
    Signet,
}

/// What a block is read for: the full index, or only its hash.
#[derive(Clone, Copy, Debug, PartialEq, Eq, Structural)]
pub enum Mode {
    Indexer,
    Fetcher,
}

/// The first height at which each rule set applies.
#[derive(Clone, Copy, Debug, PartialEq, Eq, Structural)]
pub struct Activations {
    pub multisig_addresses: u32,
    pub p2sh_addresses: u32,
    pub p2sh_dispensers: u32,
    pub segwit: u32,
    pub correct_segwit_txids: u32,
    pub fix_is_segwit: u32,
    pub taproot_support: u32,
}

/// Read-only settings, fixed for the length of a parse.
#[derive(Clone, Debug)]
pub struct Config {
    pub mode: Mode,
    pub network: Network,
    /// The magic bytes that open every payload.
    pub prefix: Vec<u8>,
    pub address_version: Vec<u8>,
    pub p2sh_address_version: Vec<u8>,
    /// The destination that freezes the list of destinations once it stands alone.
    pub unspendable: String,
    pub rpc_address: String,
    pub rpc_user: String,
    pub rpc_password: String,
    pub activations: Activations,
}

impl Config {
    /// Whether `height` has reached the activation height `multisig_addresses`.
    pub open spec fn multisig_addresses_at(&self, height: u32) -> bool {
        height >= self.activations.multisig_addresses
    }

    /// Whether `height` has reached the activation height `p2sh_addresses`.
    pub open spec fn p2sh_addresses_at(&self, height: u32) -> bool {
        height >= self.activations.p2sh_addresses
    }

    /// Whether `height` has reached the activation height `p2sh_dispensers`.
    pub open spec fn p2sh_dispensers_at(&self, height: u32) -> bool {
        height >= self.activations.p2sh_dispensers
    }

    /// Whether `height` has reached the activation height `segwit`.
    pub open spec fn segwit_at(&self, height: u32) -> bool {
        height >= self.activations.segwit
    }

    /// Whether `height` has reached the activation height `correct_segwit_txids`.
    pub open spec fn correct_segwit_txids_at(&self, height: u32) -> bool {
        height >= self.activations.correct_segwit_txids
    }

    /// Whether `height` has reached the activation height `fix_is_segwit`.
    pub open spec fn fix_is_segwit_at(&self, height: u32) -> bool {
        height >= self.activations.fix_is_segwit
    }

    /// Whether `height` has reached the activation height `taproot_support`.
    pub open spec fn taproot_at(&self, height: u32) -> bool {
        height >= self.activations.taproot_support
    }

    /// Whether outputs are decoded at all at `height`.
    pub fn multisig_addresses_enabled(&self, height: u32) -> (enabled: bool)
        ensures
            enabled == self.multisig_addresses_at(height),
    {
        height >= self.activations.multisig_addresses
    }

    /// Whether pay-to-script-hash outputs count as destinations at `height`.
    pub fn p2sh_address_supported(&self, height: u32) -> (enabled: bool)
        ensures
            enabled == self.p2sh_addresses_at(height),
    {
        height >= self.activations.p2sh_addresses
    }

    /// Whether pay-to-script-hash outputs are noted as possible dispensers at `height`.
    pub fn p2sh_dispensers_supported(&self, height: u32) -> (enabled: bool)
        ensures
            enabled == self.p2sh_dispensers_at(height),
    {
        height >= self.activations.p2sh_dispensers
    }

    /// Whether version-0 witness outputs count as destinations at `height`.
    pub fn segwit_supported(&self, height: u32) -> (enabled: bool)
        ensures
            enabled == self.segwit_at(height),
    {
        height >= self.activations.segwit
    }

    /// Whether a transaction with witness data is identified by its txid at `height`.
    pub fn correct_segwit_txids_enabled(&self, height: u32) -> (enabled: bool)
        ensures
            enabled == self.correct_segwit_txids_at(height),
    {
        height >= self.activations.correct_segwit_txids
    }

    /// Whether the witness flag of a spent output is read from its script at `height`.
    pub fn fix_is_segwit_enabled(&self, height: u32) -> (enabled: bool)
        ensures
            enabled == self.fix_is_segwit_at(height),
    {
        height >= self.activations.fix_is_segwit
    }

    /// Whether Taproot outputs and inscription envelopes are read at `height`.
    pub fn taproot_support_enabled(&self, height: u32) -> (enabled: bool)
        ensures
            enabled == self.taproot_at(height),
    {
        height >= self.activations.taproot_support
    }

    /// The unspendable destination of this configuration.
    pub fn unspendable(&self) -> (address: String)
        ensures
            address@ == self.unspendable@,
    {
        self.unspendable.clone()
    }
}

} // verus!

//! Address strings, as the Bitcoin library encodes them.

use crate::config::Network;
use crate::digest::{sha256, sha256d};
use vstd::prelude::*;

verus! {

/// A byte string written in base 58.
pub uninterp spec fn base58(data: Seq<u8>) -> Seq<char>;

/// The Base58Check string of a byte string: in base 58, the bytes and
/// behind them as a checksum the first four bytes of their double SHA-256
/// digest.
pub open spec fn base58check(data: Seq<u8>) -> Seq<char> {
    base58(data + sha256d(data).subrange(0, 4))
}

/// The address of an output script on a network, or the reason why the
/// script has none.
pub uninterp spec fn script_address(script: Seq<u8>, network: Network) -> Result<Seq<char>, Seq<char>>;

/// `bitcoin::base58::encode_check`: the base 58 string, which is named, of
/// the bytes with their checksum.
#[verifier::external_body]
pub(crate) fn b58_encode(data: &Vec<u8>) -> (encoded: String)
    ensures
        encoded@ == base58(data@ + sha256(sha256(data@)).subrange(0, 4)),
{
    bitcoin::base58::encode_check(data)
}

/// `bitcoin::Address::from_script`, then the address or the error as a
/// string: the outcome is named.
#[verifier::external_body]
pub(crate) fn script_to_address(script: &Vec<u8>, network: Network) -> (address: Result<String, String>)
    ensures
        match address {
            Ok(a) => script_address(script@, network) == Ok::<Seq<char>, Seq<char>>(a@),
            Err(e) => script_address(script@, network) == Err::<Seq<char>, Seq<char>>(e@),
        },
{
    let params = match network {
        Network::Mainnet => bitcoin::Network::Bitcoin,
        Network::Testnet => bitcoin::Network::Testnet,
        Network::Regtest => bitcoin::Network::Regtest,
        Network::Signet => bitcoin::Network::Signet,
    };
    match bitcoin::Address::from_script(bitcoin::Script::from_bytes(script), params) {
        Ok(a) => Ok(a.to_string()),
        Err(e) => Err(e.to_string()),
    }
}

} // verus!

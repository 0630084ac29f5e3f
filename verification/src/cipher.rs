//! The stream cipher under which payloads are hidden.

use crypto::symmetriccipher::SynchronousStreamCipher;
use vstd::prelude::*;

verus! {

/// The byte that the RC4 cipher keyed with `key` yields at `position` of its
/// key stream.
pub uninterp spec fn arc4_keystream(key: Seq<u8>, position: int) -> u8;

/// `data` with the key stream of `key` laid over it: the same length, each
/// byte combined with the key stream byte of its position.
pub open spec fn arc4(key: Seq<u8>, data: Seq<u8>) -> Seq<u8> {
    Seq::new(data.len(), |i: int| data[i] ^ arc4_keystream(key, i))
}

/// Whether a byte string can key the cipher.
pub open spec fn valid_arc4_key(key: Seq<u8>) -> bool {
    1 <= key.len() <= 256
}

/// Runs `crypto::rc4::Rc4` keyed with `key` over `data`. The cipher combines
/// byte `i` of its input with byte `i` of a key stream that depends on the
/// key alone; that stream is named. The key must have 1 to 256 bytes.
#[verifier::external_body]
pub(crate) fn arc4_process(key: &Vec<u8>, data: &Vec<u8>) -> (out: Vec<u8>)
    requires
        valid_arc4_key(key@),
    ensures
        out@.len() == data@.len(),
        forall|i: int| 0 <= i < data@.len() ==> out@[i] == data@[i] ^ arc4_keystream(key@, i),
{
    let mut cipher = crypto::rc4::Rc4::new(key);
    let mut out = vec![0u8; data.len()];
    cipher.process(data, &mut out);
    out
}

/// Decrypts, or encrypts, `data` under `key`.
pub fn arc4_decrypt(key: &Vec<u8>, data: &Vec<u8>) -> (out: Vec<u8>)
    requires
        valid_arc4_key(key@),
    ensures
        out@ == arc4(key@, data@),
{
    let out = arc4_process(key, data);
    assert(out@ =~= arc4(key@, data@));
    out
}

/// Applying the cipher twice under one key gives the input back.
pub proof fn lemma_arc4_involution(key: Seq<u8>, data: Seq<u8>)
    ensures
        arc4(key, arc4(key, data)) == data,
{
    let once = arc4(key, data);
    let twice = arc4(key, once);
    assert forall|i: int| 0 <= i < data.len() implies twice[i] == data[i] by {
        let d = data[i];
        let k = arc4_keystream(key, i);
        assert((d ^ k) ^ k == d) by (bit_vector);
    }
    assert(twice =~= data);
}

} // verus!

//! Decoding one output: a destination address, or a piece of the payload,
//! with a note on whether the output could be a dispenser.

use crate::address::{b58_encode, base58check, script_address, script_to_address};
use crate::bytes::{append_bytes, copy_bytes, matches_at, occurs_at, same_bytes, slice_bytes};
use crate::chain::{byte_strings, TxOut, TxOutView};
use crate::cipher::{arc4, arc4_decrypt, valid_arc4_key};
use crate::classify::{
    ends_with, ends_with_op, find_multisig_layout, find_op_return_push, find_p2sh_hash,
    instruction_payload, is_valid_segwit_script, is_valid_segwit_script_legacy, multisig_layout,
    op_return_push, opens_as_witness_v0_or_v1, opens_with_empty_push, p2sh_hash, payload_at,
};
use crate::config::Config;
use crate::digest::{ripemd160, ripemd160_digest, sha256, sha256_digest};
use crate::error::{Error, ErrorView};
use crate::script::{
    decode_script, instruction_views, is_op_return, is_p2tr, script_instructions,
    spec_is_op_return, spec_is_p2tr, Instruction, InstructionView, OP_CHECKMULTISIG, OP_CHECKSIG,
};
use crate::text::{decimal, decimal_digits, join, joined, sort, sort_strings, string_views};
use vstd::prelude::*;
use vstd::string::*;

verus! {

/// What an output decodes to.
#[derive(Clone, Debug, PartialEq, Eq)]
pub enum ParseOutput {
    Destination(String),
    Data(Vec<u8>),
}

pub enum ParseOutputView {
    Destination(Seq<char>),
    Data(Seq<u8>),
}

impl View for ParseOutput {
    type V = ParseOutputView;

    open spec fn view(&self) -> ParseOutputView {
        match self {
            ParseOutput::Destination(address) => ParseOutputView::Destination(address@),
            ParseOutput::Data(bytes) => ParseOutputView::Data(bytes@),
        }
    }
}

impl ParseOutput {
    /// Whether this is a destination.
    pub fn is_destination(&self) -> (destination: bool)
        ensures
            destination == (self@ is Destination),
    {
        match self {
            ParseOutput::Destination(_) => true,
            ParseOutput::Data(_) => false,
        }
    }
}

/// A note on an output that could be a dispenser: its address and its
/// value, each where known.
#[derive(Clone, Debug, PartialEq, Eq)]
pub struct PotentialDispenser {
    pub destination: Option<String>,
    pub value: Option<u64>,
}

pub struct PotentialDispenserView {
    pub destination: Option<Seq<char>>,
    pub value: Option<u64>,
}

impl View for PotentialDispenser {
    type V = PotentialDispenserView;

    open spec fn view(&self) -> PotentialDispenserView {
        PotentialDispenserView {
            destination: match self.destination {
                Some(address) => Some(address@),
                None => None,
            },
            value: self.value,
        }
    }
}

/// The note that says nothing.
pub open spec fn no_dispenser() -> PotentialDispenserView {
    PotentialDispenserView { destination: None, value: None }
}

/// The note on an output that carries data.
pub open spec fn value_only(value: u64) -> PotentialDispenserView {
    PotentialDispenserView { destination: None, value: Some(value) }
}

/// The note on an output that pays `address`.
pub open spec fn paying(address: Seq<char>, value: u64) -> PotentialDispenserView {
    PotentialDispenserView { destination: Some(address), value: Some(value) }
}

/// The bytes that stand for the protocol's name in an `OP_RETURN` output of
/// a reveal transaction, whose payload lies in a witness.
pub open spec fn reveal_marker() -> Seq<u8> {
    seq![0x43u8, 0x4eu8, 0x54u8, 0x52u8, 0x50u8, 0x52u8, 0x54u8, 0x59u8]
}

/// The reveal marker.
pub fn reveal_marker_bytes() -> (marker: Vec<u8>)
    ensures
        marker@ == reveal_marker(),
{
    let mut marker: Vec<u8> = Vec::new();
    marker.push(0x43);
    marker.push(0x4e);
    marker.push(0x54);
    marker.push(0x52);
    marker.push(0x50);
    marker.push(0x52);
    marker.push(0x54);
    marker.push(0x59);
    assert(marker@ =~= reveal_marker());
    marker
}

/// The payload of decrypted `OP_RETURN` bytes: what follows the prefix, if
/// they open with it.
pub open spec fn op_return_payload(prefix: Seq<u8>, decrypted: Seq<u8>) -> Option<Seq<u8>> {
    if occurs_at(decrypted, 0, prefix) {
        Some(decrypted.subrange(prefix.len() as int, decrypted.len() as int))
    } else {
        None
    }
}

/// What decrypted public key bytes hold.
pub enum Embedded {
    /// No prefix after the first byte: the keys are keys.
    Absent,
    /// The prefix is there, but the length byte points outside the bytes or
    /// into the prefix.
    Malformed,
    /// The payload that follows the prefix.
    Payload(Vec<u8>),
}

pub enum EmbeddedView {
    Absent,
    Malformed,
    Payload(Seq<u8>),
}

impl View for Embedded {
    type V = EmbeddedView;

    open spec fn view(&self) -> EmbeddedView {
        match self {
            Embedded::Absent => EmbeddedView::Absent,
            Embedded::Malformed => EmbeddedView::Malformed,
            Embedded::Payload(bytes) => EmbeddedView::Payload(bytes@),
        }
    }
}

/// The length of the chunk that decrypted bytes announce in their first
/// byte; with `clamp`, no more than the bytes that follow it.
pub open spec fn chunk_length(decrypted: Seq<u8>, clamp: bool) -> int {
    if clamp && decrypted[0] > decrypted.len() - 1 {
        decrypted.len() - 1
    } else {
        decrypted[0] as int
    }
}

/// What decrypted public key bytes hold: a length byte, then a chunk that
/// opens with the prefix and goes on with the payload.
pub open spec fn embedded_payload(prefix: Seq<u8>, decrypted: Seq<u8>, clamp: bool) -> EmbeddedView {
    if !occurs_at(decrypted, 1, prefix) {
        EmbeddedView::Absent
    } else if prefix.len() <= chunk_length(decrypted, clamp) <= decrypted.len() - 1 {
        EmbeddedView::Payload(
            decrypted.subrange(1 + prefix.len() as int, 1 + chunk_length(decrypted, clamp)),
        )
    } else {
        EmbeddedView::Malformed
    }
}

/// Reads the payload of decrypted `OP_RETURN` bytes.
pub fn find_op_return_payload(prefix: &Vec<u8>, decrypted: &Vec<u8>) -> (payload: Option<Vec<u8>>)
    ensures
        crate::classify::optional_bytes(payload) == op_return_payload(prefix@, decrypted@),
{
    if matches_at(decrypted, 0, prefix) {
        Some(slice_bytes(decrypted, prefix.len(), decrypted.len()))
    } else {
        None
    }
}

/// Reads what decrypted public key bytes hold.
pub fn find_embedded_payload(prefix: &Vec<u8>, decrypted: &Vec<u8>, clamp: bool) -> (found: Embedded)
    ensures
        found@ == embedded_payload(prefix@, decrypted@, clamp),
{
    if !matches_at(decrypted, 1, prefix) {
        return Embedded::Absent;
    }
    let announced: usize = decrypted[0] as usize;
    let length: usize = if clamp && announced > decrypted.len() - 1 {
        decrypted.len() - 1
    } else {
        announced
    };
    if prefix.len() <= length && length <= decrypted.len() - 1 {
        Embedded::Payload(slice_bytes(decrypted, 1 + prefix.len(), 1 + length))
    } else {
        Embedded::Malformed
    }
}

/// The destination of a bare multisig output: the signatures required, the
/// addresses of its keys in ascending order, and their number, joined by
/// underscores.
pub open spec fn multisig_destination(signatures_required: u8, addresses: Seq<Seq<char>>) -> Seq<char> {
    joined(
        seq![decimal_digits(signatures_required as nat)] + sort_strings(addresses) + seq![
            decimal_digits(addresses.len()),
        ],
        "_"@,
    )
}

/// Builds the destination of a bare multisig output from the addresses of its keys.
pub fn build_multisig_destination(signatures_required: u8, addresses: &Vec<String>) -> (destination:
    String)
    ensures
        destination@ == multisig_destination(signatures_required, string_views(addresses@)),
{
    let mut parts: Vec<String> = Vec::new();
    parts.push(decimal(signatures_required as usize));
    let mut sorted = sort(addresses);
    let ghost sorted_views = string_views(sorted@);
    assert(string_views(parts@) =~= seq![decimal_digits(signatures_required as nat)]);
    let ghost head = string_views(parts@);
    parts.append(&mut sorted);
    assert(string_views(parts@) =~= head + sorted_views);
    parts.push(decimal(addresses.len()));
    assert(string_views(parts@) =~= head + sorted_views + seq![
        decimal_digits(addresses@.len()),
    ]);
    join(&parts, "_")
}

/// The outcome of decoding an output, as mathematical values.
pub open spec fn parsed_view(result: Result<(ParseOutput, PotentialDispenser), Error>) -> Result<
    (ParseOutputView, PotentialDispenserView),
    ErrorView,
> {
    match result {
        Ok((output, dispenser)) => Ok((output@, dispenser@)),
        Err(error) => Err(error@),
    }
}

/// The failure of an output: what went wrong, in which transaction, at
/// which output.
pub open spec fn script_error(what: Seq<char>, txid: Seq<char>, vi: nat) -> ErrorView {
    ErrorView::ParseVout(what + " | tx: "@ + txid + ", vout: "@ + decimal_digits(vi))
}

/// What is wrong with an `OP_RETURN` output that carries no payload.
pub open spec fn invalid_op_return() -> Seq<char> {
    "Encountered invalid OP_RETURN script"@
}

/// What is wrong with an `OP_CHECKSIG` output that is too short or whose
/// length byte leads nowhere.
pub open spec fn invalid_checksig() -> Seq<char> {
    "Encountered invalid OP_CHECKSIG script"@
}

/// What is wrong with a multisig output of no known form, or whose keys
/// or length byte lead nowhere.
pub open spec fn invalid_multisig() -> Seq<char> {
    "Encountered invalid OP_MULTISIG script"@
}

/// What is wrong where the key is empty or longer than the cipher takes.
pub open spec fn unusable_key() -> Seq<char> {
    "Encountered unusable decryption key"@
}

/// What is wrong with an output of no known shape.
pub open spec fn unrecognized_output() -> Seq<char> {
    "Unrecognized output type"@
}

/// The failure of a witness program that has no address.
pub open spec fn address_error(reason: Seq<char>) -> ErrorView {
    ErrorView::ParseVout("Segwit script to address failed: "@ + reason)
}

/// Builds the failure of an output.
pub fn make_script_error(what: &str, txid: &String, vi: usize) -> (error: Error)
    ensures
        error@ == script_error(what@, txid@, vi as nat),
{
    let mut message = String::from_str(what);
    message.append(" | tx: ");
    message.append(txid.as_str());
    message.append(", vout: ");
    message.append(decimal(vi).as_str());
    Error::ParseVout(message)
}

/// What an `OP_RETURN` output decodes to. In a reveal transaction the push
/// is the marker itself and is handed on as it is. Otherwise the push is
/// decrypted and must open with the prefix; the rest is the payload.
pub open spec fn decode_op_return(
    config: Config,
    key: Seq<u8>,
    height: u32,
    txid: Seq<char>,
    vi: nat,
    instructions: Seq<InstructionView>,
) -> Result<(ParseOutputView, PotentialDispenserView), ErrorView> {
    match op_return_push(instructions) {
        Some(pushed) => if config.taproot_at(height) && pushed == reveal_marker() {
            Ok((ParseOutputView::Data(pushed), no_dispenser()))
        } else if !valid_arc4_key(key) {
            Err(script_error(unusable_key(), txid, vi))
        } else {
            match op_return_payload(config.prefix@, arc4(key, pushed)) {
                Some(payload) => Ok((ParseOutputView::Data(payload), no_dispenser())),
                None => Err(script_error(invalid_op_return(), txid, vi)),
            }
        },
        None => Err(script_error(invalid_op_return(), txid, vi)),
    }
}

/// What an output that ends in `OP_CHECKSIG` decodes to. Its third
/// instruction is decrypted: it holds a chunk of the payload, or else it is
/// a public key and the output pays the address made of its bytes.
pub open spec fn decode_checksig(
    config: Config,
    key: Seq<u8>,
    height: u32,
    txid: Seq<char>,
    vi: nat,
    value: u64,
    instructions: Seq<InstructionView>,
) -> Result<(ParseOutputView, PotentialDispenserView), ErrorView> {
    if instructions.len() < 3 {
        Err(script_error(invalid_checksig(), txid, vi))
    } else if !valid_arc4_key(key) {
        Err(script_error(unusable_key(), txid, vi))
    } else {
        let carried = instruction_payload(instructions[2]);
        match embedded_payload(config.prefix@, arc4(key, carried), false) {
            EmbeddedView::Payload(payload) => Ok((ParseOutputView::Data(payload), value_only(value))),
            EmbeddedView::Malformed => Err(script_error(invalid_checksig(), txid, vi)),
            EmbeddedView::Absent => {
                let address = base58check(config.address_version@ + carried);
                Ok((ParseOutputView::Destination(address), paying(address, value)))
            },
        }
    }
}

/// The bytes that public key slots carry: each slot without its first and
/// its last byte, one after the other. A slot under two bytes carries nothing.
pub open spec fn carried_bytes(slots: Seq<Seq<u8>>) -> Option<Seq<u8>>
    decreases slots.len(),
{
    if slots.len() == 0 {
        Some(Seq::empty())
    } else {
        match carried_bytes(slots.drop_last()) {
            Some(head) => if slots.last().len() >= 2 {
                Some(head + slots.last().subrange(1, slots.last().len() - 1))
            } else {
                None
            },
            None => None,
        }
    }
}

/// The address of a public key: its hash behind the address version.
pub open spec fn key_address(version: Seq<u8>, key: Seq<u8>) -> Seq<char> {
    base58check(version + ripemd160(sha256(key)))
}

/// The addresses of public keys, in their order.
pub open spec fn key_addresses(version: Seq<u8>, keys: Seq<Seq<u8>>) -> Seq<Seq<char>> {
    Seq::new(keys.len(), |i: int| key_address(version, keys[i]))
}

/// What a bare multisig output decodes to. All slots but the last are
/// decrypted together: they hold a chunk of the payload, or else every slot
/// is a public key and the output pays the multisig address of all of them.
pub open spec fn decode_multisig(
    config: Config,
    key: Seq<u8>,
    height: u32,
    txid: Seq<char>,
    vi: nat,
    value: u64,
    instructions: Seq<InstructionView>,
) -> Result<(ParseOutputView, PotentialDispenserView), ErrorView> {
    match multisig_layout(instructions) {
        None => Err(script_error(invalid_multisig(), txid, vi)),
        Some(layout) => match carried_bytes(layout.slots.drop_last()) {
            None => Err(script_error(invalid_multisig(), txid, vi)),
            Some(carried) => if !valid_arc4_key(key) {
                Err(script_error(unusable_key(), txid, vi))
            } else {
                match embedded_payload(config.prefix@, arc4(key, carried), true) {
                    EmbeddedView::Payload(payload) => Ok(
                        (ParseOutputView::Data(payload), value_only(value)),
                    ),
                    EmbeddedView::Malformed => Err(script_error(invalid_multisig(), txid, vi)),
                    EmbeddedView::Absent => {
                        let destination = multisig_destination(
                            layout.signatures_required,
                            key_addresses(config.address_version@, layout.slots),
                        );
                        Ok((ParseOutputView::Destination(destination), paying(destination, value)))
                    },
                }
            },
        },
    }
}

/// Whether a script is read as a witness program at `height`.
pub open spec fn reads_as_witness_program(
    config: Config,
    height: u32,
    script: Seq<u8>,
    instructions: Seq<InstructionView>,
) -> bool {
    ||| config.segwit_at(height) && opens_with_empty_push(instructions)
    ||| config.taproot_at(height) && opens_as_witness_v0_or_v1(instructions)
    ||| config.taproot_at(height) && spec_is_p2tr(script)
}

/// What an output decodes to that carries no data: the address of a script
/// hash or of a witness program, as far as `height` admits them.
pub open spec fn decode_address_script(
    config: Config,
    height: u32,
    txid: Seq<char>,
    vi: nat,
    vout: TxOutView,
    instructions: Seq<InstructionView>,
) -> Result<(ParseOutputView, PotentialDispenserView), ErrorView> {
    if p2sh_hash(instructions) is Some && config.p2sh_addresses_at(height) {
        let address = base58check(config.p2sh_address_version@ + p2sh_hash(instructions).unwrap());
        Ok(
            (
                ParseOutputView::Destination(address),
                if config.p2sh_dispensers_at(height) {
                    paying(address, vout.value)
                } else {
                    no_dispenser()
                },
            ),
        )
    } else if reads_as_witness_program(config, height, vout.script_pubkey, instructions) {
        match script_address(vout.script_pubkey, config.network) {
            Ok(address) => Ok(
                (
                    ParseOutputView::Destination(address),
                    if config.correct_segwit_txids_at(height) {
                        paying(address, vout.value)
                    } else {
                        no_dispenser()
                    },
                ),
            ),
            Err(reason) => Err(address_error(reason)),
        }
    } else {
        Err(script_error(unrecognized_output(), txid, vi))
    }
}

/// What an output decodes to, given the instructions of its script.
pub open spec fn decode_instructions(
    config: Config,
    key: Seq<u8>,
    height: u32,
    txid: Seq<char>,
    vi: nat,
    vout: TxOutView,
    instructions: Seq<InstructionView>,
) -> Result<(ParseOutputView, PotentialDispenserView), ErrorView> {
    if spec_is_op_return(vout.script_pubkey) {
        decode_op_return(config, key, height, txid, vi, instructions)
    } else if ends_with_op(instructions, OP_CHECKSIG) {
        decode_checksig(config, key, height, txid, vi, vout.value, instructions)
    } else if ends_with_op(instructions, OP_CHECKMULTISIG) {
        decode_multisig(config, key, height, txid, vi, vout.value, instructions)
    } else {
        decode_address_script(config, height, txid, vi, vout, instructions)
    }
}

/// What an output decodes to.
pub open spec fn spec_parse_vout(
    config: Config,
    key: Seq<u8>,
    height: u32,
    txid: Seq<char>,
    vi: nat,
    vout: TxOutView,
) -> Result<(ParseOutputView, PotentialDispenserView), ErrorView> {
    decode_instructions(
        config,
        key,
        height,
        txid,
        vi,
        vout,
        script_instructions(vout.script_pubkey),
    )
}

/// The note that says nothing.
fn empty_note() -> (note: PotentialDispenser)
    ensures
        note@ == no_dispenser(),
{
    PotentialDispenser { destination: None, value: None }
}

/// A destination with the note that the output pays it, or with the empty
/// note where `noted` is false.
fn destination_with_note(address: String, value: u64, noted: bool) -> (parsed: (
    ParseOutput,
    PotentialDispenser,
))
    ensures
        parsed.0@ == ParseOutputView::Destination(address@),
        parsed.1@ == if noted {
            paying(address@, value)
        } else {
            no_dispenser()
        },
{
    let note = if noted {
        PotentialDispenser { destination: Some(address.clone()), value: Some(value) }
    } else {
        empty_note()
    };
    (ParseOutput::Destination(address), note)
}

/// Decodes an `OP_RETURN` output from the instructions of its script.
pub fn parse_op_return(
    config: &Config,
    key: &Vec<u8>,
    height: u32,
    txid: &String,
    vi: usize,
    instructions: &Vec<Instruction>,
) -> (result: Result<(ParseOutput, PotentialDispenser), Error>)
    ensures
        parsed_view(result) == decode_op_return(
            *config,
            key@,
            height,
            txid@,
            vi as nat,
            instruction_views(instructions@),
        ),
{
    let pushed = match find_op_return_push(instructions) {
        Some(pushed) => pushed,
        None => {
            return Err(make_script_error("Encountered invalid OP_RETURN script", txid, vi));
        },
    };
    if config.taproot_support_enabled(height) && same_bytes(&pushed, &reveal_marker_bytes()) {
        return Ok((ParseOutput::Data(pushed), empty_note()));
    }
    if key.len() < 1 || key.len() > 256 {
        return Err(make_script_error("Encountered unusable decryption key", txid, vi));
    }
    let decrypted = arc4_decrypt(key, &pushed);
    match find_op_return_payload(&config.prefix, &decrypted) {
        Some(payload) => Ok((ParseOutput::Data(payload), empty_note())),
        None => Err(make_script_error("Encountered invalid OP_RETURN script", txid, vi)),
    }
}

/// Decodes an output that ends in `OP_CHECKSIG` from the instructions of its script.
pub fn parse_checksig(
    config: &Config,
    key: &Vec<u8>,
    height: u32,
    txid: &String,
    vi: usize,
    value: u64,
    instructions: &Vec<Instruction>,
) -> (result: Result<(ParseOutput, PotentialDispenser), Error>)
    ensures
        parsed_view(result) == decode_checksig(
            *config,
            key@,
            height,
            txid@,
            vi as nat,
            value,
            instruction_views(instructions@),
        ),
{
    if instructions.len() < 3 {
        return Err(make_script_error("Encountered invalid OP_CHECKSIG script", txid, vi));
    }
    if key.len() < 1 || key.len() > 256 {
        return Err(make_script_error("Encountered unusable decryption key", txid, vi));
    }
    let carried = payload_at(instructions, 2);
    let decrypted = arc4_decrypt(key, &carried);
    match find_embedded_payload(&config.prefix, &decrypted, false) {
        Embedded::Payload(payload) => Ok(
            (ParseOutput::Data(payload), PotentialDispenser { destination: None, value: Some(value) }),
        ),
        Embedded::Malformed => Err(
            make_script_error("Encountered invalid OP_CHECKSIG script", txid, vi),
        ),
        Embedded::Absent => {
            let mut bytes = copy_bytes(&config.address_version);
            append_bytes(&mut bytes, &carried);
            Ok(destination_with_note(b58_encode(&bytes), value, true))
        },
    }
}

/// Collects the bytes that public key slots carry.
pub fn collect_carried_bytes(slots: &Vec<Vec<u8>>, count: usize) -> (carried: Option<Vec<u8>>)
    requires
        count <= slots@.len(),
    ensures
        crate::classify::optional_bytes(carried) == carried_bytes(
            byte_strings(slots@).take(count as int),
        ),
{
    let mut carried: Vec<u8> = Vec::new();
    let mut done: usize = 0;
    assert(byte_strings(slots@).take(0) =~= Seq::<Seq<u8>>::empty());
    while done < count
        invariant
            done <= count <= slots@.len(),
            carried_bytes(byte_strings(slots@).take(done as int)) == Some(carried@),
        decreases count - done,
    {
        let slot = &slots[done];
        proof {
            let taken = byte_strings(slots@).take(done + 1);
            assert(taken.drop_last() =~= byte_strings(slots@).take(done as int));
            assert(taken.last() == slot@);
        }
        if slot.len() < 2 {
            proof {
                lemma_carried_bytes_fails(byte_strings(slots@), done as int, count as int);
            }
            return None;
        }
        let middle = slice_bytes(slot, 1, slot.len() - 1);
        append_bytes(&mut carried, &middle);
        done += 1;
    }
    Some(carried)
}

/// Once a slot is too short to carry anything, every longer run of slots
/// carries nothing.
proof fn lemma_carried_bytes_fails(slots: Seq<Seq<u8>>, short: int, count: int)
    requires
        0 <= short < count <= slots.len(),
        slots[short].len() < 2,
    ensures
        carried_bytes(slots.take(count)) is None,
    decreases count,
{
    let taken = slots.take(count);
    if count == short + 1 {
        assert(taken.last() == slots[short]);
    } else {
        lemma_carried_bytes_fails(slots, short, count - 1);
        assert(taken.drop_last() =~= slots.take(count - 1));
    }
}

/// The addresses of public keys.
pub fn collect_key_addresses(version: &Vec<u8>, keys: &Vec<Vec<u8>>) -> (addresses: Vec<String>)
    ensures
        string_views(addresses@) == key_addresses(version@, byte_strings(keys@)),
{
    let mut addresses: Vec<String> = Vec::new();
    let mut done: usize = 0;
    while done < keys.len()
        invariant
            done <= keys@.len(),
            addresses@.len() == done,
            forall|i: int|
                0 <= i < done ==> (#[trigger] addresses@[i])@ == key_address(version@, keys@[i]@),
        decreases keys@.len() - done,
    {
        let hashed = ripemd160_digest(&sha256_digest(&keys[done]));
        let mut bytes = copy_bytes(version);
        append_bytes(&mut bytes, &hashed);
        addresses.push(b58_encode(&bytes));
        done += 1;
    }
    assert(string_views(addresses@) =~= key_addresses(version@, byte_strings(keys@)));
    addresses
}

/// Decodes a bare multisig output from the instructions of its script.
pub fn parse_multisig(
    config: &Config,
    key: &Vec<u8>,
    height: u32,
    txid: &String,
    vi: usize,
    value: u64,
    instructions: &Vec<Instruction>,
) -> (result: Result<(ParseOutput, PotentialDispenser), Error>)
    ensures
        parsed_view(result) == decode_multisig(
            *config,
            key@,
            height,
            txid@,
            vi as nat,
            value,
            instruction_views(instructions@),
        ),
{
    let layout = match find_multisig_layout(instructions) {
        Some(layout) => layout,
        None => {
            return Err(make_script_error("Encountered invalid OP_MULTISIG script", txid, vi));
        },
    };
    assert(layout@.slots.len() >= 2);
    assert(layout@.slots.drop_last() =~= byte_strings(layout.slots@).take(
        layout.slots@.len() - 1,
    ));
    let carried = match collect_carried_bytes(&layout.slots, layout.slots.len() - 1) {
        Some(carried) => carried,
        None => {
            return Err(make_script_error("Encountered invalid OP_MULTISIG script", txid, vi));
        },
    };
    if key.len() < 1 || key.len() > 256 {
        return Err(make_script_error("Encountered unusable decryption key", txid, vi));
    }
    let decrypted = arc4_decrypt(key, &carried);
    match find_embedded_payload(&config.prefix, &decrypted, true) {
        Embedded::Payload(payload) => Ok(
            (ParseOutput::Data(payload), PotentialDispenser { destination: None, value: Some(value) }),
        ),
        Embedded::Malformed => Err(
            make_script_error("Encountered invalid OP_MULTISIG script", txid, vi),
        ),
        Embedded::Absent => {
            let addresses = collect_key_addresses(&config.address_version, &layout.slots);
            let destination = build_multisig_destination(layout.signatures_required, &addresses);
            Ok(destination_with_note(destination, value, true))
        },
    }
}

/// Decodes an output that carries no data from the instructions of its script.
pub fn parse_address_script(
    config: &Config,
    height: u32,
    txid: &String,
    vi: usize,
    vout: &TxOut,
    instructions: &Vec<Instruction>,
) -> (result: Result<(ParseOutput, PotentialDispenser), Error>)
    ensures
        parsed_view(result) == decode_address_script(
            *config,
            height,
            txid@,
            vi as nat,
            vout@,
            instruction_views(instructions@),
        ),
{
    if config.p2sh_address_supported(height) {
        match find_p2sh_hash(instructions) {
            Some(hash) => {
                let mut bytes = copy_bytes(&config.p2sh_address_version);
                append_bytes(&mut bytes, &hash);
                return Ok(
                    destination_with_note(
                        b58_encode(&bytes),
                        vout.value,
                        config.p2sh_dispensers_supported(height),
                    ),
                );
            },
            None => {},
        }
    }
    let taproot = config.taproot_support_enabled(height);
    if (config.segwit_supported(height) && is_valid_segwit_script_legacy(instructions)) || (taproot
        && is_valid_segwit_script(instructions)) || (taproot && is_p2tr(&vout.script_pubkey)) {
        match script_to_address(&vout.script_pubkey, config.network) {
            Ok(address) => Ok(
                destination_with_note(
                    address,
                    vout.value,
                    config.correct_segwit_txids_enabled(height),
                ),
            ),
            Err(reason) => {
                let mut message = String::from_str("Segwit script to address failed: ");
                message.append(reason.as_str());
                Err(Error::ParseVout(message))
            },
        }
    } else {
        Err(make_script_error("Unrecognized output type", txid, vi))
    }
}

/// Decodes an output from the instructions of its script.
pub fn parse_instructions(
    config: &Config,
    key: &Vec<u8>,
    height: u32,
    txid: &String,
    vi: usize,
    vout: &TxOut,
    instructions: &Vec<Instruction>,
) -> (result: Result<(ParseOutput, PotentialDispenser), Error>)
    ensures
        parsed_view(result) == decode_instructions(
            *config,
            key@,
            height,
            txid@,
            vi as nat,
            vout@,
            instruction_views(instructions@),
        ),
{
    if is_op_return(&vout.script_pubkey) {
        parse_op_return(config, key, height, txid, vi, instructions)
    } else if ends_with(instructions, OP_CHECKSIG) {
        parse_checksig(config, key, height, txid, vi, vout.value, instructions)
    } else if ends_with(instructions, OP_CHECKMULTISIG) {
        parse_multisig(config, key, height, txid, vi, vout.value, instructions)
    } else {
        parse_address_script(config, height, txid, vi, vout, instructions)
    }
}

/// Decodes the output `vout`, at index `vi` of the transaction `txid`, under
/// the decryption key `key` and the rules of `height`.
///
/// The outcome is that of [`spec_parse_vout`]: a destination or a piece of
/// the payload with its note, or the failure of that output.
pub fn parse_vout(
    config: &Config,
    key: Vec<u8>,
    height: u32,
    txid: String,
    vi: usize,
    vout: &TxOut,
) -> (result: Result<(ParseOutput, PotentialDispenser), Error>)
    ensures
        parsed_view(result) == spec_parse_vout(*config, key@, height, txid@, vi as nat, vout@),
{
    let instructions = decode_script(&vout.script_pubkey);
    parse_instructions(config, &key, height, &txid, vi, vout, &instructions)
}

/// A payload that is put behind the prefix, encrypted under the key and
/// pushed alone in an `OP_RETURN` script decodes to itself, with the note
/// that says nothing, unless the push is the reveal marker at a height that
/// reads it.
pub proof fn lemma_op_return_round_trip(
    config: Config,
    key: Seq<u8>,
    height: u32,
    txid: Seq<char>,
    vi: nat,
    vout: TxOutView,
    instructions: Seq<InstructionView>,
    payload: Seq<u8>,
)
    requires
        valid_arc4_key(key),
        spec_is_op_return(vout.script_pubkey),
        instructions == seq![
            InstructionView::Op(crate::script::OP_RETURN),
            InstructionView::PushBytes(arc4(key, config.prefix@ + payload)),
        ],
        !(config.taproot_at(height) && arc4(key, config.prefix@ + payload) == reveal_marker()),
    ensures
        decode_instructions(config, key, height, txid, vi, vout, instructions) == Ok::<
            (ParseOutputView, PotentialDispenserView),
            ErrorView,
        >((ParseOutputView::Data(payload), no_dispenser())),
{
    let plain = config.prefix@ + payload;
    crate::cipher::lemma_arc4_involution(key, plain);
    assert(plain.subrange(0, config.prefix@.len() as int) =~= config.prefix@);
    assert(plain.subrange(config.prefix@.len() as int, plain.len() as int) =~= payload);
}

} // verus!

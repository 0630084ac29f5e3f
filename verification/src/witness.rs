//! The payload of a reveal transaction, read from the inscription envelope
//! in its first input's witness.

use crate::bytes::{append_bytes, same_bytes};
use crate::cbor::{cbor_decode, cbor_decoding, cbor_encode, cbor_encoding, item_view, CborItem, CborView};
use crate::classify::{
    ends_with, ends_with_op, is_op_at, is_valid_segwit_script_legacy, op_at, push_at, pushed_at,
};
use crate::error::{Error, ErrorView};
use crate::script::{
    decode_script, instruction_views, script_instructions, Instruction, InstructionView,
    OP_CHECKSIG, OP_IF,
};
use vstd::prelude::*;
use vstd::string::*;
use vstd::utf8::{decode_utf8, valid_utf8};

verus! {

/// The opcode that pushes nothing, also read as false.
pub const OP_FALSE: u8 = 0x00;

/// Which part of an inscription the pushes belong to.
#[derive(Clone, Copy, Debug, PartialEq, Eq, Structural)]
pub enum Section {
    Outside,
    Metadata,
    Description,
}

/// The parts of an inscription gathered so far.
pub struct Gathered {
    pub section: Section,
    pub metadata: Seq<u8>,
    pub description: Seq<u8>,
}

/// The name of the inscription protocol, as bytes.
pub open spec fn ord_tag() -> Seq<u8> {
    seq![0x6fu8, 0x72u8, 0x64u8]
}

/// Whether a script is an envelope: nothing pushed, `OP_IF`, and
/// `OP_CHECKSIG` at the end.
pub open spec fn is_envelope(instructions: Seq<InstructionView>) -> bool {
    &&& push_at(instructions, 0) == Some(Seq::<u8>::empty()) || op_at(instructions, 0, OP_FALSE)
    &&& op_at(instructions, 1, OP_IF)
    &&& ends_with_op(instructions, OP_CHECKSIG)
}

/// Whether an envelope holds an inscription of the meta-protocol kind.
pub open spec fn is_ord(instructions: Seq<InstructionView>) -> bool {
    push_at(instructions, 2) == Some(ord_tag()) && push_at(instructions, 3) == Some(seq![7u8])
}

/// The parts gathered after one more instruction: a push of the byte 5
/// opens the metadata, a push of the byte 0 or of nothing, or `OP_FALSE`,
/// opens the description, and any other push goes to the open part.
pub open spec fn gather_step(gathered: Gathered, instruction: InstructionView) -> Gathered {
    match instruction {
        InstructionView::PushBytes(bytes) => if bytes == seq![5u8] {
            Gathered { section: Section::Metadata, ..gathered }
        } else if bytes == seq![0u8] || bytes.len() == 0 {
            Gathered { section: Section::Description, ..gathered }
        } else {
            match gathered.section {
                Section::Outside => gathered,
                Section::Metadata => Gathered { metadata: gathered.metadata + bytes, ..gathered },
                Section::Description => Gathered {
                    description: gathered.description + bytes,
                    ..gathered
                },
            }
        },
        InstructionView::Op(code) => if code == OP_FALSE {
            Gathered { section: Section::Description, ..gathered }
        } else {
            gathered
        },
        InstructionView::Invalid => gathered,
    }
}

/// The parts gathered from the instructions `from` up to, not including, `to`.
pub open spec fn gather(instructions: Seq<InstructionView>, from: int, to: int) -> Gathered
    decreases to - from,
{
    if to <= from {
        Gathered { section: Section::Outside, metadata: Seq::empty(), description: Seq::empty() }
    } else {
        gather_step(gather(instructions, from, to - 1), instructions[to - 1])
    }
}

/// The bytes of the pushes among the instructions `from` up to, not including, `to`.
pub open spec fn pushed_between(instructions: Seq<InstructionView>, from: int, to: int) -> Seq<u8>
    decreases to - from,
{
    if to <= from {
        Seq::empty()
    } else {
        pushed_between(instructions, from, to - 1) + match instructions[to - 1] {
            InstructionView::PushBytes(bytes) => bytes,
            _ => Seq::empty(),
        }
    }
}

/// The content type of an inscription: the seventh instruction's push as
/// text, or nothing where it is no push or no text.
pub open spec fn mime_type(instructions: Seq<InstructionView>) -> Seq<char> {
    match push_at(instructions, 6) {
        Some(bytes) => if valid_utf8(bytes) {
            decode_utf8(bytes)
        } else {
            Seq::empty()
        },
        None => Seq::empty(),
    }
}

/// An integer cut down to its lowest eight bits.
pub open spec fn narrowed(id: i128) -> u8 {
    id as u8
}

/// The metadata of an inscription, put in the form of a message: the type
/// identifier that heads the array, cut down to one byte, and the rest of
/// the array with the content type and, where there is one, the
/// description added.
pub open spec fn restructured(decoded: CborView, mime: Seq<char>, description: Seq<u8>) -> Result<
    (u8, CborView),
    ErrorView,
> {
    match decoded {
        CborView::Array(items) => if items.len() == 0 {
            Err(ErrorView::ParseVout("CBOR array is empty, missing message_type_id"@))
        } else {
            match items[0] {
                CborView::Integer(id) => Ok(
                    (
                        narrowed(id),
                        CborView::Array(
                            items.drop_first().push(CborView::Text(mime)) + if description.len()
                                > 0 {
                                seq![CborView::Bytes(description)]
                            } else {
                                Seq::empty()
                            },
                        ),
                    ),
                ),
                _ => Err(ErrorView::ParseVout("message_type_id must be an integer"@)),
            }
        },
        _ => Err(ErrorView::ParseVout("Expected CBOR array, found different type"@)),
    }
}

/// The message that an inscription repacks to: its metadata decoded as
/// CBOR and restructured, as the type identifier followed by the CBOR
/// encoding of the rest.
pub open spec fn repacked(metadata: Seq<u8>, mime: Seq<char>, description: Seq<u8>) -> Result<
    Seq<u8>,
    ErrorView,
> {
    match cbor_decoding(metadata) {
        Err(reason) => Err(ErrorView::ParseVout("CBOR decode error: "@ + reason)),
        Ok(decoded) => match restructured(decoded, mime, description) {
            Err(error) => Err(error),
            Ok((id, packed)) => match cbor_encoding(packed) {
                Ok(bytes) => Ok(seq![id] + bytes),
                Err(reason) => Err(ErrorView::ParseVout("Failed to encode CBOR data: "@ + reason)),
            },
        },
    }
}

/// The payload that the instructions of a witness script hold.
pub open spec fn envelope_payload(instructions: Seq<InstructionView>) -> Result<Seq<u8>, ErrorView> {
    if instructions.len() < 5 {
        Err(ErrorView::ParseVout("Invalid witness script: too few instructions"@))
    } else if !is_envelope(instructions) {
        Err(ErrorView::ParseVout("Not an envelope script"@))
    } else if is_ord(instructions) {
        let gathered = gather(instructions, 7, instructions.len() - 3);
        if gathered.metadata.len() == 0 {
            Err(ErrorView::ParseVout("No data found in the ord inscription"@))
        } else {
            repacked(gathered.metadata, mime_type(instructions), gathered.description)
        }
    } else {
        Ok(pushed_between(instructions, 2, instructions.len() - 3))
    }
}

/// The payload that a witness script holds.
pub open spec fn spec_extract_data_from_witness(script: Seq<u8>) -> Result<Seq<u8>, ErrorView> {
    envelope_payload(script_instructions(script))
}

/// The outcome of an extraction, as mathematical values.
pub open spec fn extracted_view(result: Result<Vec<u8>, Error>) -> Result<Seq<u8>, ErrorView> {
    match result {
        Ok(bytes) => Ok(bytes@),
        Err(error) => Err(error@),
    }
}

/// `std::str::from_utf8`: the text of bytes that are valid UTF-8, and
/// nothing for any others.
#[verifier::external_body]
pub(crate) fn utf8_text(bytes: &Vec<u8>) -> (text: Option<String>)
    ensures
        match text {
            Some(t) => valid_utf8(bytes@) && t@ == decode_utf8(bytes@),
            None => !valid_utf8(bytes@),
        },
{
    match std::str::from_utf8(bytes) {
        Ok(text) => Some(text.to_string()),
        Err(_) => None,
    }
}

/// A failure with a fixed message.
fn failure(message: &str) -> (error: Error)
    ensures
        error@ == ErrorView::ParseVout(message@),
{
    Error::ParseVout(String::from_str(message))
}

/// A failure with a message and the reason that an outside decoder or
/// encoder gave.
fn failure_because(message: &str, reason: &String) -> (error: Error)
    ensures
        error@ == ErrorView::ParseVout(message@ + reason@),
{
    let mut text = String::from_str(message);
    text.append(reason.as_str());
    Error::ParseVout(text)
}

/// The views of a list of CBOR values, in order.
pub open spec fn item_views(items: Seq<CborItem>) -> Seq<CborView> {
    Seq::new(items.len(), |k: int| item_view(items[k]))
}

proof fn lemma_array_view(items: Vec<CborItem>)
    ensures
        item_view(CborItem::Array(items)) == CborView::Array(item_views(items@)),
{
    let direct = item_view(CborItem::Array(items));
    assert(direct->Array_0 =~= item_views(items@));
}

/// The view of a restructured message.
pub open spec fn restructured_view(result: Result<(u8, CborItem), Error>) -> Result<
    (u8, CborView),
    ErrorView,
> {
    match result {
        Ok((id, packed)) => Ok((id, packed@)),
        Err(error) => Err(error@),
    }
}

/// Puts the decoded metadata of an inscription in the form of a message.
pub fn restructure(decoded: CborItem, mime: String, description: Vec<u8>) -> (result: Result<
    (u8, CborItem),
    Error,
>)
    ensures
        restructured_view(result) == restructured(decoded@, mime@, description@),
{
    let mut items = match decoded {
        CborItem::Array(items) => {
            proof {
                lemma_array_view(items);
            }
            items
        },
        _ => {
            return Err(failure("Expected CBOR array, found different type"));
        },
    };
    let ghost decoded_items = item_views(items@);
    if items.len() == 0 {
        return Err(failure("CBOR array is empty, missing message_type_id"));
    }
    let first = items.remove(0);
    assert(item_view(first) == decoded_items[0]);
    assert(item_views(items@) =~= decoded_items.drop_first());
    let id = match first {
        CborItem::Integer(id) => id,
        _ => {
            return Err(failure("message_type_id must be an integer"));
        },
    };
    let ghost mime_view = mime@;
    let ghost description_view = description@;
    items.push(CborItem::Text(mime));
    assert(item_views(items@) =~= decoded_items.drop_first().push(CborView::Text(mime_view)));
    if description.len() > 0 {
        let ghost before = item_views(items@);
        items.push(CborItem::Bytes(description));
        assert(item_views(items@) =~= before + seq![CborView::Bytes(description_view)]);
    } else {
        assert(item_views(items@) =~= item_views(items@) + Seq::<CborView>::empty());
    }
    proof {
        lemma_array_view(items);
    }
    Ok((#[verifier::truncate] (id as u8), CborItem::Array(items)))
}

/// Repacks the metadata of an inscription with its content type and its
/// description into one message.
pub fn repack(metadata: &Vec<u8>, mime: String, description: Vec<u8>) -> (result: Result<
    Vec<u8>,
    Error,
>)
    ensures
        extracted_view(result) == repacked(metadata@, mime@, description@),
{
    let decoded = match cbor_decode(metadata) {
        Ok(decoded) => decoded,
        Err(reason) => {
            return Err(failure_because("CBOR decode error: ", &reason));
        },
    };
    let (id, packed) = match restructure(decoded, mime, description) {
        Ok(message) => message,
        Err(error) => {
            return Err(error);
        },
    };
    match cbor_encode(&packed) {
        Ok(bytes) => {
            let mut message: Vec<u8> = Vec::new();
            message.push(id);
            append_bytes(&mut message, &bytes);
            assert(message@ =~= seq![id] + bytes@);
            Ok(message)
        },
        Err(reason) => Err(failure_because("Failed to encode CBOR data: ", &reason)),
    }
}

/// The name of the inscription protocol.
fn ord_tag_bytes() -> (tag: Vec<u8>)
    ensures
        tag@ == ord_tag(),
{
    let mut tag: Vec<u8> = Vec::new();
    tag.push(0x6f);
    tag.push(0x72);
    tag.push(0x64);
    assert(tag@ =~= ord_tag());
    tag
}

/// Whether the instruction at `index` pushes exactly the byte `byte`.
fn pushes_byte_at(instructions: &Vec<Instruction>, index: usize, byte: u8) -> (found: bool)
    ensures
        found == (push_at(instruction_views(instructions@), index as int) == Some(seq![byte])),
{
    match pushed_at(instructions, index) {
        Some(bytes) => {
            if bytes.len() == 1 && bytes[0] == byte {
                assert(bytes@ =~= seq![byte]);
                true
            } else {
                assert(bytes@.len() == 1 ==> bytes@[0] != seq![byte][0]);
                false
            }
        },
        None => false,
    }
}

/// Whether a script is an envelope.
pub fn check_envelope(instructions: &Vec<Instruction>) -> (found: bool)
    ensures
        found == is_envelope(instruction_views(instructions@)),
{
    (is_valid_segwit_script_legacy(instructions) || is_op_at(instructions, 0, OP_FALSE))
        && is_op_at(instructions, 1, OP_IF) && ends_with(instructions, OP_CHECKSIG)
}

/// Whether an envelope holds an inscription of the meta-protocol kind.
pub fn check_ord(instructions: &Vec<Instruction>) -> (found: bool)
    ensures
        found == is_ord(instruction_views(instructions@)),
{
    match pushed_at(instructions, 2) {
        Some(tag) => same_bytes(&tag, &ord_tag_bytes()) && pushes_byte_at(instructions, 3, 7),
        None => false,
    }
}

/// The content type of an inscription.
pub fn read_mime_type(instructions: &Vec<Instruction>) -> (mime: String)
    ensures
        mime@ == mime_type(instruction_views(instructions@)),
{
    match pushed_at(instructions, 6) {
        Some(bytes) => match utf8_text(&bytes) {
            Some(text) => text,
            None => String::new(),
        },
        None => String::new(),
    }
}

/// Gathers the metadata and the description of an inscription from the
/// instructions after its header.
pub fn gather_parts(instructions: &Vec<Instruction>) -> (parts: (Vec<u8>, Vec<u8>))
    requires
        instructions@.len() >= 5,
    ensures
        parts.0@ == gather(
            instruction_views(instructions@),
            7,
            instructions@.len() - 3,
        ).metadata,
        parts.1@ == gather(
            instruction_views(instructions@),
            7,
            instructions@.len() - 3,
        ).description,
{
    let mut section = Section::Outside;
    let mut metadata: Vec<u8> = Vec::new();
    let mut description: Vec<u8> = Vec::new();
    let end = instructions.len() - 3;
    let mut index: usize = 7;
    while index < end
        invariant
            end == instructions@.len() - 3,
            7 <= index,
            index <= end || end < 7,
            end < 7 ==> index == 7,
            gather(instruction_views(instructions@), 7, index as int) == (Gathered {
                section,
                metadata: metadata@,
                description: description@,
            }),
        decreases end - index,
    {
        match &instructions[index] {
            Instruction::PushBytes(bytes) => {
                if bytes.len() == 1 && bytes[0] == 5 {
                    assert(bytes@ =~= seq![5u8]);
                    section = Section::Metadata;
                } else if (bytes.len() == 1 && bytes[0] == 0) || bytes.len() == 0 {
                    assert(bytes@.len() == 1 ==> bytes@ =~= seq![0u8]);
                    assert(bytes@ != seq![5u8]);
                    section = Section::Description;
                } else {
                    assert(bytes@ != seq![5u8]) by {
                        if bytes@.len() == 1 {
                            assert(bytes@[0] != seq![5u8][0]);
                        }
                    }
                    assert(bytes@ != seq![0u8]) by {
                        if bytes@.len() == 1 {
                            assert(bytes@[0] != seq![0u8][0]);
                        }
                    }
                    match section {
                        Section::Outside => {},
                        Section::Metadata => {
                            append_bytes(&mut metadata, bytes);
                        },
                        Section::Description => {
                            append_bytes(&mut description, bytes);
                        },
                    }
                }
            },
            Instruction::Op(code) => {
                if *code == OP_FALSE {
                    section = Section::Description;
                }
            },
            Instruction::Invalid => {},
        }
        index += 1;
    }
    proof {
        let views = instruction_views(instructions@);
        if end < 7 {
            assert(index == 7);
            assert(gather(views, 7, 7).metadata =~= gather(views, 7, end as int).metadata);
            assert(gather(views, 7, 7).description =~= gather(views, 7, end as int).description);
        }
    }
    (metadata, description)
}

/// Gathers the bytes of the pushes between the header and the trailer of an
/// envelope.
pub fn gather_pushes(instructions: &Vec<Instruction>) -> (pushed: Vec<u8>)
    requires
        instructions@.len() >= 5,
    ensures
        pushed@ == pushed_between(instruction_views(instructions@), 2, instructions@.len() - 3),
{
    let mut pushed: Vec<u8> = Vec::new();
    let end = instructions.len() - 3;
    let mut index: usize = 2;
    while index < end
        invariant
            end == instructions@.len() - 3,
            2 <= index <= end,
            pushed@ == pushed_between(instruction_views(instructions@), 2, index as int),
        decreases end - index,
    {
        match &instructions[index] {
            Instruction::PushBytes(bytes) => {
                append_bytes(&mut pushed, bytes);
            },
            _ => {
                assert(pushed@ + Seq::<u8>::empty() =~= pushed@);
            },
        }
        index += 1;
    }
    pushed
}

/// Reads the payload that the instructions of a witness script hold.
pub fn extract_from_instructions(instructions: &Vec<Instruction>) -> (result: Result<Vec<u8>, Error>)
    ensures
        extracted_view(result) == envelope_payload(instruction_views(instructions@)),
{
    if instructions.len() < 5 {
        return Err(failure("Invalid witness script: too few instructions"));
    }
    if !check_envelope(instructions) {
        return Err(failure("Not an envelope script"));
    }
    if check_ord(instructions) {
        let (metadata, description) = gather_parts(instructions);
        if metadata.len() == 0 {
            return Err(failure("No data found in the ord inscription"));
        }
        repack(&metadata, read_mime_type(instructions), description)
    } else {
        Ok(gather_pushes(instructions))
    }
}

/// Reads the payload of a reveal transaction from the script in its first
/// input's witness.
///
/// The outcome is that of [`spec_extract_data_from_witness`]: the repacked
/// message of an inscription, the pushed bytes of any other envelope, or
/// the reason why the script holds neither.
pub fn extract_data_from_witness(script: &Vec<u8>) -> (result: Result<Vec<u8>, Error>)
    ensures
        extracted_view(result) == spec_extract_data_from_witness(script@),
{
    let instructions = decode_script(script);
    extract_from_instructions(&instructions)
}

} // verus!

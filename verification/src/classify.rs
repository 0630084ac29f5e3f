//! The shapes of output scripts that carry a destination or a payload.

use crate::bytes::copy_bytes;
use crate::chain::byte_strings;
use crate::script::{
    instruction_views, Instruction, InstructionView, OP_CHECKMULTISIG, OP_EQUAL, OP_HASH160,
    OP_PUSHNUM_1, OP_PUSHNUM_2, OP_PUSHNUM_3, OP_RETURN,
};
use vstd::prelude::*;

verus! {

/// The pushed bytes of the instruction at `index`, if it is a push.
pub open spec fn push_at(instructions: Seq<InstructionView>, index: int) -> Option<Seq<u8>> {
    if 0 <= index < instructions.len() {
        match instructions[index] {
            InstructionView::PushBytes(bytes) => Some(bytes),
            _ => None,
        }
    } else {
        None
    }
}

/// Whether the instruction at `index` is the opcode `code`.
pub open spec fn op_at(instructions: Seq<InstructionView>, index: int, code: u8) -> bool {
    0 <= index < instructions.len() && instructions[index] == InstructionView::Op(code)
}

/// Whether a script ends with the opcode `code`.
pub open spec fn ends_with_op(instructions: Seq<InstructionView>, code: u8) -> bool {
    op_at(instructions, instructions.len() - 1, code)
}

/// The byte string that a script ending in `OP_CHECKSIG` carries in an
/// instruction: the bytes of a push, the number one for `OP_PUSHNUM_1`, the
/// opcode itself for any other, and nothing where the script breaks off.
pub open spec fn instruction_payload(instruction: InstructionView) -> Seq<u8> {
    match instruction {
        InstructionView::PushBytes(bytes) => bytes,
        InstructionView::Op(code) => if code == OP_PUSHNUM_1 {
            seq![1u8]
        } else {
            seq![code]
        },
        InstructionView::Invalid => Seq::empty(),
    }
}

/// A bare multisig script read as a carrier: the signatures it asks for and
/// the public key slots that may hold data, the last of them being the
/// signer's own key.
pub struct MultisigLayout {
    pub signatures_required: u8,
    pub slots: Vec<Vec<u8>>,
}

pub struct MultisigLayoutView {
    pub signatures_required: u8,
    pub slots: Seq<Seq<u8>>,
}

impl View for MultisigLayout {
    type V = MultisigLayoutView;

    open spec fn view(&self) -> MultisigLayoutView {
        MultisigLayoutView {
            signatures_required: self.signatures_required,
            slots: byte_strings(self.slots@),
        }
    }
}

/// The signatures that a five-instruction multisig script asks for, by its
/// first and fourth instruction, if they form one of the known pairs.
pub open spec fn signatures_of_two(instructions: Seq<InstructionView>) -> Option<u8> {
    if push_at(instructions, 0) is Some && push_at(instructions, 3) is Some {
        Some(1u8)
    } else if op_at(instructions, 0, OP_PUSHNUM_1) && op_at(instructions, 3, OP_PUSHNUM_2) {
        Some(1u8)
    } else if op_at(instructions, 0, OP_PUSHNUM_2) && op_at(instructions, 3, OP_PUSHNUM_2) {
        Some(2u8)
    } else if op_at(instructions, 0, OP_PUSHNUM_3) && op_at(instructions, 3, OP_PUSHNUM_2) {
        Some(3u8)
    } else {
        None
    }
}

/// The signatures that a six-instruction multisig script asks for, by its
/// first and fifth instruction, if they form one of the known pairs.
pub open spec fn signatures_of_three(instructions: Seq<InstructionView>) -> Option<u8> {
    if op_at(instructions, 0, OP_PUSHNUM_1) && op_at(instructions, 4, OP_PUSHNUM_3) {
        Some(1u8)
    } else if push_at(instructions, 0) is Some && push_at(instructions, 4) is Some {
        Some(2u8)
    } else if op_at(instructions, 0, OP_PUSHNUM_2) && op_at(instructions, 4, OP_PUSHNUM_3) {
        Some(2u8)
    } else if op_at(instructions, 0, OP_PUSHNUM_3) && op_at(instructions, 4, OP_PUSHNUM_3) {
        Some(3u8)
    } else {
        None
    }
}

/// The layout of a bare multisig script, if it has one of the known forms:
/// two or three pushed keys between a first and a last-but-one instruction
/// that agree, and `OP_CHECKMULTISIG` at the end.
pub open spec fn multisig_layout(instructions: Seq<InstructionView>) -> Option<
    MultisigLayoutView,
> {
    if instructions.len() == 5 && op_at(instructions, 4, OP_CHECKMULTISIG) && push_at(
        instructions,
        1,
    ) is Some && push_at(instructions, 2) is Some && signatures_of_two(instructions) is Some {
        Some(
            MultisigLayoutView {
                signatures_required: signatures_of_two(instructions).unwrap(),
                slots: seq![
                    push_at(instructions, 1).unwrap(),
                    push_at(instructions, 2).unwrap(),
                ],
            },
        )
    } else if instructions.len() == 6 && op_at(instructions, 5, OP_CHECKMULTISIG) && push_at(
        instructions,
        1,
    ) is Some && push_at(instructions, 2) is Some && push_at(instructions, 3) is Some
        && signatures_of_three(instructions) is Some {
        Some(
            MultisigLayoutView {
                signatures_required: signatures_of_three(instructions).unwrap(),
                slots: seq![
                    push_at(instructions, 1).unwrap(),
                    push_at(instructions, 2).unwrap(),
                    push_at(instructions, 3).unwrap(),
                ],
            },
        )
    } else {
        None
    }
}

/// The hash of a pay-to-script-hash script: `OP_HASH160`, a push of 20
/// bytes, `OP_EQUAL`, and nothing else.
pub open spec fn p2sh_hash(instructions: Seq<InstructionView>) -> Option<Seq<u8>> {
    if instructions.len() == 3 && op_at(instructions, 0, OP_HASH160) && push_at(
        instructions,
        1,
    ) is Some && push_at(instructions, 1).unwrap().len() == 20 && op_at(
        instructions,
        2,
        OP_EQUAL,
    ) {
        push_at(instructions, 1)
    } else {
        None
    }
}

/// The bytes pushed by a data-carrying `OP_RETURN` script: `OP_RETURN`, one
/// push, and nothing else.
pub open spec fn op_return_push(instructions: Seq<InstructionView>) -> Option<Seq<u8>> {
    if instructions.len() == 2 && op_at(instructions, 0, OP_RETURN) {
        push_at(instructions, 1)
    } else {
        None
    }
}

/// Whether a script opens with an empty push, as a version-0 witness program does.
pub open spec fn opens_with_empty_push(instructions: Seq<InstructionView>) -> bool {
    push_at(instructions, 0) == Some(Seq::<u8>::empty())
}

/// Whether a script opens with an empty push or with `OP_PUSHNUM_1`, as a
/// witness program of version 0 or 1 does.
pub open spec fn opens_as_witness_v0_or_v1(instructions: Seq<InstructionView>) -> bool {
    opens_with_empty_push(instructions) || op_at(instructions, 0, OP_PUSHNUM_1)
}

/// The view of bytes that may be absent.
pub open spec fn optional_bytes(bytes: Option<Vec<u8>>) -> Option<Seq<u8>> {
    match bytes {
        Some(b) => Some(b@),
        None => None,
    }
}

/// The view of a layout that may be absent.
pub open spec fn optional_layout(layout: Option<MultisigLayout>) -> Option<MultisigLayoutView> {
    match layout {
        Some(l) => Some(l@),
        None => None,
    }
}

/// Whether the instruction at `index` is the opcode `code`.
pub fn is_op_at(instructions: &Vec<Instruction>, index: usize, code: u8) -> (found: bool)
    ensures
        found == op_at(instruction_views(instructions@), index as int, code),
{
    if index >= instructions.len() {
        return false;
    }
    match &instructions[index] {
        Instruction::Op(c) => *c == code,
        _ => false,
    }
}

/// A copy of the bytes that the instruction at `index` pushes, if it is a push.
pub fn pushed_at(instructions: &Vec<Instruction>, index: usize) -> (bytes: Option<Vec<u8>>)
    ensures
        optional_bytes(bytes) == push_at(instruction_views(instructions@), index as int),
{
    if index >= instructions.len() {
        return None;
    }
    match &instructions[index] {
        Instruction::PushBytes(b) => Some(copy_bytes(b)),
        _ => None,
    }
}

/// Whether a script ends with the opcode `code`.
pub fn ends_with(instructions: &Vec<Instruction>, code: u8) -> (found: bool)
    ensures
        found == ends_with_op(instruction_views(instructions@), code),
{
    if instructions.len() == 0 {
        return false;
    }
    is_op_at(instructions, instructions.len() - 1, code)
}

/// The byte string that the instruction at `index` carries.
pub fn payload_at(instructions: &Vec<Instruction>, index: usize) -> (payload: Vec<u8>)
    requires
        index < instructions@.len(),
    ensures
        payload@ == instruction_payload(instruction_views(instructions@)[index as int]),
{
    match &instructions[index] {
        Instruction::PushBytes(b) => copy_bytes(b),
        Instruction::Op(code) => {
            let byte: u8 = if *code == OP_PUSHNUM_1 {
                1
            } else {
                *code
            };
            let mut payload: Vec<u8> = Vec::new();
            payload.push(byte);
            assert(payload@ =~= seq![byte]);
            payload
        },
        Instruction::Invalid => Vec::new(),
    }
}

/// The bytes pushed by a data-carrying `OP_RETURN` script.
pub fn find_op_return_push(instructions: &Vec<Instruction>) -> (bytes: Option<Vec<u8>>)
    ensures
        optional_bytes(bytes) == op_return_push(instruction_views(instructions@)),
{
    if instructions.len() == 2 && is_op_at(instructions, 0, OP_RETURN) {
        pushed_at(instructions, 1)
    } else {
        None
    }
}

/// The hash of a pay-to-script-hash script.
pub fn find_p2sh_hash(instructions: &Vec<Instruction>) -> (hash: Option<Vec<u8>>)
    ensures
        optional_bytes(hash) == p2sh_hash(instruction_views(instructions@)),
{
    if instructions.len() == 3 && is_op_at(instructions, 0, OP_HASH160) && is_op_at(
        instructions,
        2,
        OP_EQUAL,
    ) {
        match pushed_at(instructions, 1) {
            Some(hash) => if hash.len() == 20 {
                Some(hash)
            } else {
                None
            },
            None => None,
        }
    } else {
        None
    }
}

/// The signatures that a five-instruction multisig script asks for.
fn find_signatures_of_two(instructions: &Vec<Instruction>) -> (required: Option<u8>)
    ensures
        required == signatures_of_two(instruction_views(instructions@)),
{
    if pushed_at(instructions, 0).is_some() && pushed_at(instructions, 3).is_some() {
        Some(1)
    } else if is_op_at(instructions, 0, OP_PUSHNUM_1) && is_op_at(instructions, 3, OP_PUSHNUM_2) {
        Some(1)
    } else if is_op_at(instructions, 0, OP_PUSHNUM_2) && is_op_at(instructions, 3, OP_PUSHNUM_2) {
        Some(2)
    } else if is_op_at(instructions, 0, OP_PUSHNUM_3) && is_op_at(instructions, 3, OP_PUSHNUM_2) {
        Some(3)
    } else {
        None
    }
}

/// The signatures that a six-instruction multisig script asks for.
fn find_signatures_of_three(instructions: &Vec<Instruction>) -> (required: Option<u8>)
    ensures
        required == signatures_of_three(instruction_views(instructions@)),
{
    if is_op_at(instructions, 0, OP_PUSHNUM_1) && is_op_at(instructions, 4, OP_PUSHNUM_3) {
        Some(1)
    } else if pushed_at(instructions, 0).is_some() && pushed_at(instructions, 4).is_some() {
        Some(2)
    } else if is_op_at(instructions, 0, OP_PUSHNUM_2) && is_op_at(instructions, 4, OP_PUSHNUM_3) {
        Some(2)
    } else if is_op_at(instructions, 0, OP_PUSHNUM_3) && is_op_at(instructions, 4, OP_PUSHNUM_3) {
        Some(3)
    } else {
        None
    }
}

/// The layout of a bare multisig script, if it has one of the known forms.
pub fn find_multisig_layout(instructions: &Vec<Instruction>) -> (layout: Option<MultisigLayout>)
    ensures
        optional_layout(layout) == multisig_layout(instruction_views(instructions@)),
{
    let n = instructions.len();
    if n != 5 && n != 6 {
        return None;
    }
    if !is_op_at(instructions, n - 1, OP_CHECKMULTISIG) {
        return None;
    }
    let required = if n == 5 {
        find_signatures_of_two(instructions)
    } else {
        find_signatures_of_three(instructions)
    };
    let signatures_required = match required {
        Some(m) => m,
        None => { return None; },
    };
    let mut slots: Vec<Vec<u8>> = Vec::new();
    let mut index: usize = 1;
    while index < n - 2
        invariant
            n == instructions@.len(),
            n == 5 || n == 6,
            1 <= index <= n - 2,
            slots@.len() == index - 1,
            op_at(instruction_views(instructions@), n - 1, OP_CHECKMULTISIG),
            n == 5 ==> signatures_of_two(instruction_views(instructions@)) == Some(
                signatures_required,
            ),
            n == 6 ==> signatures_of_three(instruction_views(instructions@)) == Some(
                signatures_required,
            ),
            forall|k: int|
                0 <= k < slots@.len() ==> push_at(instruction_views(instructions@), k + 1) == Some(
                    #[trigger] slots@[k]@,
                ),
        decreases n - index,
    {
        match pushed_at(instructions, index) {
            Some(key) => {
                slots.push(key);
            },
            None => { return None; },
        }
        index += 1;
    }
    let layout = MultisigLayout { signatures_required, slots };
    proof {
        let views = instruction_views(instructions@);
        assert(push_at(views, 1) == Some(slots@[0]@));
        assert(push_at(views, 2) == Some(slots@[1]@));
        assert(n == 6 ==> push_at(views, 3) == Some(slots@[2]@));
        let expected = multisig_layout(views).unwrap();
        assert(layout@.slots =~= expected.slots);
    }
    Some(layout)
}

/// Whether a script opens with an empty push, as a version-0 witness program does.
pub fn is_valid_segwit_script_legacy(instructions: &Vec<Instruction>) -> (valid: bool)
    ensures
        valid == opens_with_empty_push(instruction_views(instructions@)),
{
    match pushed_at(instructions, 0) {
        Some(bytes) => {
            assert(bytes@.len() == 0 ==> bytes@ =~= Seq::<u8>::empty());
            bytes.len() == 0
        },
        None => false,
    }
}

/// Whether a script opens with an empty push or with `OP_PUSHNUM_1`.
pub fn is_valid_segwit_script(instructions: &Vec<Instruction>) -> (valid: bool)
    ensures
        valid == opens_as_witness_v0_or_v1(instruction_views(instructions@)),
{
    is_valid_segwit_script_legacy(instructions) || is_op_at(instructions, 0, OP_PUSHNUM_1)
}

} // verus!

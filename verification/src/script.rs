//! Output scripts as sequences of instructions, and the tests on a script's
//! bytes that the decoder relies on.

use vstd::prelude::*;

verus! {

/// The opcode that pushes the number 1, also the version of Taproot programs.
pub const OP_PUSHNUM_1: u8 = 0x51;

/// The opcode that pushes the number 2.
pub const OP_PUSHNUM_2: u8 = 0x52;

/// The opcode that pushes the number 3.
pub const OP_PUSHNUM_3: u8 = 0x53;

/// The opcode that pushes the number 16, the highest witness version.
pub const OP_PUSHNUM_16: u8 = 0x60;

/// The opcode that opens a branch.
pub const OP_IF: u8 = 0x63;

/// The opcode that makes an output unspendable, and free to carry data.
pub const OP_RETURN: u8 = 0x6a;

/// The opcode that compares the two top items.
pub const OP_EQUAL: u8 = 0x87;

/// The opcode that hashes the top item to 20 bytes.
pub const OP_HASH160: u8 = 0xa9;

/// The opcode that checks one signature.
pub const OP_CHECKSIG: u8 = 0xac;

/// The opcode that checks several signatures against several keys.
pub const OP_CHECKMULTISIG: u8 = 0xae;

/// One step of a script: a data push, another opcode, or the point at which
/// the bytes stop being a script.
#[derive(Clone, Debug)]
pub enum Instruction {
    PushBytes(Vec<u8>),
    Op(u8),
    Invalid,
}

/// An instruction as a mathematical value.
pub enum InstructionView {
    PushBytes(Seq<u8>),
    Op(u8),
    Invalid,
}

impl View for Instruction {
    type V = InstructionView;

    open spec fn view(&self) -> InstructionView {
        match self {
            Instruction::PushBytes(bytes) => InstructionView::PushBytes(bytes@),
            Instruction::Op(code) => InstructionView::Op(*code),
            Instruction::Invalid => InstructionView::Invalid,
        }
    }
}

/// The views of a list of instructions, in order.
pub open spec fn instruction_views(instructions: Seq<Instruction>) -> Seq<InstructionView> {
    instructions.map_values(|i: Instruction| i@)
}

/// The instructions that a script's bytes decode to. A script that breaks off
/// inside a push ends with one `Invalid`.
pub uninterp spec fn script_instructions(script: Seq<u8>) -> Seq<InstructionView>;

/// Decodes a script with `bitcoin::Script::instructions`. The contract names
/// the decoded list and claims that it is a function of the bytes alone; an
/// error of the iterator becomes `Invalid`.
#[verifier::external_body]
pub(crate) fn decode_script(script: &Vec<u8>) -> (instructions: Vec<Instruction>)
    ensures
        instruction_views(instructions@) == script_instructions(script@),
{
    bitcoin::Script::from_bytes(script).instructions().map(|step| match step {
        Ok(bitcoin::script::Instruction::PushBytes(bytes)) => Instruction::PushBytes(bytes.as_bytes().to_vec()),
        Ok(bitcoin::script::Instruction::Op(code)) => Instruction::Op(code.to_u8()),
        Err(_) => Instruction::Invalid,
    }).collect()
}

/// Whether a script opens with `OP_RETURN`.
pub open spec fn spec_is_op_return(script: Seq<u8>) -> bool {
    script.len() > 0 && script[0] == OP_RETURN
}

/// The witness version of a script that is a witness program: a version
/// opcode, then one push of 2 to 40 bytes that fills the rest of the script.
pub open spec fn spec_witness_version(script: Seq<u8>) -> Option<int> {
    if 4 <= script.len() <= 42 && 2 <= script[1] <= 40 && script.len() - 2 == script[1] {
        if script[0] == 0 {
            Some(0int)
        } else if OP_PUSHNUM_1 <= script[0] <= OP_PUSHNUM_16 {
            Some(script[0] - OP_PUSHNUM_1 + 1)
        } else {
            None
        }
    } else {
        None
    }
}

/// Whether a script is a witness program of any version.
pub open spec fn spec_is_witness_program(script: Seq<u8>) -> bool {
    spec_witness_version(script) is Some
}

/// Whether a script pays to a Taproot output key.
pub open spec fn spec_is_p2tr(script: Seq<u8>) -> bool {
    script.len() == 34 && spec_witness_version(script) == Some(1int) && script[1] == 32
}

/// `bitcoin::Script::is_op_return`: true exactly when the first byte is `OP_RETURN`.
#[verifier::external_body]
pub(crate) fn is_op_return(script: &Vec<u8>) -> (found: bool)
    ensures
        found == spec_is_op_return(script@),
{
    bitcoin::Script::from_bytes(script).is_op_return()
}

/// `bitcoin::Script::is_witness_program`: true exactly when the script has a
/// witness version.
#[verifier::external_body]
pub(crate) fn is_witness_program(script: &Vec<u8>) -> (found: bool)
    ensures
        found == spec_is_witness_program(script@),
{
    bitcoin::Script::from_bytes(script).is_witness_program()
}

/// `bitcoin::Script::is_p2tr`: true exactly for a version-1 witness program of 32 bytes.
#[verifier::external_body]
pub(crate) fn is_p2tr(script: &Vec<u8>) -> (found: bool)
    ensures
        found == spec_is_p2tr(script@),
{
    bitcoin::Script::from_bytes(script).is_p2tr()
}

} // verus!

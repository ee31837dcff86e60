//! The parts of a decoded SPIR-V instruction that the conversion reads.
//!
//! The enumerant types are rspirv's own; Verus reads their variants, so the
//! translation tables over them are checked to be exhaustive. An instruction
//! is held as plain values: the decoder's instruction type carries floats and
//! a grammar table that the conversion never looks at.
use vstd::prelude::*;

verus! {

/// rspirv's `spirv::Op`, a field-less enum of opcodes: matched on by variant.
#[verifier::external_type_specification]
pub struct ExOp(rspirv::spirv::Op);

/// rspirv's `spirv::ExecutionModel`, a field-less enum: matched on by variant.
#[verifier::external_type_specification]
pub struct ExExecutionModel(rspirv::spirv::ExecutionModel);

/// rspirv's `spirv::StorageClass`, a field-less enum: matched on by variant.
#[verifier::external_type_specification]
pub struct ExStorageClass(rspirv::spirv::StorageClass);

/// rspirv's `spirv::Dim`, a field-less enum: matched on by variant.
#[verifier::external_type_specification]
pub struct ExDim(rspirv::spirv::Dim);

/// rspirv's `spirv::ImageFormat`, a field-less enum: matched on by variant.
#[verifier::external_type_specification]
pub struct ExImageFormat(rspirv::spirv::ImageFormat);

/// rspirv's `spirv::Decoration`, a field-less enum: matched on by variant.
#[verifier::external_type_specification]
pub struct ExDecoration(rspirv::spirv::Decoration);

/// One operand of an instruction.
///
/// Float literals are kept as their bit patterns. Operand kinds that the
/// conversion never reads are all `Other`.
#[derive(Debug)]
pub enum Operand {
    IdRef(u32),
    LiteralInt32(u32),
    LiteralInt64(u64),
    LiteralFloat32(u32),
    LiteralFloat64(u64),
    LiteralString(String),
    ExecutionModel(rspirv::spirv::ExecutionModel),
    StorageClass(rspirv::spirv::StorageClass),
    Dim(rspirv::spirv::Dim),
    ImageFormat(rspirv::spirv::ImageFormat),
    Decoration(rspirv::spirv::Decoration),
    Other,
}

/// A decoded instruction: opcode, optional result type and result id, operands.
#[derive(Debug)]
pub struct Instruction {
    pub opcode: rspirv::spirv::Op,
    pub result_type: Option<u32>,
    pub result_id: Option<u32>,
    pub operands: Vec<Operand>,
}

/// The id that operand `i` refers to; 0 when it is missing or no id reference.
pub open spec fn id_at(ops: Seq<Operand>, i: int) -> u32 {
    if 0 <= i < ops.len() {
        match ops[i] {
            Operand::IdRef(v) => v,
            _ => 0,
        }
    } else {
        0
    }
}

/// The 32-bit literal of operand `i`, or `default` when it is missing or of another kind.
pub open spec fn int32_at(ops: Seq<Operand>, i: int, default: u32) -> u32 {
    if 0 <= i < ops.len() {
        match ops[i] {
            Operand::LiteralInt32(v) => v,
            _ => default,
        }
    } else {
        default
    }
}

/// The id that an operand refers to, or 0.
pub fn get_id_ref(op: &Operand) -> (r: u32)
    ensures
        r == (match *op {
            Operand::IdRef(v) => v,
            _ => 0,
        }),
{
    match op {
        Operand::IdRef(v) => *v,
        _ => 0,
    }
}

/// The id that operand `i` refers to, or 0.
pub fn operand_id(ops: &Vec<Operand>, i: usize) -> (r: u32)
    ensures
        r == id_at(ops@, i as int),
{
    if i < ops.len() {
        get_id_ref(&ops[i])
    } else {
        0
    }
}

/// The 32-bit literal of operand `i`, or `default`.
pub fn operand_int32(ops: &Vec<Operand>, i: usize, default: u32) -> (r: u32)
    ensures
        r == int32_at(ops@, i as int, default),
{
    if i < ops.len() {
        match &ops[i] {
            Operand::LiteralInt32(v) => *v,
            _ => default,
        }
    } else {
        default
    }
}

} // verus!

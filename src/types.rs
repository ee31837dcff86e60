//! One instruction to one type record, with its references left as raw ids.
use crate::ospv::{
    ConstantValues, Image, ImageDepth, ImageDim, ImageFormatRef, ImageSampled, StorageClassRef,
    Type,
};
use crate::spirv::{get_id_ref, id_at, int32_at, operand_id, operand_int32, Instruction, Operand};
use rspirv::spirv::{Dim, ImageFormat, Op, StorageClass};
use vstd::prelude::*;

verus! {

/// The low byte of a 32-bit literal, as a bit width or a component count is stored.
pub open spec fn byte_size(x: u32) -> u8 {
    (x % 256) as u8
}

/// The signed 32-bit value with the same bit pattern as `x`.
pub open spec fn as_signed32(x: u32) -> i32 {
    if x < 0x8000_0000 {
        x as i32
    } else {
        (x - 0x1_0000_0000) as i32
    }
}

pub open spec fn image_depth(depth: u32) -> ImageDepth {
    if depth == 1 {
        ImageDepth::Depth
    } else if depth == 2 {
        ImageDepth::Unknown
    } else {
        ImageDepth::NotDepth
    }
}

pub open spec fn image_sampled(sampled: u32) -> ImageSampled {
    if sampled == 1 {
        ImageSampled::Sampler
    } else if sampled == 2 {
        ImageSampled::NoSampler
    } else {
        ImageSampled::RunTime
    }
}

pub open spec fn image_dim(dim: Dim) -> ImageDim {
    match dim {
        Dim::Dim1D => ImageDim::Dim1d,
        Dim::Dim2D => ImageDim::Dim2d,
        Dim::Dim3D => ImageDim::Dim3d,
        Dim::DimBuffer => ImageDim::DimBuffer,
        Dim::DimCube => ImageDim::DimCube,
        Dim::DimRect => ImageDim::DimRect,
        Dim::DimSubpassData => ImageDim::DimSubpassData,
    }
}

pub open spec fn image_format(format: ImageFormat) -> ImageFormatRef {
    match format {
        ImageFormat::R11fG11fB10f => ImageFormatRef::R11fG11fB10f,
        ImageFormat::R16 => ImageFormatRef::R16,
        ImageFormat::R16Snorm => ImageFormatRef::R16snorm,
        ImageFormat::R16f => ImageFormatRef::R16f,
        ImageFormat::R16i => ImageFormatRef::R16i,
        ImageFormat::R16ui => ImageFormatRef::R16ui,
        ImageFormat::R32f => ImageFormatRef::R32f,
        ImageFormat::R32i => ImageFormatRef::R32i,
        ImageFormat::R32ui => ImageFormatRef::R32ui,
        ImageFormat::R64i => ImageFormatRef::R64i,
        ImageFormat::R64ui => ImageFormatRef::R64ui,
        ImageFormat::R8 => ImageFormatRef::R8,
        ImageFormat::R8Snorm => ImageFormatRef::R8snorm,
        ImageFormat::R8i => ImageFormatRef::R8i,
        ImageFormat::R8ui => ImageFormatRef::R8ui,
        ImageFormat::Rg16 => ImageFormatRef::Rg16,
        ImageFormat::Rg16Snorm => ImageFormatRef::Rg16snorm,
        ImageFormat::Rg16f => ImageFormatRef::Rg16f,
        ImageFormat::Rg16i => ImageFormatRef::Rg16i,
        ImageFormat::Rg16ui => ImageFormatRef::Rg16ui,
        ImageFormat::Rg32f => ImageFormatRef::Rg32f,
        ImageFormat::Rg32i => ImageFormatRef::Rg32i,
        ImageFormat::Rg32ui => ImageFormatRef::Rg32ui,
        ImageFormat::Rg8 => ImageFormatRef::Rg8,
        ImageFormat::Rg8Snorm => ImageFormatRef::Rg8snorm,
        ImageFormat::Rg8i => ImageFormatRef::Rg8i,
        ImageFormat::Rg8ui => ImageFormatRef::Rg8ui,
        ImageFormat::Rgb10A2 => ImageFormatRef::Rgb10a2,
        ImageFormat::Rgb10a2ui => ImageFormatRef::Rgb10a2ui,
        ImageFormat::Rgba16 => ImageFormatRef::Rgba16,
        ImageFormat::Rgba16Snorm => ImageFormatRef::Rgba16snorm,
        ImageFormat::Rgba16f => ImageFormatRef::Rgba16f,
        ImageFormat::Rgba16i => ImageFormatRef::Rgba16i,
        ImageFormat::Rgba16ui => ImageFormatRef::Rgba16ui,
        ImageFormat::Rgba32f => ImageFormatRef::Rgba32f,
        ImageFormat::Rgba32i => ImageFormatRef::Rgba32i,
        ImageFormat::Rgba32ui => ImageFormatRef::Rgba32ui,
        ImageFormat::Rgba8 => ImageFormatRef::Rgba8,
        ImageFormat::Rgba8Snorm => ImageFormatRef::Rgba8snorm,
        ImageFormat::Rgba8i => ImageFormatRef::Rgba8i,
        ImageFormat::Rgba8ui => ImageFormatRef::Rgba8ui,
        ImageFormat::Unknown => ImageFormatRef::Unknown,
    }
}

pub open spec fn storage_class(class: StorageClass) -> StorageClassRef {
    match class {
        StorageClass::AtomicCounter => StorageClassRef::AtomicCounter,
        StorageClass::CallableDataNV => StorageClassRef::CallableDataNv,
        StorageClass::CodeSectionINTEL => StorageClassRef::CodeSectionIntel,
        StorageClass::CrossWorkgroup => StorageClassRef::CrossWorkgroup,
        StorageClass::Function => StorageClassRef::Function,
        StorageClass::Generic => StorageClassRef::Generic,
        StorageClass::HitAttributeNV => StorageClassRef::HitAttributeNv,
        StorageClass::Image => StorageClassRef::Image,
        StorageClass::IncomingCallableDataNV => StorageClassRef::IncomingCallableDataNv,
        StorageClass::IncomingRayPayloadNV => StorageClassRef::IncomingRayPayloadNv,
        StorageClass::Input => StorageClassRef::Input,
        StorageClass::Output => StorageClassRef::Output,
        StorageClass::PhysicalStorageBuffer => StorageClassRef::PhysicalStorageBuffer,
        StorageClass::Private => StorageClassRef::Private,
        StorageClass::PushConstant => StorageClassRef::PushConstant,
        StorageClass::RayPayloadNV => StorageClassRef::RayPayloadNv,
        StorageClass::ShaderRecordBufferNV => StorageClassRef::ShaderRecordBufferNv,
        StorageClass::StorageBuffer => StorageClassRef::StorageBuffer,
        StorageClass::Uniform => StorageClassRef::Uniform,
        StorageClass::UniformConstant => StorageClassRef::UniformConstant,
        StorageClass::Workgroup => StorageClassRef::Workgroup,
    }
}

/// The value of a constant literal; a missing or non-literal operand reads as 0.
pub open spec fn constant_value(ops: Seq<Operand>, i: int) -> ConstantValues {
    if 0 <= i < ops.len() {
        match ops[i] {
            Operand::LiteralInt32(x) => ConstantValues::Int32 { value: as_signed32(x) },
            Operand::LiteralInt64(x) => ConstantValues::Int64 {
                high: as_signed32((x / 0x1_0000_0000) as u32),
                low: as_signed32((x % 0x1_0000_0000) as u32),
            },
            Operand::LiteralFloat32(bits) => ConstantValues::Float32 { bits },
            Operand::LiteralFloat64(bits) => ConstantValues::Float64 { bits },
            _ => ConstantValues::Int32 { value: 0 },
        }
    } else {
        ConstantValues::Int32 { value: 0 }
    }
}

/// The storage class of a pointer type; `UniformConstant` when the operand is not one.
pub open spec fn storage_class_at(ops: Seq<Operand>, i: int) -> StorageClassRef {
    if 0 <= i < ops.len() {
        match ops[i] {
            Operand::StorageClass(c) => storage_class(c),
            _ => StorageClassRef::UniformConstant,
        }
    } else {
        StorageClassRef::UniformConstant
    }
}

/// The attributes of an image type, read from the operands after the sampled type.
pub open spec fn image_at(ops: Seq<Operand>) -> Image {
    Image {
        arrayed: int32_at(ops, 3, 0) != 0,
        depth: image_depth(int32_at(ops, 2, 0)),
        dim: if 1 < ops.len() && ops[1] is Dim {
            image_dim(ops[1]->Dim_0)
        } else {
            ImageDim::Dim1d
        },
        format: if 6 < ops.len() && ops[6] is ImageFormat {
            image_format(ops[6]->ImageFormat_0)
        } else {
            ImageFormatRef::Unknown
        },
        multisampled: int32_at(ops, 4, 0) != 0,
        sampled: image_sampled(int32_at(ops, 5, 0)),
    }
}

/// The id that an operand refers to, or 0.
pub open spec fn id_of(op: Operand) -> u32 {
    match op {
        Operand::IdRef(v) => v,
        _ => 0,
    }
}

/// `t` is the type record that `inst` declares, its references as raw ids.
/// Opcodes that declare no type, constant or variable give `Unknown`.
pub open spec fn extracted(inst: &Instruction, t: &Type) -> bool {
    let ops = inst.operands@;
    let result_type = match inst.result_type {
        Some(id) => id,
        None => 0,
    };
    match inst.opcode {
        Op::TypeVoid => *t == Type::Void,
        Op::TypeBool => *t == Type::Bool,
        Op::TypeFloat => *t == (Type::Float { size: byte_size(int32_at(ops, 0, 32)) }),
        Op::TypeInt => *t == (Type::Int {
            signed: int32_at(ops, 1, 0) != 0,
            size: byte_size(int32_at(ops, 0, 32)),
        }),
        Op::TypeVector => *t == (Type::Vector {
            ref_: id_at(ops, 0),
            size: byte_size(int32_at(ops, 1, 0)),
        }),
        Op::TypeMatrix => *t == (Type::Matrix {
            ref_: id_at(ops, 0),
            size: byte_size(int32_at(ops, 1, 0)),
        }),
        Op::TypeStruct => match t {
            Type::Struct { refs } => refs@ == ops.map_values(|o: Operand| id_of(o)),
            _ => false,
        },
        Op::TypePointer => *t == (Type::Pointer {
            class: storage_class_at(ops, 0),
            ref_: id_at(ops, 1),
        }),
        Op::TypeArray => *t == (Type::Array { ref_: id_at(ops, 0), size: id_at(ops, 1) }),
        Op::TypeRuntimeArray => *t == (Type::RuntimeArray { ref_: id_at(ops, 0) }),
        Op::TypeImage => *t == (Type::Image { image: image_at(ops), ref_: id_at(ops, 0) }),
        Op::TypeSampler => *t == Type::Sampler,
        Op::TypeSampledImage => *t == (Type::SampledImage { ref_: id_at(ops, 0) }),
        Op::TypeAccelerationStructureNV => *t == Type::AccelerationStructure,
        Op::SpecConstantTrue => *t == (Type::SpecConstantBool { value: true }),
        Op::SpecConstantFalse => *t == (Type::SpecConstantBool { value: false }),
        Op::SpecConstant => *t == (Type::SpecConstant {
            ref_: result_type,
            value: constant_value(ops, 0),
        }),
        Op::Variable => *t == (Type::Variable { ref_: result_type }),
        _ => *t == Type::Unknown,
    }
}

fn to_byte_size(x: u32) -> (r: u8)
    ensures
        r == byte_size(x),
{
    (x % 256) as u8
}

fn to_signed32(x: u32) -> (r: i32)
    ensures
        r == as_signed32(x),
{
    if x < 0x8000_0000 {
        x as i32
    } else {
        (x - 0x8000_0000) as i32 - 0x7fff_ffff - 1
    }
}

fn get_constant_value(ops: &Vec<Operand>, i: usize) -> (r: ConstantValues)
    ensures
        r == constant_value(ops@, i as int),
{
    if i >= ops.len() {
        return ConstantValues::Int32 { value: 0 };
    }
    match &ops[i] {
        Operand::LiteralInt32(x) => ConstantValues::Int32 { value: to_signed32(*x) },
        Operand::LiteralInt64(x) => {
            let high = to_signed32((*x / 0x1_0000_0000) as u32);
            let low = to_signed32((*x % 0x1_0000_0000) as u32);
            ConstantValues::Int64 { high, low }
        },
        Operand::LiteralFloat32(bits) => ConstantValues::Float32 { bits: *bits },
        Operand::LiteralFloat64(bits) => ConstantValues::Float64 { bits: *bits },
        _ => ConstantValues::Int32 { value: 0 },
    }
}

fn extract_image_depth(depth: u32) -> (r: ImageDepth)
    ensures
        r == image_depth(depth),
{
    match depth {
        1 => ImageDepth::Depth,
        2 => ImageDepth::Unknown,
        _ => ImageDepth::NotDepth,
    }
}

fn extract_image_sample(sampled: u32) -> (r: ImageSampled)
    ensures
        r == image_sampled(sampled),
{
    match sampled {
        1 => ImageSampled::Sampler,
        2 => ImageSampled::NoSampler,
        _ => ImageSampled::RunTime,
    }
}

fn extract_image_dim(dim: Dim) -> (r: ImageDim)
    ensures
        r == image_dim(dim),
{
    match dim {
        Dim::Dim1D => ImageDim::Dim1d,
        Dim::Dim2D => ImageDim::Dim2d,
        Dim::Dim3D => ImageDim::Dim3d,
        Dim::DimBuffer => ImageDim::DimBuffer,
        Dim::DimCube => ImageDim::DimCube,
        Dim::DimRect => ImageDim::DimRect,
        Dim::DimSubpassData => ImageDim::DimSubpassData,
    }
}

fn extract_image_format(format: ImageFormat) -> (r: ImageFormatRef)
    ensures
        r == image_format(format),
{
    match format {
        ImageFormat::R11fG11fB10f => ImageFormatRef::R11fG11fB10f,
        ImageFormat::R16 => ImageFormatRef::R16,
        ImageFormat::R16Snorm => ImageFormatRef::R16snorm,
        ImageFormat::R16f => ImageFormatRef::R16f,
        ImageFormat::R16i => ImageFormatRef::R16i,
        ImageFormat::R16ui => ImageFormatRef::R16ui,
        ImageFormat::R32f => ImageFormatRef::R32f,
        ImageFormat::R32i => ImageFormatRef::R32i,
        ImageFormat::R32ui => ImageFormatRef::R32ui,
        ImageFormat::R64i => ImageFormatRef::R64i,
        ImageFormat::R64ui => ImageFormatRef::R64ui,
        ImageFormat::R8 => ImageFormatRef::R8,
        ImageFormat::R8Snorm => ImageFormatRef::R8snorm,
        ImageFormat::R8i => ImageFormatRef::R8i,
        ImageFormat::R8ui => ImageFormatRef::R8ui,
        ImageFormat::Rg16 => ImageFormatRef::Rg16,
        ImageFormat::Rg16Snorm => ImageFormatRef::Rg16snorm,
        ImageFormat::Rg16f => ImageFormatRef::Rg16f,
        ImageFormat::Rg16i => ImageFormatRef::Rg16i,
        ImageFormat::Rg16ui => ImageFormatRef::Rg16ui,
        ImageFormat::Rg32f => ImageFormatRef::Rg32f,
        ImageFormat::Rg32i => ImageFormatRef::Rg32i,
        ImageFormat::Rg32ui => ImageFormatRef::Rg32ui,
        ImageFormat::Rg8 => ImageFormatRef::Rg8,
        ImageFormat::Rg8Snorm => ImageFormatRef::Rg8snorm,
        ImageFormat::Rg8i => ImageFormatRef::Rg8i,
        ImageFormat::Rg8ui => ImageFormatRef::Rg8ui,
        ImageFormat::Rgb10A2 => ImageFormatRef::Rgb10a2,
        ImageFormat::Rgb10a2ui => ImageFormatRef::Rgb10a2ui,
        ImageFormat::Rgba16 => ImageFormatRef::Rgba16,
        ImageFormat::Rgba16Snorm => ImageFormatRef::Rgba16snorm,
        ImageFormat::Rgba16f => ImageFormatRef::Rgba16f,
        ImageFormat::Rgba16i => ImageFormatRef::Rgba16i,
        ImageFormat::Rgba16ui => ImageFormatRef::Rgba16ui,
        ImageFormat::Rgba32f => ImageFormatRef::Rgba32f,
        ImageFormat::Rgba32i => ImageFormatRef::Rgba32i,
        ImageFormat::Rgba32ui => ImageFormatRef::Rgba32ui,
        ImageFormat::Rgba8 => ImageFormatRef::Rgba8,
        ImageFormat::Rgba8Snorm => ImageFormatRef::Rgba8snorm,
        ImageFormat::Rgba8i => ImageFormatRef::Rgba8i,
        ImageFormat::Rgba8ui => ImageFormatRef::Rgba8ui,
        ImageFormat::Unknown => ImageFormatRef::Unknown,
    }
}

fn extract_storage_class(class: StorageClass) -> (r: StorageClassRef)
    ensures
        r == storage_class(class),
{
    match class {
        StorageClass::AtomicCounter => StorageClassRef::AtomicCounter,
        StorageClass::CallableDataNV => StorageClassRef::CallableDataNv,
        StorageClass::CodeSectionINTEL => StorageClassRef::CodeSectionIntel,
        StorageClass::CrossWorkgroup => StorageClassRef::CrossWorkgroup,
        StorageClass::Function => StorageClassRef::Function,
        StorageClass::Generic => StorageClassRef::Generic,
        StorageClass::HitAttributeNV => StorageClassRef::HitAttributeNv,
        StorageClass::Image => StorageClassRef::Image,
        StorageClass::IncomingCallableDataNV => StorageClassRef::IncomingCallableDataNv,
        StorageClass::IncomingRayPayloadNV => StorageClassRef::IncomingRayPayloadNv,
        StorageClass::Input => StorageClassRef::Input,
        StorageClass::Output => StorageClassRef::Output,
        StorageClass::PhysicalStorageBuffer => StorageClassRef::PhysicalStorageBuffer,
        StorageClass::Private => StorageClassRef::Private,
        StorageClass::PushConstant => StorageClassRef::PushConstant,
        StorageClass::RayPayloadNV => StorageClassRef::RayPayloadNv,
        StorageClass::ShaderRecordBufferNV => StorageClassRef::ShaderRecordBufferNv,
        StorageClass::StorageBuffer => StorageClassRef::StorageBuffer,
        StorageClass::Uniform => StorageClassRef::Uniform,
        StorageClass::UniformConstant => StorageClassRef::UniformConstant,
        StorageClass::Workgroup => StorageClassRef::Workgroup,
    }
}

fn extract_image(ops: &Vec<Operand>) -> (r: Image)
    ensures
        r == image_at(ops@),
{
    let dim = if 1 < ops.len() {
        match &ops[1] {
            Operand::Dim(d) => extract_image_dim(*d),
            _ => ImageDim::Dim1d,
        }
    } else {
        ImageDim::Dim1d
    };
    let format = if 6 < ops.len() {
        match &ops[6] {
            Operand::ImageFormat(f) => extract_image_format(*f),
            _ => ImageFormatRef::Unknown,
        }
    } else {
        ImageFormatRef::Unknown
    };
    Image {
        arrayed: operand_int32(ops, 3, 0) != 0,
        depth: extract_image_depth(operand_int32(ops, 2, 0)),
        dim,
        format,
        multisampled: operand_int32(ops, 4, 0) != 0,
        sampled: extract_image_sample(operand_int32(ops, 5, 0)),
    }
}

fn extract_struct_refs(ops: &Vec<Operand>) -> (r: Vec<u32>)
    ensures
        r@ == ops@.map_values(|o: Operand| id_of(o)),
{
    let mut refs: Vec<u32> = Vec::new();
    for i in 0..ops.len()
        invariant
            refs@ == ops@.subrange(0, i as int).map_values(|o: Operand| id_of(o)),
    {
        refs.push(get_id_ref(&ops[i]));
        proof {
            assert(ops@.subrange(0, i + 1) == ops@.subrange(0, i as int).push(ops@[i as int]));
        }
    }
    proof {
        assert(ops@.subrange(0, ops@.len() as int) == ops@);
    }
    refs
}

/// The type record that `inst` declares, with its references as raw ids.
/// Missing or ill-kinded operands read as documented defaults: a bit width
/// of 32, a count of 0, a reference to id 0.
pub fn extract_type(inst: &Instruction) -> (r: Type)
    ensures
        extracted(inst, &r),
{
    let ops = &inst.operands;
    let result_type = match inst.result_type {
        Some(id) => id,
        None => 0,
    };
    match inst.opcode {
        Op::TypeVoid => Type::Void,
        Op::TypeBool => Type::Bool,
        Op::TypeFloat => Type::Float { size: to_byte_size(operand_int32(ops, 0, 32)) },
        Op::TypeInt => {
            let size = to_byte_size(operand_int32(ops, 0, 32));
            let signed = operand_int32(ops, 1, 0) != 0;
            Type::Int { signed, size }
        },
        Op::TypeVector => {
            let ref_ = operand_id(ops, 0);
            let size = to_byte_size(operand_int32(ops, 1, 0));
            Type::Vector { ref_, size }
        },
        Op::TypeMatrix => {
            let ref_ = operand_id(ops, 0);
            let size = to_byte_size(operand_int32(ops, 1, 0));
            Type::Matrix { ref_, size }
        },
        Op::TypeStruct => Type::Struct { refs: extract_struct_refs(ops) },
        Op::TypePointer => {
            let class = if 0 < ops.len() {
                match &ops[0] {
                    Operand::StorageClass(c) => extract_storage_class(*c),
                    _ => StorageClassRef::UniformConstant,
                }
            } else {
                StorageClassRef::UniformConstant
            };
            Type::Pointer { class, ref_: operand_id(ops, 1) }
        },
        Op::TypeArray => Type::Array { ref_: operand_id(ops, 0), size: operand_id(ops, 1) },
        Op::TypeRuntimeArray => Type::RuntimeArray { ref_: operand_id(ops, 0) },
        Op::TypeImage => Type::Image { image: extract_image(ops), ref_: operand_id(ops, 0) },
        Op::TypeSampler => Type::Sampler,
        Op::TypeSampledImage => Type::SampledImage { ref_: operand_id(ops, 0) },
        Op::TypeAccelerationStructureNV => Type::AccelerationStructure,
        Op::SpecConstantTrue => Type::SpecConstantBool { value: true },
        Op::SpecConstantFalse => Type::SpecConstantBool { value: false },
        Op::SpecConstant => Type::SpecConstant {
            ref_: result_type,
            value: get_constant_value(ops, 0),
        },
        Op::Variable => Type::Variable { ref_: result_type },
        _ => Type::Unknown,
    }
}

} // verus!

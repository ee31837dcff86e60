//! The artifact: a deduplicated, index-addressed array of types, the
//! decorations of those types keyed by index, and the entry points.
use std::collections::HashMap;
use vstd::prelude::*;

verus! {

/// The index that stands for a reference that could not be resolved.
pub const INVALID_INDEX: u32 = 0xffff_ffff;

#[derive(Clone, Copy, Debug, PartialEq, Eq, Structural)]
pub enum ExecutionModelRef {
    AnyHitNv,
    CallableNv,
    ClosestHitNv,
    Fragment,
    Geometry,
    Glcompute,
    IntersectionNv,
    Kernel,
    MeshNv,
    MissNv,
    RayGenerationNv,
    TaskNv,
    TessellationControl,
    TessellationEvaluation,
    Vertex,
}

#[derive(Clone, Copy, Debug, PartialEq, Eq, Structural)]
pub enum StorageClassRef {
    AtomicCounter,
    CallableDataNv,
    CodeSectionIntel,
    CrossWorkgroup,
    Function,
    Generic,
    HitAttributeNv,
    Image,
    IncomingCallableDataNv,
    IncomingRayPayloadNv,
    Input,
    Output,
    PhysicalStorageBuffer,
    Private,
    PushConstant,
    RayPayloadNv,
    ShaderRecordBufferNv,
    StorageBuffer,
    Uniform,
    UniformConstant,
    Workgroup,
}

#[derive(Clone, Copy, Debug, PartialEq, Eq, Structural)]
pub enum ImageDim {
    Dim1d,
    Dim2d,
    Dim3d,
    DimBuffer,
    DimCube,
    DimRect,
    DimSubpassData,
}

#[derive(Clone, Copy, Debug, PartialEq, Eq, Structural)]
pub enum ImageDepth {
    Depth,
    NotDepth,
    Unknown,
}

#[derive(Clone, Copy, Debug, PartialEq, Eq, Structural)]
pub enum ImageSampled {
    NoSampler,
    RunTime,
    Sampler,
}

#[derive(Clone, Copy, Debug, PartialEq, Eq, Structural)]
pub enum ImageFormatRef {
    R11fG11fB10f,
    R16,
    R16f,
    R16i,
    R16snorm,
    R16ui,
    R32f,
    R32i,
    R32ui,
    R64i,
    R64ui,
    R8,
    R8i,
    R8snorm,
    R8ui,
    Rg16,
    Rg16f,
    Rg16i,
    Rg16snorm,
    Rg16ui,
    Rg32f,
    Rg32i,
    Rg32ui,
    Rg8,
    Rg8i,
    Rg8snorm,
    Rg8ui,
    Rgb10a2,
    Rgb10a2ui,
    Rgba16,
    Rgba16f,
    Rgba16i,
    Rgba16snorm,
    Rgba16ui,
    Rgba32f,
    Rgba32i,
    Rgba32ui,
    Rgba8,
    Rgba8i,
    Rgba8snorm,
    Rgba8ui,
    Unknown,
}

/// The attributes of an image type.
#[derive(Clone, Copy, Debug, PartialEq, Eq, Structural)]
pub struct Image {
    pub arrayed: bool,
    pub depth: ImageDepth,
    pub dim: ImageDim,
    pub format: ImageFormatRef,
    pub multisampled: bool,
    pub sampled: ImageSampled,
}

/// The value of a specialization constant. Float values are kept as their
/// bit patterns.
#[derive(Clone, Copy, Debug, PartialEq, Eq, Structural)]
#[allow(inconsistent_fields)]
pub enum ConstantValues {
    Int32 { value: i32 },
    Int64 { high: i32, low: i32 },
    Float32 { bits: u32 },
    Float64 { bits: u64 },
}

/// One type record. Its `ref_`, `refs` and the array's `size` are references:
/// raw ids as extracted from an instruction, indices into the artifact's
/// type array once resolved.
#[derive(Debug, PartialEq, Eq)]
#[allow(inconsistent_fields)]
pub enum Type {
    AccelerationStructure,
    Array { ref_: u32, size: u32 },
    Bool,
    Float { size: u8 },
    Image { image: Image, ref_: u32 },
    Int { signed: bool, size: u8 },
    Matrix { ref_: u32, size: u8 },
    Pointer { class: StorageClassRef, ref_: u32 },
    RuntimeArray { ref_: u32 },
    SampledImage { ref_: u32 },
    Sampler,
    SpecConstant { ref_: u32, value: ConstantValues },
    SpecConstantBool { value: bool },
    Struct { refs: Vec<u32> },
    Unknown,
    Variable { ref_: u32 },
    Vector { ref_: u32, size: u8 },
    Void,
}

#[derive(Clone, Copy, Debug, PartialEq, Eq, Structural)]
pub enum VarDecorationBlockType {
    Block,
    BufferBlock,
}

#[derive(Clone, Copy, Debug, PartialEq, Eq, Structural)]
pub enum VarDecorationVisibility {
    ReadOnly,
    WriteOnly,
}

/// A descriptor set and a binding, each settable on its own.
#[derive(Clone, Copy, Debug, PartialEq, Eq, Structural)]
pub struct VarDecorationSetBind {
    pub binding: u32,
    pub set: u32,
}

/// Matrix majorness, with the matrix stride as its value.
#[derive(Clone, Copy, Debug, PartialEq, Eq, Structural)]
pub enum VarDecorationMatrix {
    Column { value: u32 },
    Row { value: u32 },
}

/// The decorations of one id, or of one member of a struct.
#[derive(Debug, PartialEq, Eq)]
pub struct VarDecoration {
    pub array_stride: Option<u32>,
    pub block_type: Option<VarDecorationBlockType>,
    pub location: Option<u32>,
    pub matrix: Option<VarDecorationMatrix>,
    pub name: Option<String>,
    pub offset: Option<u32>,
    pub relaxed_precision: Option<bool>,
    pub set_bind: Option<VarDecorationSetBind>,
    pub spec_id: Option<u32>,
    pub visibility: Option<VarDecorationVisibility>,
}

/// The decorations of one id together with those of its members.
#[derive(Debug, PartialEq, Eq)]
pub struct StructuralDecoration {
    pub decoration: VarDecoration,
    pub members: Option<Vec<VarDecoration>>,
}

/// An entry point: its execution model, its name and its interface references.
#[derive(Debug, PartialEq, Eq)]
pub struct ExecModel {
    pub model: ExecutionModelRef,
    pub name: String,
    pub parameters: Vec<u32>,
}

/// The artifact. `decoration` is keyed by the index of the decorated type.
#[derive(Debug)]
pub struct Ospv {
    pub decoration: HashMap<u32, StructuralDecoration>,
    pub entries: Vec<ExecModel>,
    pub source_file: String,
    pub types: Vec<Type>,
}

} // verus!

use ospv::builder::{OspvBuilder, TypeTable};
use ospv::consumer::{get_exec_model, SpvConsumer};
use ospv::ospv::{
    ConstantValues, ExecModel, ExecutionModelRef, Image, ImageDepth, ImageDim, ImageFormatRef,
    ImageSampled, StorageClassRef, StructuralDecoration, Type, VarDecoration, INVALID_INDEX,
};
use ospv::spirv::{Instruction, Operand};
use ospv::types::extract_type;
use rspirv::spirv::{Decoration, Dim, ExecutionModel, ImageFormat, Op, StorageClass};

fn declare(opcode: Op, id: u32, operands: Vec<Operand>) -> Instruction {
    Instruction { opcode, result_type: None, result_id: Some(id), operands }
}

fn plain(opcode: Op, operands: Vec<Operand>) -> Instruction {
    Instruction { opcode, result_type: None, result_id: None, operands }
}

fn location(value: u32) -> StructuralDecoration {
    let mut d = StructuralDecoration::default();
    d.decoration.location = Some(value);
    d
}

fn example_module() -> SpvConsumer {
    let mut c = SpvConsumer::new();
    c.consume_instruction(declare(
        Op::TypeInt,
        5,
        vec![Operand::LiteralInt32(32), Operand::LiteralInt32(1)],
    ));
    c.consume_instruction(declare(
        Op::TypeVector,
        6,
        vec![Operand::IdRef(5), Operand::LiteralInt32(3)],
    ));
    c.consume_instruction(plain(
        Op::Decorate,
        vec![Operand::IdRef(6), Operand::Decoration(Decoration::Location), Operand::LiteralInt32(2)],
    ));
    c
}

#[test]
fn example_vector_of_int_with_location() {
    let out = example_module().to_ospv("shader.spv");
    assert_eq!(out.source_file, "shader.spv");
    assert_eq!(
        out.types,
        vec![Type::Int { signed: true, size: 32 }, Type::Vector { ref_: 0, size: 3 }]
    );
    assert_eq!(out.decoration.len(), 1);
    assert_eq!(out.decoration.get(&1), Some(&location(2)));
}

#[test]
fn example_entry_point_interface_is_resolved() {
    let mut c = example_module();
    c.consume_instruction(plain(
        Op::EntryPoint,
        vec![
            Operand::ExecutionModel(ExecutionModel::Fragment),
            Operand::IdRef(4),
            Operand::LiteralString("main".to_string()),
            Operand::IdRef(6),
        ],
    ));
    let out = c.to_ospv("shader.spv");
    assert_eq!(
        out.entries,
        vec![ExecModel {
            model: ExecutionModelRef::Fragment,
            name: "main".to_string(),
            parameters: vec![1],
        }]
    );
}

#[test]
fn decorate_on_id_zero_is_ignored() {
    let mut c = example_module();
    c.consume_instruction(plain(
        Op::Decorate,
        vec![Operand::IdRef(0), Operand::Decoration(Decoration::Location), Operand::LiteralInt32(9)],
    ));
    let out = c.to_ospv("m");
    assert_eq!(out.decoration.len(), 1);
    assert_eq!(out.decoration.get(&1), Some(&location(2)));
}

#[test]
fn empty_struct_is_a_struct_without_members() {
    let t = extract_type(&declare(Op::TypeStruct, 3, vec![]));
    assert_eq!(t, Type::Struct { refs: vec![] });
    let mut c = SpvConsumer::new();
    c.consume_instruction(declare(Op::TypeStruct, 3, vec![]));
    let out = c.to_ospv("m");
    assert_eq!(out.types, vec![Type::Struct { refs: vec![] }]);
}

#[test]
fn shared_subtype_is_placed_once() {
    let mut c = SpvConsumer::new();
    c.consume_instruction(declare(Op::TypeFloat, 1, vec![Operand::LiteralInt32(32)]));
    c.consume_instruction(declare(
        Op::TypeVector,
        2,
        vec![Operand::IdRef(1), Operand::LiteralInt32(4)],
    ));
    c.consume_instruction(declare(
        Op::TypeStruct,
        3,
        vec![Operand::IdRef(2), Operand::IdRef(2), Operand::IdRef(1)],
    ));
    c.consume_instruction(declare(
        Op::TypePointer,
        4,
        vec![Operand::StorageClass(StorageClass::Uniform), Operand::IdRef(3)],
    ));
    c.consume_instruction(declare(Op::TypeRuntimeArray, 5, vec![Operand::IdRef(3)]));
    let out = c.to_ospv("m");
    assert_eq!(
        out.types,
        vec![
            Type::Float { size: 32 },
            Type::Vector { ref_: 0, size: 4 },
            Type::Struct { refs: vec![1, 1, 0] },
            Type::Pointer { class: StorageClassRef::Uniform, ref_: 2 },
            Type::RuntimeArray { ref_: 2 },
        ]
    );
}

#[test]
fn forward_reference_is_resolved_before_its_parent() {
    let mut c = SpvConsumer::new();
    c.consume_instruction(declare(
        Op::TypePointer,
        10,
        vec![Operand::StorageClass(StorageClass::Input), Operand::IdRef(11)],
    ));
    c.consume_instruction(declare(Op::TypeBool, 11, vec![]));
    let out = c.to_ospv("m");
    assert_eq!(
        out.types,
        vec![Type::Bool, Type::Pointer { class: StorageClassRef::Input, ref_: 0 }]
    );
}

#[test]
fn dangling_and_unknown_references_become_the_sentinel() {
    let mut c = SpvConsumer::new();
    c.consume_instruction(declare(Op::Constant, 7, vec![Operand::LiteralInt32(4)]));
    c.consume_instruction(declare(Op::TypeArray, 8, vec![Operand::IdRef(99), Operand::IdRef(7)]));
    let out = c.to_ospv("m");
    assert_eq!(out.types, vec![Type::Array { ref_: INVALID_INDEX, size: INVALID_INDEX }]);
}

#[test]
fn cyclic_reference_is_cut_with_the_sentinel() {
    let mut c = SpvConsumer::new();
    c.consume_instruction(declare(
        Op::TypePointer,
        1,
        vec![Operand::StorageClass(StorageClass::PhysicalStorageBuffer), Operand::IdRef(2)],
    ));
    c.consume_instruction(declare(Op::TypeStruct, 2, vec![Operand::IdRef(1)]));
    let out = c.to_ospv("m");
    assert_eq!(
        out.types,
        vec![
            Type::Struct { refs: vec![INVALID_INDEX] },
            Type::Pointer { class: StorageClassRef::PhysicalStorageBuffer, ref_: 0 },
        ]
    );
}

#[test]
fn decoration_of_non_type_is_dropped() {
    let mut c = example_module();
    c.consume_instruction(plain(
        Op::Decorate,
        vec![Operand::IdRef(40), Operand::Decoration(Decoration::Binding), Operand::LiteralInt32(1)],
    ));
    c.consume_instruction(plain(
        Op::Name,
        vec![Operand::IdRef(41), Operand::LiteralString("f".to_string())],
    ));
    let out = c.to_ospv("m");
    assert_eq!(out.decoration.len(), 1);
}

#[test]
fn decoration_before_declaration_is_kept() {
    let mut c = SpvConsumer::new();
    c.consume_instruction(plain(
        Op::Name,
        vec![Operand::IdRef(3), Operand::LiteralString("Light".to_string())],
    ));
    c.consume_instruction(plain(
        Op::MemberName,
        vec![Operand::IdRef(3), Operand::LiteralInt32(1), Operand::LiteralString("color".to_string())],
    ));
    c.consume_instruction(plain(
        Op::MemberDecorate,
        vec![
            Operand::IdRef(3),
            Operand::LiteralInt32(1),
            Operand::Decoration(Decoration::Offset),
            Operand::LiteralInt32(16),
        ],
    ));
    c.consume_instruction(plain(
        Op::Decorate,
        vec![Operand::IdRef(3), Operand::Decoration(Decoration::Block)],
    ));
    c.consume_instruction(declare(Op::TypeBool, 2, vec![]));
    c.consume_instruction(declare(Op::TypeStruct, 3, vec![Operand::IdRef(2), Operand::IdRef(2)]));
    let out = c.to_ospv("m");
    let d = out.decoration.get(&1).expect("the struct is decorated");
    assert_eq!(d.decoration.name, Some("Light".to_string()));
    assert_eq!(d.decoration.block_type, Some(ospv::ospv::VarDecorationBlockType::Block));
    let members = d.members.as_ref().expect("members were touched");
    assert_eq!(members.len(), 2);
    assert_eq!(members[0], VarDecoration::default());
    assert_eq!(members[1].name, Some("color".to_string()));
    assert_eq!(members[1].offset, Some(16));
}

#[test]
fn entry_point_without_interface_and_unknown_parameter() {
    let e = get_exec_model(&vec![
        Operand::ExecutionModel(ExecutionModel::GLCompute),
        Operand::IdRef(4),
        Operand::LiteralString("cs".to_string()),
    ]);
    assert_eq!(e.model, ExecutionModelRef::Glcompute);
    assert_eq!(e.name, "cs");
    assert!(e.parameters.is_empty());

    let mut c = SpvConsumer::new();
    c.consume_instruction(plain(
        Op::EntryPoint,
        vec![
            Operand::ExecutionModel(ExecutionModel::Vertex),
            Operand::IdRef(4),
            Operand::LiteralString("vs".to_string()),
            Operand::IdRef(30),
        ],
    ));
    let out = c.to_ospv("m");
    assert_eq!(out.entries[0].parameters, vec![INVALID_INDEX]);
}

#[test]
fn entry_point_defaults_when_operands_are_missing() {
    let e = get_exec_model(&vec![]);
    assert_eq!(e.model, ExecutionModelRef::Kernel);
    assert_eq!(e.name, "main");
    assert!(e.parameters.is_empty());
}

#[test]
fn variable_resolves_to_its_pointer_type() {
    let mut c = SpvConsumer::new();
    c.consume_instruction(declare(Op::TypeFloat, 1, vec![Operand::LiteralInt32(32)]));
    c.consume_instruction(declare(
        Op::TypePointer,
        2,
        vec![Operand::StorageClass(StorageClass::Output), Operand::IdRef(1)],
    ));
    c.consume_instruction(Instruction {
        opcode: Op::Variable,
        result_type: Some(2),
        result_id: Some(3),
        operands: vec![Operand::StorageClass(StorageClass::Output)],
    });
    c.consume_instruction(plain(
        Op::Decorate,
        vec![Operand::IdRef(3), Operand::Decoration(Decoration::Location), Operand::LiteralInt32(0)],
    ));
    let out = c.to_ospv("m");
    assert_eq!(out.types[2], Type::Variable { ref_: 1 });
    assert_eq!(out.decoration.get(&2), Some(&location(0)));
}

#[test]
fn int_and_float_widths_default_to_32() {
    assert_eq!(
        extract_type(&declare(Op::TypeInt, 1, vec![])),
        Type::Int { signed: false, size: 32 }
    );
    assert_eq!(
        extract_type(&declare(Op::TypeFloat, 1, vec![Operand::IdRef(3)])),
        Type::Float { size: 32 }
    );
    assert_eq!(
        extract_type(&declare(Op::TypeInt, 1, vec![Operand::LiteralInt32(64), Operand::LiteralInt32(0)])),
        Type::Int { signed: false, size: 64 }
    );
}

#[test]
fn component_count_keeps_its_low_byte() {
    assert_eq!(
        extract_type(&declare(Op::TypeMatrix, 1, vec![Operand::IdRef(2), Operand::LiteralInt32(260)])),
        Type::Matrix { ref_: 2, size: 4 }
    );
}

#[test]
fn spec_constants_reinterpret_bit_patterns() {
    let int32 = Instruction {
        opcode: Op::SpecConstant,
        result_type: Some(9),
        result_id: Some(10),
        operands: vec![Operand::LiteralInt32(0xffff_fffe)],
    };
    assert_eq!(
        extract_type(&int32),
        Type::SpecConstant { ref_: 9, value: ConstantValues::Int32 { value: -2 } }
    );
    let int64 = Instruction {
        opcode: Op::SpecConstant,
        result_type: Some(9),
        result_id: Some(11),
        operands: vec![Operand::LiteralInt64(0x8000_0000_0000_0001)],
    };
    assert_eq!(
        extract_type(&int64),
        Type::SpecConstant {
            ref_: 9,
            value: ConstantValues::Int64 { high: i32::MIN, low: 1 },
        }
    );
    let float = Instruction {
        opcode: Op::SpecConstant,
        result_type: None,
        result_id: Some(12),
        operands: vec![Operand::LiteralFloat32(1.5f32.to_bits())],
    };
    assert_eq!(
        extract_type(&float),
        Type::SpecConstant { ref_: 0, value: ConstantValues::Float32 { bits: 1.5f32.to_bits() } }
    );
    assert_eq!(
        extract_type(&declare(Op::SpecConstantTrue, 13, vec![])),
        Type::SpecConstantBool { value: true }
    );
    assert_eq!(
        extract_type(&declare(Op::SpecConstantFalse, 14, vec![])),
        Type::SpecConstantBool { value: false }
    );
}

#[test]
fn image_attributes_are_translated() {
    let inst = declare(
        Op::TypeImage,
        20,
        vec![
            Operand::IdRef(1),
            Operand::Dim(Dim::DimCube),
            Operand::LiteralInt32(1),
            Operand::LiteralInt32(1),
            Operand::LiteralInt32(0),
            Operand::LiteralInt32(2),
            Operand::ImageFormat(ImageFormat::Rgba16Snorm),
        ],
    );
    let expected = Image {
        arrayed: true,
        depth: ImageDepth::Depth,
        dim: ImageDim::DimCube,
        format: ImageFormatRef::Rgba16snorm,
        multisampled: false,
        sampled: ImageSampled::NoSampler,
    };
    assert_eq!(extract_type(&inst), Type::Image { image: expected, ref_: 1 });

    let bare = extract_type(&declare(Op::TypeImage, 21, vec![Operand::IdRef(1)]));
    let defaults = Image {
        arrayed: false,
        depth: ImageDepth::NotDepth,
        dim: ImageDim::Dim1d,
        format: ImageFormatRef::Unknown,
        multisampled: false,
        sampled: ImageSampled::RunTime,
    };
    assert_eq!(bare, Type::Image { image: defaults, ref_: 1 });
}

#[test]
fn pointer_storage_class_defaults_to_uniform_constant() {
    assert_eq!(
        extract_type(&declare(Op::TypePointer, 1, vec![Operand::IdRef(2)])),
        Type::Pointer { class: StorageClassRef::UniformConstant, ref_: 0 }
    );
    assert_eq!(
        extract_type(&declare(
            Op::TypePointer,
            1,
            vec![Operand::StorageClass(StorageClass::CallableDataNV), Operand::IdRef(2)]
        )),
        Type::Pointer { class: StorageClassRef::CallableDataNv, ref_: 2 }
    );
}

#[test]
fn leaf_and_unknown_opcodes() {
    assert_eq!(extract_type(&declare(Op::TypeVoid, 1, vec![])), Type::Void);
    assert_eq!(extract_type(&declare(Op::TypeSampler, 1, vec![])), Type::Sampler);
    assert_eq!(
        extract_type(&declare(Op::TypeAccelerationStructureNV, 1, vec![])),
        Type::AccelerationStructure
    );
    assert_eq!(
        extract_type(&declare(Op::TypeSampledImage, 1, vec![Operand::IdRef(7)])),
        Type::SampledImage { ref_: 7 }
    );
    assert_eq!(extract_type(&declare(Op::Function, 1, vec![])), Type::Unknown);
}

#[test]
fn resolve_twice_gives_the_same_index() {
    let mut table = TypeTable::new();
    table.insert(5, Type::Int { signed: true, size: 32 });
    table.insert(6, Type::Vector { ref_: 5, size: 3 });
    let mut b = OspvBuilder::new("m");
    let first = b.resolve(6, &table);
    let second = b.resolve(6, &table);
    assert_eq!(first, 1);
    assert_eq!(second, 1);
    assert_eq!(b.resolve(5, &table), 0);
    assert_eq!(b.resolve(77, &table), INVALID_INDEX);
    assert_eq!(b.get_ospv().types.len(), 2);
}

#[test]
fn builder_drops_decorations_of_unplaced_ids() {
    let mut table = TypeTable::new();
    table.insert(1, Type::Bool);
    table.insert(2, Type::Unknown);
    let mut b = OspvBuilder::new("m").add_types(&table);
    b.set_decoration(2, location(1));
    b.set_decoration(1, location(3));
    let out = b.get_ospv();
    assert_eq!(out.types, vec![Type::Bool]);
    assert_eq!(out.decoration.len(), 1);
    assert_eq!(out.decoration.get(&0), Some(&location(3)));
}

#[test]
fn table_keeps_first_store_position() {
    let mut table = TypeTable::new();
    table.insert(4, Type::Bool);
    table.insert(3, Type::Void);
    table.insert(4, Type::Sampler);
    assert_eq!(table.len(), 2);
    assert_eq!(table.id_at(0), 4);
    assert_eq!(table.id_at(1), 3);
    assert_eq!(table.get(4), Some(&Type::Sampler));
    let out = OspvBuilder::new("m").add_types(&table).get_ospv();
    assert_eq!(out.types, vec![Type::Sampler, Type::Void]);
}

#[test]
fn one_resolution_places_only_what_the_id_leads_to() {
    let mut table = TypeTable::new();
    table.insert(1, Type::Bool);
    table.insert(2, Type::Float { size: 32 });
    table.insert(3, Type::Vector { ref_: 2, size: 2 });
    let mut b = OspvBuilder::new("m");
    assert_eq!(b.resolve(3, &table), 1);
    assert_eq!(b.resolve(9, &table), INVALID_INDEX);
    assert_eq!(b.resolve(2, &table), 0);
    let out = b.get_ospv();
    assert_eq!(out.types, vec![Type::Float { size: 32 }, Type::Vector { ref_: 0, size: 2 }]);
}

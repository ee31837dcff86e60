use ospv::decoration::{apply_decoration, struct_decore_apply_member_decoration};
use ospv::ospv::{
    StructuralDecoration, VarDecoration, VarDecorationBlockType, VarDecorationMatrix,
    VarDecorationSetBind, VarDecorationVisibility,
};
use ospv::spirv::Operand;
use rspirv::spirv::Decoration;

fn deco(kind: Decoration, literal: Option<u32>) -> Vec<Operand> {
    let mut ops = vec![Operand::IdRef(1), Operand::Decoration(kind)];
    if let Some(v) = literal {
        ops.push(Operand::LiteralInt32(v));
    }
    ops
}

#[test]
fn block_then_buffer_block_keeps_buffer_block() {
    let mut d = VarDecoration::default();
    apply_decoration(&mut d, &deco(Decoration::Block, None), 1);
    apply_decoration(&mut d, &deco(Decoration::BufferBlock, None), 1);
    assert_eq!(d.block_type, Some(VarDecorationBlockType::BufferBlock));
}

#[test]
fn set_then_binding_keeps_both() {
    let mut d = VarDecoration::default();
    apply_decoration(&mut d, &deco(Decoration::DescriptorSet, Some(3)), 1);
    apply_decoration(&mut d, &deco(Decoration::Binding, Some(7)), 1);
    assert_eq!(d.set_bind, Some(VarDecorationSetBind { binding: 7, set: 3 }));

    let mut e = VarDecoration::default();
    e.set_binding(7);
    assert_eq!(e.set_bind, Some(VarDecorationSetBind { binding: 7, set: 0 }));
    e.set_descriptor_set(3);
    assert_eq!(e.set_bind, Some(VarDecorationSetBind { binding: 7, set: 3 }));
}

#[test]
fn matrix_stride_keeps_majorness() {
    let mut d = VarDecoration::default();
    d.set_matrix_stride(16);
    assert_eq!(d.matrix, None);
    apply_decoration(&mut d, &deco(Decoration::RowMajor, None), 1);
    apply_decoration(&mut d, &deco(Decoration::MatrixStride, Some(16)), 1);
    assert_eq!(d.matrix, Some(VarDecorationMatrix::Row { value: 16 }));
    d.set_matrix_column();
    assert_eq!(d.matrix, Some(VarDecorationMatrix::Column { value: 0 }));
    d.set_matrix_stride(32);
    assert_eq!(d.matrix, Some(VarDecorationMatrix::Column { value: 32 }));
}

#[test]
fn visibility_last_write_wins() {
    let mut d = VarDecoration::default();
    apply_decoration(&mut d, &deco(Decoration::NonWritable, None), 1);
    assert_eq!(d.visibility, Some(VarDecorationVisibility::ReadOnly));
    apply_decoration(&mut d, &deco(Decoration::NonReadable, None), 1);
    assert_eq!(d.visibility, Some(VarDecorationVisibility::WriteOnly));
}

#[test]
fn scalar_decorations_take_the_following_literal() {
    let mut d = VarDecoration::default();
    apply_decoration(&mut d, &deco(Decoration::SpecId, Some(4)), 1);
    apply_decoration(&mut d, &deco(Decoration::Location, Some(5)), 1);
    apply_decoration(&mut d, &deco(Decoration::ArrayStride, Some(16)), 1);
    apply_decoration(&mut d, &deco(Decoration::Offset, Some(8)), 1);
    apply_decoration(&mut d, &deco(Decoration::RelaxedPrecision, None), 1);
    assert_eq!(d.spec_id, Some(4));
    assert_eq!(d.location, Some(5));
    assert_eq!(d.array_stride, Some(16));
    assert_eq!(d.offset, Some(8));
    assert_eq!(d.relaxed_precision, Some(true));
}

#[test]
fn missing_literal_or_other_kind_changes_nothing() {
    let mut d = VarDecoration::default();
    apply_decoration(&mut d, &deco(Decoration::Location, None), 1);
    apply_decoration(&mut d, &deco(Decoration::Flat, None), 1);
    apply_decoration(&mut d, &vec![Operand::IdRef(1)], 1);
    assert_eq!(d, VarDecoration::default());
}

#[test]
fn empty_name_never_clears() {
    let mut d = VarDecoration::default();
    d.set_name(&"pos".to_string());
    d.set_name(&String::new());
    assert_eq!(d.name, Some("pos".to_string()));
}

#[test]
fn member_list_grows_with_defaults() {
    let mut s = StructuralDecoration::default();
    assert_eq!(s.members, None);
    s.set_member_name(2, &"uv".to_string());
    let members = s.members.as_ref().expect("members created");
    assert_eq!(members.len(), 3);
    assert_eq!(members[0], VarDecoration::default());
    assert_eq!(members[2].name, Some("uv".to_string()));

    s.create_or_get_member(0).set_offset(4);
    assert_eq!(s.members.as_ref().map(|m| m.len()), Some(3));
    assert_eq!(s.members.as_ref().map(|m| m[0].offset), Some(Some(4)));

    let ops = vec![
        Operand::IdRef(1),
        Operand::LiteralInt32(4),
        Operand::Decoration(Decoration::Offset),
        Operand::LiteralInt32(12),
    ];
    struct_decore_apply_member_decoration(&mut s, 4, &ops);
    let members = s.members.as_ref().expect("members kept");
    assert_eq!(members.len(), 5);
    assert_eq!(members[4].offset, Some(12));
    assert_eq!(members[2].name, Some("uv".to_string()));
    assert_eq!(s.decoration, VarDecoration::default());
}

#[test]
fn structural_name_sets_top_level_only() {
    let mut s = StructuralDecoration::default();
    s.set_name(&"Block".to_string());
    assert_eq!(s.decoration.name, Some("Block".to_string()));
    assert_eq!(s.members, None);
}

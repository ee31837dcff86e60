//! Merging one decoration instruction into the decoration record of its target.
use crate::ospv::{
    StructuralDecoration, VarDecoration, VarDecorationBlockType, VarDecorationMatrix,
    VarDecorationVisibility,
};
use crate::spirv::Operand;
use crate::var_decoration::{grown_members, with_binding, with_set, with_stride};
use rspirv::spirv::Decoration;
use vstd::prelude::*;

verus! {

/// The 32-bit literal right after operand `at`, when there is one.
pub open spec fn literal_after(ops: Seq<Operand>, at: int) -> Option<u32> {
    if 0 <= at + 1 < ops.len() {
        match ops[at + 1] {
            Operand::LiteralInt32(v) => Some(v),
            _ => None,
        }
    } else {
        None
    }
}

/// `d` after the decoration named by operand `at` (with its literal after it).
/// A decoration kind outside the modeled set, a missing literal, or an
/// operand that names no decoration leaves `d` as it is.
pub open spec fn decorated(d: VarDecoration, ops: Seq<Operand>, at: int) -> VarDecoration {
    if 0 <= at < ops.len() && ops[at] is Decoration {
        let lit = literal_after(ops, at);
        match ops[at]->Decoration_0 {
            Decoration::RelaxedPrecision => VarDecoration { relaxed_precision: Some(true), ..d },
            Decoration::SpecId => match lit {
                Some(v) => VarDecoration { spec_id: Some(v), ..d },
                None => d,
            },
            Decoration::Location => match lit {
                Some(v) => VarDecoration { location: Some(v), ..d },
                None => d,
            },
            Decoration::Block => VarDecoration {
                block_type: Some(VarDecorationBlockType::Block),
                ..d
            },
            Decoration::BufferBlock => VarDecoration {
                block_type: Some(VarDecorationBlockType::BufferBlock),
                ..d
            },
            Decoration::RowMajor => VarDecoration {
                matrix: Some(VarDecorationMatrix::Row { value: 0 }),
                ..d
            },
            Decoration::ColMajor => VarDecoration {
                matrix: Some(VarDecorationMatrix::Column { value: 0 }),
                ..d
            },
            Decoration::MatrixStride => match (lit, d.matrix) {
                (Some(v), Some(m)) => VarDecoration { matrix: Some(with_stride(m, v)), ..d },
                _ => d,
            },
            Decoration::ArrayStride => match lit {
                Some(v) => VarDecoration { array_stride: Some(v), ..d },
                None => d,
            },
            Decoration::NonWritable => VarDecoration {
                visibility: Some(VarDecorationVisibility::ReadOnly),
                ..d
            },
            Decoration::NonReadable => VarDecoration {
                visibility: Some(VarDecorationVisibility::WriteOnly),
                ..d
            },
            Decoration::Binding => match lit {
                Some(v) => VarDecoration { set_bind: Some(with_binding(d.set_bind, v)), ..d },
                None => d,
            },
            Decoration::DescriptorSet => match lit {
                Some(v) => VarDecoration { set_bind: Some(with_set(d.set_bind, v)), ..d },
                None => d,
            },
            Decoration::Offset => match lit {
                Some(v) => VarDecoration { offset: Some(v), ..d },
                None => d,
            },
            _ => d,
        }
    } else {
        d
    }
}

/// `after` is `before` with member `idx` (created, with any members before it,
/// when missing) replaced by `member`.
pub open spec fn member_updated(
    before: StructuralDecoration,
    after: StructuralDecoration,
    idx: u32,
    member: VarDecoration,
) -> bool {
    &&& after.decoration == before.decoration
    &&& after.members is Some
    &&& after.members.unwrap()@ == grown_members(before.members, idx as nat).update(
        idx as int,
        member,
    )
}

fn literal_int32(ops: &Vec<Operand>, at: usize) -> (r: Option<u32>)
    requires
        at < ops.len(),
    ensures
        r == literal_after(ops@, at as int),
{
    if at + 1 < ops.len() {
        match &ops[at + 1] {
            Operand::LiteralInt32(v) => Some(*v),
            _ => None,
        }
    } else {
        None
    }
}

/// Applies the decoration named by operand `op_idx` to `var_decor`.
pub fn apply_decoration(var_decor: &mut VarDecoration, ops: &Vec<Operand>, op_idx: usize)
    ensures
        *final(var_decor) == decorated(*old(var_decor), ops@, op_idx as int),
{
    if op_idx >= ops.len() {
        return ;
    }
    let decor = match &ops[op_idx] {
        Operand::Decoration(d) => *d,
        _ => return ,
    };
    let lit = literal_int32(ops, op_idx);
    match decor {
        Decoration::RelaxedPrecision => var_decor.relax_precision(),
        Decoration::SpecId => {
            if let Some(v) = lit {
                var_decor.set_spec_id(v);
            }
        },
        Decoration::Location => {
            if let Some(v) = lit {
                var_decor.set_location(v);
            }
        },
        Decoration::Block => var_decor.set_block_type(VarDecorationBlockType::Block),
        Decoration::BufferBlock => var_decor.set_block_type(VarDecorationBlockType::BufferBlock),
        Decoration::RowMajor => var_decor.set_matrix_row(),
        Decoration::ColMajor => var_decor.set_matrix_column(),
        Decoration::MatrixStride => {
            if let Some(v) = lit {
                var_decor.set_matrix_stride(v);
            }
        },
        Decoration::ArrayStride => {
            if let Some(v) = lit {
                var_decor.set_array_stride(v);
            }
        },
        Decoration::NonWritable => var_decor.set_visibility(VarDecorationVisibility::ReadOnly),
        Decoration::NonReadable => var_decor.set_visibility(VarDecorationVisibility::WriteOnly),
        Decoration::Binding => {
            if let Some(v) = lit {
                var_decor.set_binding(v);
            }
        },
        Decoration::DescriptorSet => {
            if let Some(v) = lit {
                var_decor.set_descriptor_set(v);
            }
        },
        Decoration::Offset => {
            if let Some(v) = lit {
                var_decor.set_offset(v);
            }
        },
        _ => {},
    }
}

/// Applies an id-targeted decoration: its kind is operand 1.
pub fn struct_decore_apply_decoration(st_decore: &mut StructuralDecoration, ops: &Vec<Operand>)
    ensures
        *final(st_decore) == (StructuralDecoration {
            decoration: decorated(old(st_decore).decoration, ops@, 1),
            ..*old(st_decore)
        }),
{
    apply_decoration(&mut st_decore.decoration, ops, 1);
}

/// Applies a member-targeted decoration to member `idx`: its kind is operand 2.
pub fn struct_decore_apply_member_decoration(
    st_decore: &mut StructuralDecoration,
    idx: u32,
    ops: &Vec<Operand>,
)
    ensures
        member_updated(
            *old(st_decore),
            *final(st_decore),
            idx,
            decorated(grown_members(old(st_decore).members, idx as nat)[idx as int], ops@, 2),
        ),
{
    apply_decoration(st_decore.create_or_get_member(idx), ops, 2);
}

} // verus!

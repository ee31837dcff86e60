//! Properties of the conversion that relate several calls or hold of every output.
use crate::builder::{
    leads_to, ref_resolved, refs_of, registrable, resolution_wf, resolved_from, resolves,
    same_but_refs, BuilderModel,
};
use crate::consumer::{converted, ConsumerModel};
use crate::decoration::decorated;
use crate::ospv::{
    Ospv, Type, VarDecoration, VarDecorationBlockType, VarDecorationSetBind, INVALID_INDEX,
};
use crate::spirv::Operand;
use rspirv::spirv::Decoration;
use vstd::prelude::*;

verus! {

/// Resolving the same id twice returns the same output index both times.
pub proof fn lemma_resolve_memoized(
    a: BuilderModel,
    b: BuilderModel,
    c: BuilderModel,
    types: Map<u32, Type>,
    id: u32,
    first: u32,
    second: u32,
)
    requires
        resolves(a, b, types, id, first),
        resolves(b, c, types, id, second),
    ensures
        first == second,
{
}

/// A record that two parents refer to is placed once: it occupies a single
/// index of the output array, and both parents refer to that index. This
/// holds for a child that has a record other than `Unknown` and does not lead
/// back to either parent (the type graph is acyclic there).
pub proof fn lemma_shared_child_placed_once(
    m: BuilderModel,
    types: Map<u32, Type>,
    i1: int,
    k1: int,
    i2: int,
    k2: int,
)
    requires
        resolution_wf(m, types),
        0 <= i1 < m.types.len(),
        0 <= i2 < m.types.len(),
        0 <= k1 < refs_of(types[m.owners[i1]]).len(),
        0 <= k2 < refs_of(types[m.owners[i2]]).len(),
        refs_of(types[m.owners[i1]])[k1] == refs_of(types[m.owners[i2]])[k2],
        registrable(types, Set::empty(), refs_of(types[m.owners[i1]])[k1]),
        !leads_to(types, refs_of(types[m.owners[i1]])[k1], m.owners[i1]),
        !leads_to(types, refs_of(types[m.owners[i2]])[k2], m.owners[i2]),
    ensures
        refs_of(m.types[i1])[k1] != INVALID_INDEX,
        refs_of(m.types[i1])[k1] == refs_of(m.types[i2])[k2],
        forall|j: int|
            0 <= j < m.types.len() && m.owners[j] == refs_of(types[m.owners[i1]])[k1] ==> j
                == refs_of(m.types[i1])[k1],
{
    let r1 = refs_of(m.types[i1])[k1];
    let r2 = refs_of(m.types[i2])[k2];
    assert(ref_resolved(r1, refs_of(types[m.owners[i1]])[k1], m.owners, i1, types));
    assert(ref_resolved(r2, refs_of(types[m.owners[i2]])[k2], m.owners, i2, types));
    assert(m.owners[r1 as int] == m.owners[r2 as int]);
}

/// The placement order decides the rest: two consistent resolutions of one
/// table that placed the same ids in the same order have the same index
/// table and, entry by entry, records of the same kind and fields with the
/// same references. With `converted` fixing the order, the artifact's type
/// array is the one a separate run of `add_types` on the same table gives.
pub proof fn lemma_order_decides_array(m1: BuilderModel, m2: BuilderModel, types: Map<u32, Type>)
    requires
        resolution_wf(m1, types),
        resolution_wf(m2, types),
        m1.owners == m2.owners,
    ensures
        m1.index == m2.index,
        m1.types.len() == m2.types.len(),
        forall|i: int|
            0 <= i < m1.types.len() ==> same_but_refs(#[trigger] m1.types[i], m2.types[i])
                && refs_of(m1.types[i]) == refs_of(m2.types[i]),
{
    assert forall|id: u32| m1.index.contains_key(id) implies m2.index.contains_key(id)
        && m2.index[id] == m1.index[id] by {
        let j = m1.index[id] as int;
        assert(m2.index.contains_key(m2.owners[j]));
        assert(m2.owners[m2.index[id] as int] == id);
    }
    assert forall|id: u32| m2.index.contains_key(id) implies m1.index.contains_key(id) by {
        let j = m2.index[id] as int;
        assert(m1.index.contains_key(m1.owners[j]));
    }
    assert(m1.index =~= m2.index);
    assert forall|i: int| 0 <= i < m1.types.len() implies same_but_refs(
        #[trigger] m1.types[i],
        m2.types[i],
    ) && refs_of(m1.types[i]) == refs_of(m2.types[i]) by {
        let raw = types[m1.owners[i]];
        assert(resolved_from(m1.types[i], raw, m1.owners, i, types));
        assert(resolved_from(m2.types[i], raw, m2.owners, i, types));
        assert forall|k: int| 0 <= k < refs_of(raw).len() implies refs_of(m1.types[i])[k]
            == refs_of(m2.types[i])[k] by {
            let a = refs_of(m1.types[i])[k];
            let b = refs_of(m2.types[i])[k];
            assert(ref_resolved(a, refs_of(raw)[k], m1.owners, i, types));
            assert(ref_resolved(b, refs_of(raw)[k], m2.owners, i, types));
            if a != INVALID_INDEX && b != INVALID_INDEX {
                assert(m1.owners[a as int] == m1.owners[b as int]);
            } else if a != INVALID_INDEX {
                assert(m1.owners[a as int] == refs_of(raw)[k]);
            } else if b != INVALID_INDEX {
                assert(m2.owners[b as int] == refs_of(raw)[k]);
            }
        }
        assert(refs_of(m1.types[i]) =~= refs_of(m2.types[i]));
    }
}

/// Every reference of every record in the artifact is the sentinel or an
/// index below the length of the type array.
pub proof fn lemma_refs_in_range(c: ConsumerModel, file: Seq<char>, m: BuilderModel, r: Ospv)
    requires
        converted(c, file, m, r),
    ensures
        forall|i: int, k: int|
            0 <= i < r.types@.len() && 0 <= k < refs_of(r.types@[i]).len() ==> {
                ||| refs_of(r.types@[i])[k] == INVALID_INDEX
                ||| refs_of(r.types@[i])[k] < r.types@.len()
            },
{
    assert forall|i: int, k: int|
        0 <= i < r.types@.len() && 0 <= k < refs_of(r.types@[i]).len() implies {
        ||| refs_of(r.types@[i])[k] == INVALID_INDEX
        ||| refs_of(r.types@[i])[k] < r.types@.len()
    } by {
        if c.type_order.len() < INVALID_INDEX {
            assert(c.types.contains_key(m.owners[i]));
        }
    }
}

/// Decorations land only on declared types: every key of the artifact's
/// decoration map is the index of an id that was both decorated and
/// declared as a type, so a decorated id never declared as a type has no entry.
pub proof fn lemma_undeclared_not_decorated(
    c: ConsumerModel,
    file: Seq<char>,
    m: BuilderModel,
    r: Ospv,
    id: u32,
)
    requires
        converted(c, file, m, r),
        !c.types.contains_key(id),
    ensures
        !m.index.contains_key(id),
        forall|k: u32|
            r.decoration@.contains_key(k) ==> exists|x: u32|
                x != id && c.decorations.contains_key(x) && c.types.contains_key(x)
                    && m.index.contains_key(x) && m.index[x] == k,
{
    assert forall|k: u32| r.decoration@.contains_key(k) implies exists|x: u32|
        x != id && c.decorations.contains_key(x) && c.types.contains_key(x) && m.index.contains_key(
            x,
        ) && m.index[x] == k by {
        let x = choose|x: u32|
            c.decorations.contains_key(x) && m.index.contains_key(x) && m.index[x] == k;
        assert(m.index.contains_key(x));
    }
}

/// The block kinds exclude each other: of two block decorations on one id,
/// the later one stays.
pub proof fn lemma_block_kind_last_write_wins(
    d: VarDecoration,
    first: Seq<Operand>,
    second: Seq<Operand>,
    second_kind: VarDecorationBlockType,
)
    requires
        first.len() > 1,
        first[1] == Operand::Decoration(Decoration::Block) || first[1] == Operand::Decoration(
            Decoration::BufferBlock,
        ),
        second.len() > 1,
        second_kind == VarDecorationBlockType::Block ==> second[1] == Operand::Decoration(
            Decoration::Block,
        ),
        second_kind == VarDecorationBlockType::BufferBlock ==> second[1] == Operand::Decoration(
            Decoration::BufferBlock,
        ),
    ensures
        decorated(decorated(d, first, 1), second, 1).block_type == Some(second_kind),
        decorated(decorated(d, first, 1), second, 1) == (VarDecoration {
            block_type: Some(second_kind),
            ..d
        }),
{
}

/// A descriptor set and a binding set one after the other, in either order,
/// both stay.
pub proof fn lemma_set_and_binding_both_kept(
    d: VarDecoration,
    set_ops: Seq<Operand>,
    binding_ops: Seq<Operand>,
    set: u32,
    binding: u32,
)
    requires
        set_ops.len() > 2,
        set_ops[1] == Operand::Decoration(Decoration::DescriptorSet),
        set_ops[2] == Operand::LiteralInt32(set),
        binding_ops.len() > 2,
        binding_ops[1] == Operand::Decoration(Decoration::Binding),
        binding_ops[2] == Operand::LiteralInt32(binding),
    ensures
        decorated(decorated(d, set_ops, 1), binding_ops, 1).set_bind == Some(
            VarDecorationSetBind { binding, set },
        ),
        decorated(decorated(d, binding_ops, 1), set_ops, 1).set_bind == Some(
            VarDecorationSetBind { binding, set },
        ),
{
}

} // verus!

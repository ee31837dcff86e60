//! First pass over the instruction stream, and assembly of the artifact.
use crate::builder::{
    entry_resolved, index_of, placed_all, registrable, resolution_wf, BuilderModel, OspvBuilder, TypeTable,
};
use crate::decoration::{
    decorated, member_updated, struct_decore_apply_decoration,
    struct_decore_apply_member_decoration,
};
use crate::ospv::{
    ExecModel, ExecutionModelRef, Ospv, StructuralDecoration, Type, VarDecoration, INVALID_INDEX,
};
use crate::spirv::{get_id_ref, id_at, operand_id, Instruction, Operand};
use crate::types::{extract_type, extracted, id_of};
use crate::var_decoration::{empty_structural, grown_members};
use rspirv::spirv::{ExecutionModel, Op};
use std::collections::HashMap;
use vstd::prelude::*;

verus! {

pub open spec fn execution_model(model: ExecutionModel) -> ExecutionModelRef {
    match model {
        ExecutionModel::AnyHitNV => ExecutionModelRef::AnyHitNv,
        ExecutionModel::CallableNV => ExecutionModelRef::CallableNv,
        ExecutionModel::ClosestHitNV => ExecutionModelRef::ClosestHitNv,
        ExecutionModel::Fragment => ExecutionModelRef::Fragment,
        ExecutionModel::Geometry => ExecutionModelRef::Geometry,
        ExecutionModel::GLCompute => ExecutionModelRef::Glcompute,
        ExecutionModel::IntersectionNV => ExecutionModelRef::IntersectionNv,
        ExecutionModel::Kernel => ExecutionModelRef::Kernel,
        ExecutionModel::MeshNV => ExecutionModelRef::MeshNv,
        ExecutionModel::MissNV => ExecutionModelRef::MissNv,
        ExecutionModel::RayGenerationNV => ExecutionModelRef::RayGenerationNv,
        ExecutionModel::TaskNV => ExecutionModelRef::TaskNv,
        ExecutionModel::TessellationControl => ExecutionModelRef::TessellationControl,
        ExecutionModel::TessellationEvaluation => ExecutionModelRef::TessellationEvaluation,
        ExecutionModel::Vertex => ExecutionModelRef::Vertex,
    }
}

/// `e` is the entry point that an `EntryPoint` instruction with operands
/// `ops` declares: execution model (`Kernel` when missing), name (`main` when
/// missing) and the ids of the interface, operands 3 on.
pub open spec fn entry_of(ops: Seq<Operand>, e: ExecModel) -> bool {
    &&& e.model == if 0 < ops.len() && ops[0] is ExecutionModel {
        execution_model(ops[0]->ExecutionModel_0)
    } else {
        ExecutionModelRef::Kernel
    }
    &&& e.name@ == if 2 < ops.len() && ops[2] is LiteralString {
        ops[2]->LiteralString_0@
    } else {
        "main"@
    }
    &&& e.parameters@ == if 3 < ops.len() {
        ops.subrange(3, ops.len() as int).map_values(|o: Operand| id_of(o))
    } else {
        Seq::<u32>::empty()
    }
}

/// The opcodes of the name and decoration family.
pub open spec fn is_decoration_op(op: Op) -> bool {
    match op {
        Op::Name | Op::MemberName | Op::Decorate | Op::MemberDecorate => true,
        _ => false,
    }
}

/// `after` is `before` with the name or decoration of `inst` merged in.
pub open spec fn decoration_applied(
    before: StructuralDecoration,
    after: StructuralDecoration,
    inst: &Instruction,
) -> bool {
    let ops = inst.operands@;
    match inst.opcode {
        Op::Name => if 1 < ops.len() && ops[1] is LiteralString && ops[1]->LiteralString_0@.len()
            > 0 {
            after == (StructuralDecoration {
                decoration: VarDecoration { name: Some(ops[1]->LiteralString_0), ..before.decoration },
                ..before
            })
        } else {
            after == before
        },
        Op::MemberName => if 2 < ops.len() && ops[1] is LiteralInt32 && ops[2] is LiteralString {
            let idx = ops[1]->LiteralInt32_0;
            let name = ops[2]->LiteralString_0;
            let m = grown_members(before.members, idx as nat)[idx as int];
            member_updated(
                before,
                after,
                idx,
                if name@.len() > 0 {
                    VarDecoration { name: Some(name), ..m }
                } else {
                    m
                },
            )
        } else {
            after == before
        },
        Op::Decorate => after == (StructuralDecoration {
            decoration: decorated(before.decoration, ops, 1),
            ..before
        }),
        Op::MemberDecorate => if 1 < ops.len() && ops[1] is LiteralInt32 {
            let idx = ops[1]->LiteralInt32_0;
            member_updated(
                before,
                after,
                idx,
                decorated(grown_members(before.members, idx as nat)[idx as int], ops, 2),
            )
        } else {
            after == before
        },
        _ => after == before,
    }
}

/// What a consumer has collected: type records by id (and the order of
/// their ids), decoration records by id (and the order of their ids), and
/// the entry points in declaration order.
pub struct ConsumerModel {
    pub types: Map<u32, Type>,
    pub type_order: Seq<u32>,
    pub decorations: Map<u32, StructuralDecoration>,
    pub decoration_order: Seq<u32>,
    pub entries: Seq<ExecModel>,
}

/// `b` is `a` after consuming `inst`: a result-producing instruction stores
/// its type record under its result id; an entry point is appended; a
/// name or decoration is merged into the record of its target id (created
/// empty on first touch); anything else, and a target id of 0, changes nothing.
pub open spec fn consumed(a: ConsumerModel, b: ConsumerModel, inst: &Instruction) -> bool {
    let ops = inst.operands@;
    match inst.result_id {
        Some(id) => {
            &&& b.types.contains_key(id)
            &&& extracted(inst, &b.types[id])
            &&& b.types == a.types.insert(id, b.types[id])
            &&& b.type_order == if a.types.contains_key(id) {
                a.type_order
            } else {
                a.type_order.push(id)
            }
            &&& b.decorations == a.decorations
            &&& b.decoration_order == a.decoration_order
            &&& b.entries == a.entries
        },
        None => if inst.opcode == Op::EntryPoint {
            &&& b.entries.len() == a.entries.len() + 1
            &&& b.entries.subrange(0, a.entries.len() as int) == a.entries
            &&& entry_of(ops, b.entries[a.entries.len() as int])
            &&& b.types == a.types
            &&& b.type_order == a.type_order
            &&& b.decorations == a.decorations
            &&& b.decoration_order == a.decoration_order
        } else if is_decoration_op(inst.opcode) && id_at(ops, 0) != 0 {
            let target = id_at(ops, 0);
            let before = if a.decorations.contains_key(target) {
                a.decorations[target]
            } else {
                empty_structural()
            };
            &&& b.decorations.contains_key(target)
            &&& decoration_applied(before, b.decorations[target], inst)
            &&& b.decorations == a.decorations.insert(target, b.decorations[target])
            &&& b.decoration_order == if a.decorations.contains_key(target) {
                a.decoration_order
            } else {
                a.decoration_order.push(target)
            }
            &&& b.types == a.types
            &&& b.type_order == a.type_order
            &&& b.entries == a.entries
        } else {
            b == a
        },
    }
}

/// `r` is the artifact for the collected `c`, named `file`, with `m` the
/// resolution behind it: every id whose record is not `Unknown` is placed
/// in the depth-first order of `placed_all` over the ids in the order they
/// were first stored (unless there are too many ids for the index space,
/// when nothing is),
/// the entry points are resolved against it, and each decoration record
/// stands under the index of its id when that id was placed.
pub open spec fn converted(c: ConsumerModel, file: Seq<char>, m: BuilderModel, r: Ospv) -> bool {
    &&& c.type_order.len() < INVALID_INDEX ==> {
        &&& resolution_wf(m, c.types)
        &&& forall|id: u32| #[trigger]
            m.index.contains_key(id) <==> registrable(c.types, Set::empty(), id)
        &&& m.owners == placed_all(c.types, Seq::empty(), c.type_order, 0)
    }
    &&& c.type_order.len() >= INVALID_INDEX ==> m.types.len() == 0 && m.index
        == Map::<u32, u32>::empty()
    &&& r.types@ == m.types
    &&& r.source_file@ == file
    &&& r.entries@.len() == c.entries.len()
    &&& forall|i: int|
        0 <= i < c.entries.len() ==> entry_resolved(#[trigger] r.entries@[i], c.entries[i], m)
    &&& forall|id: u32|
        c.decorations.contains_key(id) && #[trigger] m.index.contains_key(id) ==> {
            &&& r.decoration@.contains_key(m.index[id])
            &&& r.decoration@[m.index[id]] == c.decorations[id]
        }
    &&& forall|k: u32| #[trigger]
        r.decoration@.contains_key(k) ==> exists|id: u32|
            c.decorations.contains_key(id) && m.index.contains_key(id) && m.index[id] == k
}

fn map_execution_model(model: ExecutionModel) -> (r: ExecutionModelRef)
    ensures
        r == execution_model(model),
{
    match model {
        ExecutionModel::AnyHitNV => ExecutionModelRef::AnyHitNv,
        ExecutionModel::CallableNV => ExecutionModelRef::CallableNv,
        ExecutionModel::ClosestHitNV => ExecutionModelRef::ClosestHitNv,
        ExecutionModel::Fragment => ExecutionModelRef::Fragment,
        ExecutionModel::Geometry => ExecutionModelRef::Geometry,
        ExecutionModel::GLCompute => ExecutionModelRef::Glcompute,
        ExecutionModel::IntersectionNV => ExecutionModelRef::IntersectionNv,
        ExecutionModel::Kernel => ExecutionModelRef::Kernel,
        ExecutionModel::MeshNV => ExecutionModelRef::MeshNv,
        ExecutionModel::MissNV => ExecutionModelRef::MissNv,
        ExecutionModel::RayGenerationNV => ExecutionModelRef::RayGenerationNv,
        ExecutionModel::TaskNV => ExecutionModelRef::TaskNv,
        ExecutionModel::TessellationControl => ExecutionModelRef::TessellationControl,
        ExecutionModel::TessellationEvaluation => ExecutionModelRef::TessellationEvaluation,
        ExecutionModel::Vertex => ExecutionModelRef::Vertex,
    }
}

/// The entry point that an `EntryPoint` instruction with operands `ops` declares.
pub fn get_exec_model(ops: &Vec<Operand>) -> (r: ExecModel)
    ensures
        entry_of(ops@, r),
{
    let model = if 0 < ops.len() {
        match &ops[0] {
            Operand::ExecutionModel(m) => map_execution_model(*m),
            _ => ExecutionModelRef::Kernel,
        }
    } else {
        ExecutionModelRef::Kernel
    };
    let name = if 2 < ops.len() {
        match &ops[2] {
            Operand::LiteralString(n) => n.clone(),
            _ => "main".to_owned(),
        }
    } else {
        "main".to_owned()
    };
    let mut parameters: Vec<u32> = Vec::new();
    if 3 < ops.len() {
        let ghost rest = ops@.subrange(3, ops@.len() as int);
        let mut i: usize = 3;
        while i < ops.len()
            invariant
                3 <= i <= ops@.len(),
                rest == ops@.subrange(3, ops@.len() as int),
                parameters@ == rest.subrange(0, i - 3).map_values(|o: Operand| id_of(o)),
            decreases ops.len() - i,
        {
            parameters.push(get_id_ref(&ops[i]));
            proof {
                assert(rest.subrange(0, i - 2) == rest.subrange(0, i - 3).push(rest[i - 3]));
            }
            i = i + 1;
        }
        proof {
            assert(rest.subrange(0, rest.len() as int) == rest);
        }
    }
    ExecModel { model, name, parameters }
}

/// Collects the type records, decorations and entry points of one module.
pub struct SpvConsumer {
    type_map: TypeTable,
    decoration_map: HashMap<u32, StructuralDecoration>,
    decorated: Vec<u32>,
    exec_models: Vec<ExecModel>,
}

impl View for SpvConsumer {
    type V = ConsumerModel;

    closed spec fn view(&self) -> ConsumerModel {
        ConsumerModel {
            types: self.type_map@,
            type_order: self.type_map.order(),
            decorations: self.decoration_map@,
            decoration_order: self.decorated@,
            entries: self.exec_models@,
        }
    }
}

impl SpvConsumer {
    /// Each stored id is listed once in its order.
    pub open spec fn wf(&self) -> bool {
        &&& self@.type_order.no_duplicates()
        &&& forall|id: u32| self@.types.contains_key(id) <==> self@.type_order.contains(id)
        &&& self@.decoration_order.no_duplicates()
        &&& forall|id: u32|
            self@.decorations.contains_key(id) <==> self@.decoration_order.contains(id)
    }

    pub fn new() -> (r: SpvConsumer)
        ensures
            r.wf(),
            r@.types == Map::<u32, Type>::empty(),
            r@.type_order == Seq::<u32>::empty(),
            r@.decorations == Map::<u32, StructuralDecoration>::empty(),
            r@.decoration_order == Seq::<u32>::empty(),
            r@.entries == Seq::<ExecModel>::empty(),
    {
        SpvConsumer {
            type_map: TypeTable::new(),
            decoration_map: HashMap::new(),
            decorated: Vec::new(),
            exec_models: Vec::new(),
        }
    }

    /// Takes the decoration record of `id` out of the map, an empty one on
    /// first touch, listing `id` in the decoration order then.
    fn create_or_get_decoration(&mut self, id: u32) -> (r: StructuralDecoration)
        requires
            old(self).wf(),
        ensures
            r == if old(self)@.decorations.contains_key(id) {
                old(self)@.decorations[id]
            } else {
                empty_structural()
            },
            final(self)@ == (ConsumerModel {
                decorations: old(self)@.decorations.remove(id),
                decoration_order: if old(self)@.decorations.contains_key(id) {
                    old(self)@.decoration_order
                } else {
                    old(self)@.decoration_order.push(id)
                },
                ..old(self)@
            }),
    {
        match self.decoration_map.remove(&id) {
            Some(d) => d,
            None => {
                self.decorated.push(id);
                StructuralDecoration::default()
            },
        }
    }

    /// Stores `d` back under `id`, listed in the decoration order.
    fn store_decoration(&mut self, id: u32, d: StructuralDecoration)
        requires
            old(self)@.decoration_order.no_duplicates(),
            old(self)@.decoration_order.contains(id),
            forall|x: u32|
                x != id ==> (old(self)@.decorations.contains_key(x)
                    <==> old(self)@.decoration_order.contains(x)),
        ensures
            final(self)@ == (ConsumerModel {
                decorations: old(self)@.decorations.insert(id, d),
                ..old(self)@
            }),
            forall|x: u32|
                final(self)@.decorations.contains_key(x) <==> final(self)@.decoration_order.contains(
                    x,
                ),
    {
        self.decoration_map.insert(id, d);
    }

    /// Merges a name or decoration instruction into the record of its target.
    fn consume_decoration(&mut self, inst: &Instruction)
        requires
            old(self).wf(),
            inst.result_id is None,
            inst.opcode != Op::EntryPoint,
        ensures
            final(self).wf(),
            consumed(old(self)@, final(self)@, inst),
    {
        let ops = &inst.operands;
        let id = operand_id(ops, 0);
        let family = match inst.opcode {
            Op::Name | Op::MemberName | Op::Decorate | Op::MemberDecorate => true,
            _ => false,
        };
        if id == 0 || !family {
            return ;
        }
        let mut struct_deco = self.create_or_get_decoration(id);
        proof {
            let o = old(self)@.decoration_order;
            if !old(self)@.decorations.contains_key(id) {
                assert(!o.contains(id));
                assert(self@.decoration_order[o.len() as int] == id);
                assert forall|x: u32| x != id implies (self@.decorations.contains_key(x)
                    <==> self@.decoration_order.contains(x)) by {
                    if o.contains(x) {
                        let j = choose|j: int| 0 <= j < o.len() && o[j] == x;
                        assert(self@.decoration_order[j] == x);
                    }
                    if self@.decoration_order.contains(x) {
                        let j = choose|j: int|
                            0 <= j < self@.decoration_order.len() && self@.decoration_order[j]
                                == x;
                        assert(o[j] == x);
                    }
                }
                assert forall|i: int, j: int|
                    0 <= i < self@.decoration_order.len() && 0 <= j < self@.decoration_order.len()
                        && i != j implies self@.decoration_order[i] != self@.decoration_order[j] by {
                    if i < o.len() && j < o.len() {
                    } else if i < o.len() {
                        assert(o.contains(o[i]));
                    } else if j < o.len() {
                        assert(o.contains(o[j]));
                    }
                }
            }
        }
        match inst.opcode {
            Op::Name => {
                if 1 < ops.len() {
                    if let Operand::LiteralString(name) = &ops[1] {
                        struct_deco.set_name(name);
                    }
                }
            },
            Op::MemberName => {
                if 2 < ops.len() {
                    if let Operand::LiteralInt32(idx) = &ops[1] {
                        if let Operand::LiteralString(name) = &ops[2] {
                            struct_deco.set_member_name(*idx, name);
                        }
                    }
                }
            },
            Op::Decorate => {
                struct_decore_apply_decoration(&mut struct_deco, ops);
            },
            Op::MemberDecorate => {
                if 1 < ops.len() {
                    if let Operand::LiteralInt32(idx) = &ops[1] {
                        struct_decore_apply_member_decoration(&mut struct_deco, *idx, ops);
                    }
                }
            },
            _ => {},
        }
        self.store_decoration(id, struct_deco);
        proof {
            assert(self@.decorations =~= old(self)@.decorations.insert(id, self@.decorations[id]));
        }
    }

    /// Resolves what was collected into the artifact named `file`.
    pub fn to_ospv(self, file: &str) -> (r: Ospv)
        requires
            self.wf(),
        ensures
            exists|m: BuilderModel| converted(self@, file@, m, r),
    {
        let ghost c = self@;
        let SpvConsumer { type_map, decoration_map, decorated, exec_models } = self;
        let fresh = OspvBuilder::new(file);
        let resolved = fresh.add_types(&type_map);
        let ghost placed = resolved@;
        let mut builder = resolved.add_entries(&exec_models);
        let ghost m = builder@;
        proof {
            assert forall|i: int| 0 <= i < c.entries.len() implies entry_resolved(
                #[trigger] m.entries[i],
                c.entries[i],
                m,
            ) by {
                assert(entry_resolved(m.entries[i], c.entries[i], placed));
                assert(m.entries[i].parameters@ =~= c.entries[i].parameters@.map_values(
                    |p: u32| index_of(m, p),
                ));
            }
            assert forall|a: u32, b: u32|
                m.index.contains_key(a) && m.index.contains_key(b) && m.index[a] == m.index[b]
                    implies a == b by {
                if c.type_order.len() < INVALID_INDEX {
                    assert(m.owners[m.index[a] as int] == a);
                    assert(m.owners[m.index[b] as int] == b);
                }
            }
        }
        let mut decos = decoration_map;
        let mut i: usize = 0;
        while i < decorated.len()
            invariant
                i <= decorated@.len(),
                decorated@ == c.decoration_order,
                c.decoration_order.no_duplicates(),
                forall|id: u32| c.decorations.contains_key(id) <==> c.decoration_order.contains(id),
                builder@ == (BuilderModel { decoration: builder@.decoration, ..m }),
                forall|a: u32, b: u32|
                    m.index.contains_key(a) && m.index.contains_key(b) && m.index[a] == m.index[b]
                        ==> a == b,
                forall|id: u32|
                    decos@.contains_key(id) <==> (c.decorations.contains_key(id)
                        && !c.decoration_order.subrange(0, i as int).contains(id)),
                forall|id: u32| #[trigger]
                    decos@.contains_key(id) ==> decos@[id] == c.decorations[id],
                forall|id: u32|
                    c.decoration_order.subrange(0, i as int).contains(id) && #[trigger]
                        m.index.contains_key(id) ==> {
                        &&& builder@.decoration.contains_key(m.index[id])
                        &&& builder@.decoration[m.index[id]] == c.decorations[id]
                    },
                forall|k: u32| #[trigger]
                    builder@.decoration.contains_key(k) ==> exists|id: u32|
                        c.decoration_order.subrange(0, i as int).contains(id)
                            && m.index.contains_key(id) && m.index[id] == k,
            decreases decorated.len() - i,
        {
            let id = decorated[i];
            let ghost before = builder@;
            let ghost done = c.decoration_order.subrange(0, i as int);
            let ghost next = c.decoration_order.subrange(0, i + 1);
            proof {
                assert(next == done.push(id));
                assert(c.decoration_order.contains(id));
                assert(!done.contains(id)) by {
                    if done.contains(id) {
                        let j = choose|j: int| 0 <= j < done.len() && done[j] == id;
                        assert(c.decoration_order[j] == c.decoration_order[i as int]);
                    }
                }
                assert forall|x: u32| next.contains(x) <==> (done.contains(x) || x == id) by {
                    if done.contains(x) {
                        let j = choose|j: int| 0 <= j < done.len() && done[j] == x;
                        assert(next[j] == x);
                    }
                    if next.contains(x) && x != id {
                        let j = choose|j: int| 0 <= j < next.len() && next[j] == x;
                        assert(done[j] == x);
                    }
                    if x == id {
                        assert(next[i as int] == id);
                    }
                }
            }
            match decos.remove(&id) {
                Some(d) => builder.set_decoration(id, d),
                None => {},
            }
            proof {
                assert forall|k: u32| #[trigger]
                    builder@.decoration.contains_key(k) implies exists|x: u32|
                        next.contains(x) && m.index.contains_key(x) && m.index[x] == k by {
                    if before.decoration.contains_key(k) {
                        let x = choose|x: u32|
                            done.contains(x) && m.index.contains_key(x) && m.index[x] == k;
                        assert(next.contains(x));
                    } else {
                        assert(next.contains(id) && m.index.contains_key(id) && m.index[id] == k);
                    }
                }
            }
            i = i + 1;
        }
        proof {
            assert(c.decoration_order.subrange(0, c.decoration_order.len() as int)
                =~= c.decoration_order);
        }
        let r = builder.get_ospv();
        proof {
            assert(converted(c, file@, m, r));
        }
        r
    }

    /// Consumes one instruction of the stream. It never fails: instructions
    /// outside the modeled kinds are skipped.
    pub fn consume_instruction(&mut self, inst: Instruction)
        requires
            old(self).wf(),
        ensures
            final(self).wf(),
            consumed(old(self)@, final(self)@, &inst),
    {
        if let Some(ref_id) = inst.result_id {
            let t = extract_type(&inst);
            self.type_map.insert(ref_id, t);
            return ;
        }
        if let Op::EntryPoint = inst.opcode {
            let e = get_exec_model(&inst.operands);
            self.exec_models.push(e);
            proof {
                assert(self@.entries.subrange(0, old(self)@.entries.len() as int)
                    =~= old(self)@.entries);
            }
            return ;
        }
        if inst.operands.len() == 0 {
            return ;
        }
        self.consume_decoration(&inst);
    }
}

} // verus!

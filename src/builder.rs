//! Second pass: resolves the id-keyed type records into a deduplicated,
//! index-addressed array, then places the entry points and the decorations
//! in the same index space.
use crate::ospv::{ExecModel, Ospv, StructuralDecoration, Type, INVALID_INDEX};
use std::collections::{HashMap, HashSet};
use vstd::prelude::*;
use vstd::set_lib::lemma_len_subset;

verus! {

/// Type records keyed by id, with the ids in the order they were first stored.
pub struct TypeTable {
    map: HashMap<u32, Type>,
    ids: Vec<u32>,
}

impl View for TypeTable {
    type V = Map<u32, Type>;

    closed spec fn view(&self) -> Map<u32, Type> {
        self.map@
    }
}

impl TypeTable {
    /// The stored ids, in the order of their first store.
    pub closed spec fn order(&self) -> Seq<u32> {
        self.ids@
    }

    /// Each stored id is listed exactly once.
    pub open spec fn wf(&self) -> bool {
        &&& self.order().no_duplicates()
        &&& forall|id: u32| self@.contains_key(id) <==> self.order().contains(id)
    }

    pub fn new() -> (r: Self)
        ensures
            r.wf(),
            r@ == Map::<u32, Type>::empty(),
            r.order() == Seq::<u32>::empty(),
    {
        TypeTable { map: HashMap::new(), ids: Vec::new() }
    }

    /// Stores `t` under `id`, replacing an earlier record of that id; the id
    /// keeps the place of its first store.
    pub fn insert(&mut self, id: u32, t: Type)
        requires
            old(self).wf(),
        ensures
            final(self).wf(),
            final(self)@ == old(self)@.insert(id, t),
            final(self).order() == if old(self)@.contains_key(id) {
                old(self).order()
            } else {
                old(self).order().push(id)
            },
    {
        let ghost was_stored = self.map@.contains_key(id);
        if !self.map.contains_key(&id) {
            self.ids.push(id);
        }
        self.map.insert(id, t);
        proof {
            if !was_stored {
                let prev = old(self).ids@;
                assert(self.ids@ == prev.push(id));
                assert(!prev.contains(id));
                assert forall|x: u32| self@.contains_key(x) <==> self.ids@.contains(x) by {
                    if x == id {
                        assert(self.ids@[prev.len() as int] == id);
                    } else {
                        if prev.contains(x) {
                            let j = choose|j: int| 0 <= j < prev.len() && prev[j] == x;
                            assert(self.ids@[j] == x);
                        }
                        if self.ids@.contains(x) {
                            let j = choose|j: int| 0 <= j < self.ids@.len() && self.ids@[j] == x;
                            assert(prev[j] == x);
                        }
                    }
                }
                assert forall|i: int, j: int|
                    0 <= i < self.ids@.len() && 0 <= j < self.ids@.len() && i != j implies self.ids@[i]
                    != self.ids@[j] by {
                    if i < prev.len() && j < prev.len() {
                        assert(prev[i] != prev[j]);
                    } else if i < prev.len() {
                        assert(prev.contains(prev[i]));
                    } else if j < prev.len() {
                        assert(prev.contains(prev[j]));
                    }
                }
            }
        }
    }

    pub fn get(&self, id: u32) -> (r: Option<&Type>)
        ensures
            match r {
                Some(t) => self@.contains_key(id) && *t == self@[id],
                None => !self@.contains_key(id),
            },
    {
        self.map.get(&id)
    }

    pub fn len(&self) -> (r: usize)
        ensures
            r == self.order().len(),
    {
        self.ids.len()
    }

    /// The id stored `i`-th.
    pub fn id_at(&self, i: usize) -> (r: u32)
        requires
            i < self.order().len(),
        ensures
            r == self.order()[i as int],
    {
        self.ids[i]
    }
}

/// The references of a type record, in field order.
pub open spec fn refs_of(t: Type) -> Seq<u32> {
    match t {
        Type::Array { ref_, size } => seq![ref_, size],
        Type::Image { ref_, .. } => seq![ref_],
        Type::Matrix { ref_, .. } => seq![ref_],
        Type::Pointer { ref_, .. } => seq![ref_],
        Type::RuntimeArray { ref_ } => seq![ref_],
        Type::SampledImage { ref_ } => seq![ref_],
        Type::SpecConstant { ref_, .. } => seq![ref_],
        Type::Struct { refs } => refs@,
        Type::Variable { ref_ } => seq![ref_],
        Type::Vector { ref_, .. } => seq![ref_],
        _ => seq![],
    }
}

/// `a` and `b` are records of one kind that agree on every field but their references.
pub open spec fn same_but_refs(a: Type, b: Type) -> bool {
    match (a, b) {
        (Type::AccelerationStructure, Type::AccelerationStructure) => true,
        (Type::Array { .. }, Type::Array { .. }) => true,
        (Type::Bool, Type::Bool) => true,
        (Type::Float { size: x }, Type::Float { size: y }) => x == y,
        (Type::Image { image: x, .. }, Type::Image { image: y, .. }) => x == y,
        (Type::Int { signed: s, size: x }, Type::Int { signed: t, size: y }) => s == t && x == y,
        (Type::Matrix { size: x, .. }, Type::Matrix { size: y, .. }) => x == y,
        (Type::Pointer { class: x, .. }, Type::Pointer { class: y, .. }) => x == y,
        (Type::RuntimeArray { .. }, Type::RuntimeArray { .. }) => true,
        (Type::SampledImage { .. }, Type::SampledImage { .. }) => true,
        (Type::Sampler, Type::Sampler) => true,
        (Type::SpecConstant { value: x, .. }, Type::SpecConstant { value: y, .. }) => x == y,
        (Type::SpecConstantBool { value: x }, Type::SpecConstantBool { value: y }) => x == y,
        (Type::Struct { .. }, Type::Struct { .. }) => true,
        (Type::Unknown, Type::Unknown) => true,
        (Type::Variable { .. }, Type::Variable { .. }) => true,
        (Type::Vector { size: x, .. }, Type::Vector { size: y, .. }) => x == y,
        (Type::Void, Type::Void) => true,
        _ => false,
    }
}

/// Each id of `path` after the first is referred to by the record of the one before it.
pub open spec fn follows_refs(types: Map<u32, Type>, path: Seq<u32>) -> bool {
    &&& path.len() > 0
    &&& forall|j: int|
        0 <= j < path.len() - 1 ==> types.contains_key(#[trigger] path[j]) && refs_of(
            types[path[j]],
        ).contains(path[j + 1])
}

/// Following references from `a` can lead to `b`.
pub open spec fn leads_to(types: Map<u32, Type>, a: u32, b: u32) -> bool {
    exists|path: Seq<u32>| follows_refs(types, path) && path[0] == a && path.last() == b
}

/// Reference `r` of output entry `i` stands for raw id `raw`: it is the index
/// of `raw` when `raw` was placed before entry `i`; otherwise it is the
/// sentinel, and `raw` either has no record that can be placed or leads
/// back to the id of entry `i` (a cycle).
pub open spec fn ref_resolved(
    r: u32,
    raw: u32,
    owners: Seq<u32>,
    i: int,
    types: Map<u32, Type>,
) -> bool {
    if r == INVALID_INDEX {
        &&& forall|j: int| 0 <= j < i ==> owners[j] != raw
        &&& registrable(types, Set::empty(), raw) ==> leads_to(types, raw, owners[i])
    } else {
        r < i && owners[r as int] == raw
    }
}

/// Output entry `i`, `out`, is the raw record `raw` with each reference resolved.
pub open spec fn resolved_from(
    out: Type,
    raw: Type,
    owners: Seq<u32>,
    i: int,
    types: Map<u32, Type>,
) -> bool {
    &&& same_but_refs(out, raw)
    &&& refs_of(out).len() == refs_of(raw).len()
    &&& forall|k: int|
        0 <= k < refs_of(raw).len() ==> ref_resolved(
            #[trigger] refs_of(out)[k],
            refs_of(raw)[k],
            owners,
            i,
            types,
        )
}

/// What a builder holds: the output array, the id placed at each index, the
/// index of each placed id, the entry points, the decorations by index and
/// the source identifier.
pub struct BuilderModel {
    pub types: Seq<Type>,
    pub owners: Seq<u32>,
    pub index: Map<u32, u32>,
    pub entries: Seq<ExecModel>,
    pub decoration: Map<u32, StructuralDecoration>,
    pub source_file: Seq<char>,
}

/// The output index of `id`, or the sentinel when `id` has none.
pub open spec fn index_of(m: BuilderModel, id: u32) -> u32 {
    if m.index.contains_key(id) {
        m.index[id]
    } else {
        INVALID_INDEX
    }
}

/// The output array and the index table agree, and every entry is the raw
/// record of its id with its references resolved.
pub open spec fn resolution_wf(m: BuilderModel, types: Map<u32, Type>) -> bool {
    &&& m.owners.len() == m.types.len()
    &&& m.types.len() < INVALID_INDEX
    &&& m.owners.no_duplicates()
    &&& forall|id: u32| #[trigger]
        m.index.contains_key(id) ==> m.index[id] < m.types.len() && m.owners[m.index[id] as int]
            == id
    &&& forall|i: int| 0 <= i < m.owners.len() ==> #[trigger] m.index.contains_key(m.owners[i])
    &&& forall|i: int|
        0 <= i < m.owners.len() ==> {
            &&& types.contains_key(#[trigger] m.owners[i])
            &&& !(types[m.owners[i]] is Unknown)
            &&& resolved_from(m.types[i], types[m.owners[i]], m.owners, i, types)
        }
}

/// `b` keeps everything of `a` and may place more ids after it.
pub open spec fn grows(a: BuilderModel, b: BuilderModel) -> bool {
    &&& a.types.len() <= b.types.len()
    &&& a.owners.len() <= b.owners.len()
    &&& b.types.subrange(0, a.types.len() as int) == a.types
    &&& b.owners.subrange(0, a.owners.len() as int) == a.owners
    &&& forall|id: u32| #[trigger]
        a.index.contains_key(id) ==> b.index.contains_key(id) && b.index[id] == a.index[id]
    &&& b.entries == a.entries
    &&& b.decoration == a.decoration
    &&& b.source_file == a.source_file
}

/// `out` is the entry point `raw` with each interface id replaced by its
/// output index in `m`, or by the sentinel.
pub open spec fn entry_resolved(out: ExecModel, raw: ExecModel, m: BuilderModel) -> bool {
    &&& out.model == raw.model
    &&& out.name == raw.name
    &&& out.parameters@ == raw.parameters@.map_values(|p: u32| index_of(m, p))
}

/// `id` has a record that is not `Unknown` and is not being resolved.
pub open spec fn registrable(types: Map<u32, Type>, pending: Set<u32>, id: u32) -> bool {
    &&& types.contains_key(id)
    &&& !(types[id] is Unknown)
    &&& !pending.contains(id)
}

/// What one resolution of `id` did, from `a` to `b`, returning `r`: `r` is the
/// index of `id` afterwards, and `id` has one exactly when it has a record
/// that is not `Unknown`.
pub open spec fn resolves(
    a: BuilderModel,
    b: BuilderModel,
    types: Map<u32, Type>,
    id: u32,
    r: u32,
) -> bool {
    &&& grows(a, b)
    &&& r == index_of(b, id)
    &&& b.index.contains_key(id) <==> registrable(types, Set::empty(), id)
}

/// The ids placed, in order, after resolving `idx` with `placed` already
/// placed and `pending` being resolved: nothing more when `idx` is placed
/// already or cannot be placed now; otherwise its references first, left
/// to right, each resolved the same way, then `idx` itself. `fuel` is the
/// number of stored ids not being resolved, which bounds the depth.
pub open spec fn placed_after(
    types: Map<u32, Type>,
    placed: Seq<u32>,
    pending: Set<u32>,
    idx: u32,
    fuel: nat,
) -> Seq<u32>
    decreases fuel, 0nat, 0nat,
{
    if placed.contains(idx) || !registrable(types, pending, idx) || fuel == 0 {
        placed
    } else {
        placed_children(
            types,
            placed,
            pending.insert(idx),
            refs_of(types[idx]),
            0,
            (fuel - 1) as nat,
        ).push(idx)
    }
}

/// The ids placed, in order, after resolving `refs[k..]` one after the other.
pub open spec fn placed_children(
    types: Map<u32, Type>,
    placed: Seq<u32>,
    pending: Set<u32>,
    refs: Seq<u32>,
    k: int,
    fuel: nat,
) -> Seq<u32>
    decreases fuel, 1nat, refs.len() - k,
{
    if k < 0 || k >= refs.len() {
        placed
    } else {
        placed_children(
            types,
            placed_after(types, placed, pending, refs[k], fuel),
            pending,
            refs,
            k + 1,
            fuel,
        )
    }
}

/// The ids placed, in order, after resolving `order[i..]` one after the
/// other, each from scratch.
pub open spec fn placed_all(types: Map<u32, Type>, placed: Seq<u32>, order: Seq<u32>, i: int) -> Seq<u32>
    decreases order.len() - i,
{
    if i < 0 || i >= order.len() {
        placed
    } else {
        placed_all(
            types,
            placed_after(types, placed, Set::empty(), order[i], order.len()),
            order,
            i + 1,
        )
    }
}

/// The state of a child reference during resolution: resolved to an index
/// placed for `raw`, or the sentinel for a `raw` that cannot be placed now.
spec fn child_ok(
    r: u32,
    raw: u32,
    m: BuilderModel,
    types: Map<u32, Type>,
    pending: Set<u32>,
    parent: u32,
) -> bool {
    if r == INVALID_INDEX {
        &&& !m.index.contains_key(raw)
        &&& !registrable(types, pending, raw)
        &&& registrable(types, Set::empty(), raw) ==> leads_to(types, raw, parent)
    } else {
        r < m.types.len() && m.owners[r as int] == raw
    }
}

/// A set of ids all listed in `order` is no larger than `order`.
proof fn lemma_set_within_order(s: Set<u32>, order: Seq<u32>)
    requires
        order.no_duplicates(),
        forall|x: u32| s.contains(x) ==> order.contains(x),
    ensures
        s.finite(),
        s.len() <= order.len(),
{
    order.unique_seq_to_set();
    assert(s.subset_of(order.to_set()));
    lemma_len_subset(s, order.to_set());
}

/// Distinct ids all listed in `order` are no more than `order` holds.
proof fn lemma_seq_within_order(s: Seq<u32>, order: Seq<u32>)
    requires
        s.no_duplicates(),
        order.no_duplicates(),
        forall|i: int| 0 <= i < s.len() ==> order.contains(#[trigger] s[i]),
    ensures
        s.len() <= order.len(),
{
    s.unique_seq_to_set();
    assert forall|x: u32| s.to_set().contains(x) implies order.contains(x) by {
        let i = choose|i: int| 0 <= i < s.len() && s[i] == x;
        assert(order.contains(s[i]));
    }
    lemma_set_within_order(s.to_set(), order);
}

/// A resolved entry stays resolved when ids are placed after it.
proof fn lemma_resolved_stable(
    out: Type,
    raw: Type,
    o1: Seq<u32>,
    o2: Seq<u32>,
    i: int,
    types: Map<u32, Type>,
)
    requires
        resolved_from(out, raw, o1, i, types),
        0 <= i < o1.len() <= o2.len(),
        o2.subrange(0, o1.len() as int) == o1,
    ensures
        resolved_from(out, raw, o2, i, types),
{
    assert forall|j: int| 0 <= j <= i implies o2[j] == o1[j] by {
        assert(o2.subrange(0, o1.len() as int)[j] == o2[j]);
    }
}

/// Paths of references compose.
proof fn lemma_leads_to_trans(types: Map<u32, Type>, a: u32, b: u32, c: u32)
    requires
        leads_to(types, a, b),
        leads_to(types, b, c),
    ensures
        leads_to(types, a, c),
{
    let head = choose|path: Seq<u32>| follows_refs(types, path) && path[0] == a && path.last() == b;
    let tail = choose|path: Seq<u32>| follows_refs(types, path) && path[0] == b && path.last() == c;
    let p = head + tail.subrange(1, tail.len() as int);
    assert forall|j: int| 0 <= j < p.len() - 1 implies types.contains_key(#[trigger] p[j])
        && refs_of(types[p[j]]).contains(p[j + 1]) by {
        if j < head.len() - 1 {
            assert(p[j] == head[j] && p[j + 1] == head[j + 1]);
        } else if j == head.len() - 1 {
            assert(p[j] == tail[0]);
            assert(p[j + 1] == tail[1]);
        } else {
            let q = j - head.len() + 1;
            assert(p[j] == tail[q]);
            assert(p[j + 1] == tail[q + 1]);
        }
    }
    if tail.len() == 1 {
        assert(p.last() == c);
    } else {
        assert(p.last() == tail.last());
    }
    assert(follows_refs(types, p) && p[0] == a && p.last() == c);
}

/// One step of resolving references in turn.
proof fn lemma_children_step(
    types: Map<u32, Type>,
    placed: Seq<u32>,
    pending: Set<u32>,
    refs: Seq<u32>,
    k: int,
    fuel: nat,
)
    requires
        0 <= k < refs.len(),
    ensures
        placed_children(types, placed, pending, refs, k, fuel) == placed_children(
            types,
            placed_after(types, placed, pending, refs[k], fuel),
            pending,
            refs,
            k + 1,
            fuel,
        ),
{
}

/// No references left: nothing more is placed.
proof fn lemma_children_end(
    types: Map<u32, Type>,
    placed: Seq<u32>,
    pending: Set<u32>,
    refs: Seq<u32>,
    fuel: nat,
)
    ensures
        placed_children(types, placed, pending, refs, refs.len() as int, fuel) == placed,
{
}

/// What a child of `idx` leads to, `idx` leads to.
proof fn lemma_step_leads(types: Map<u32, Type>, idx: u32, k: int, id: u32)
    requires
        types.contains_key(idx),
        0 <= k < refs_of(types[idx]).len(),
        leads_to(types, refs_of(types[idx])[k], id),
    ensures
        leads_to(types, idx, id),
{
    let c = refs_of(types[idx])[k];
    let step = seq![idx, c];
    assert(refs_of(types[idx]).contains(c));
    assert(follows_refs(types, step) && step[0] == idx && step.last() == c);
    lemma_leads_to_trans(types, idx, c, id);
}

/// While `idx` is resolved, every id being resolved leads to each child of `idx`.
proof fn lemma_pending_reach_child(types: Map<u32, Type>, pending: Set<u32>, idx: u32, k: int)
    requires
        forall|p: u32| #[trigger] pending.contains(p) ==> leads_to(types, p, idx),
        types.contains_key(idx),
        0 <= k < refs_of(types[idx]).len(),
    ensures
        forall|p: u32| #[trigger]
            pending.insert(idx).contains(p) ==> leads_to(types, p, refs_of(types[idx])[k]),
{
    let c = refs_of(types[idx])[k];
    let step = seq![idx, c];
    assert(refs_of(types[idx]).contains(c));
    assert(follows_refs(types, step) && step[0] == idx && step.last() == c);
    assert forall|p: u32| #[trigger] pending.insert(idx).contains(p) implies leads_to(
        types,
        p,
        c,
    ) by {
        if p != idx {
            lemma_leads_to_trans(types, p, idx, c);
        }
    }
}

/// A child that is being resolved leads back to the parent.
proof fn lemma_back_edge(types: Map<u32, Type>, pending: Set<u32>, idx: u32, c: u32)
    requires
        forall|p: u32| #[trigger] pending.contains(p) ==> leads_to(types, p, idx),
    ensures
        pending.insert(idx).contains(c) ==> leads_to(types, c, idx),
{
    if c == idx {
        let here = seq![idx];
        assert(follows_refs(types, here) && here[0] == idx && here.last() == idx);
    }
}

/// A child state stays valid while the ids placed meanwhile are registrable.
proof fn lemma_child_ok_stable(
    r: u32,
    raw: u32,
    m1: BuilderModel,
    m2: BuilderModel,
    types: Map<u32, Type>,
    pending: Set<u32>,
    parent: u32,
)
    requires
        child_ok(r, raw, m1, types, pending, parent),
        m1.owners.len() == m1.types.len(),
        grows(m1, m2),
        forall|id: u32|
            m2.index.contains_key(id) && !m1.index.contains_key(id) ==> registrable(
                types,
                pending,
                id,
            ),
    ensures
        child_ok(r, raw, m2, types, pending, parent),
{
    if r != INVALID_INDEX {
        assert(m2.owners.subrange(0, m1.owners.len() as int)[r as int] == m2.owners[r as int]);
    }
}


/// Growth composes.
proof fn lemma_grows_trans(a: BuilderModel, b: BuilderModel, c: BuilderModel)
    requires
        grows(a, b),
        grows(b, c),
    ensures
        grows(a, c),
{
    assert(c.types.subrange(0, a.types.len() as int) =~= a.types) by {
        assert forall|i: int| 0 <= i < a.types.len() implies c.types[i] == a.types[i] by {
            assert(c.types.subrange(0, b.types.len() as int)[i] == c.types[i]);
            assert(b.types.subrange(0, a.types.len() as int)[i] == b.types[i]);
        }
    }
    assert(c.owners.subrange(0, a.owners.len() as int) =~= a.owners) by {
        assert forall|i: int| 0 <= i < a.owners.len() implies c.owners[i] == a.owners[i] by {
            assert(c.owners.subrange(0, b.owners.len() as int)[i] == c.owners[i]);
            assert(b.owners.subrange(0, a.owners.len() as int)[i] == b.owners[i]);
        }
    }
}

/// Appending the record of an id that has no index keeps the state consistent,
/// provided the record is resolved against the ids placed so far.
proof fn lemma_wf_insert(
    m: BuilderModel,
    types: Map<u32, Type>,
    idx: u32,
    tp: Type,
    order: Seq<u32>,
)
    requires
        resolution_wf(m, types),
        !m.index.contains_key(idx),
        types.contains_key(idx),
        !(types[idx] is Unknown),
        resolved_from(tp, types[idx], m.owners.push(idx), m.types.len() as int, types),
        order.no_duplicates(),
        order.len() < INVALID_INDEX,
        forall|id: u32| types.contains_key(id) <==> order.contains(id),
    ensures
        m.types.len() + 1 < INVALID_INDEX,
        resolution_wf(
            BuilderModel {
                types: m.types.push(tp),
                owners: m.owners.push(idx),
                index: m.index.insert(idx, m.types.len() as u32),
                ..m
            },
            types,
        ),
        grows(
            m,
            BuilderModel {
                types: m.types.push(tp),
                owners: m.owners.push(idx),
                index: m.index.insert(idx, m.types.len() as u32),
                ..m
            },
        ),
{
    let m2 = BuilderModel {
        types: m.types.push(tp),
        owners: m.owners.push(idx),
        index: m.index.insert(idx, m.types.len() as u32),
        ..m
    };
    assert(!m.owners.contains(idx)) by {
        if m.owners.contains(idx) {
            let j = choose|j: int| 0 <= j < m.owners.len() && m.owners[j] == idx;
            assert(m.index.contains_key(m.owners[j]));
        }
    }
    assert forall|i: int, j: int|
        0 <= i < m2.owners.len() && 0 <= j < m2.owners.len() && i != j implies m2.owners[i]
        != m2.owners[j] by {
        if i < m.owners.len() && j < m.owners.len() {
        } else if i < m.owners.len() {
            assert(m.owners.contains(m.owners[i]));
        } else if j < m.owners.len() {
            assert(m.owners.contains(m.owners[j]));
        }
    }
    assert forall|i: int| 0 <= i < m2.owners.len() implies order.contains(#[trigger] m2.owners[i]) by {
        if i < m.owners.len() {
            assert(types.contains_key(m.owners[i]));
        }
    }
    lemma_seq_within_order(m2.owners, order);
    assert(m2.types.subrange(0, m.types.len() as int) =~= m.types);
    assert(m2.owners.subrange(0, m.owners.len() as int) =~= m.owners);
    assert forall|i: int| 0 <= i < m2.owners.len() implies {
        &&& types.contains_key(#[trigger] m2.owners[i])
        &&& !(types[m2.owners[i]] is Unknown)
        &&& resolved_from(m2.types[i], types[m2.owners[i]], m2.owners, i, types)
    } by {
        if i < m.owners.len() {
            lemma_resolved_stable(m.types[i], types[m.owners[i]], m.owners, m2.owners, i, types);
        }
    }
    assert forall|id: u32| #[trigger]
        m2.index.contains_key(id) implies m2.index[id] < m2.types.len() && m2.owners[m2.index[id] as int]
        == id by {
        if id != idx {
            assert(m.index.contains_key(id));
        }
    }
    assert forall|i: int| 0 <= i < m2.owners.len() implies #[trigger] m2.index.contains_key(
        m2.owners[i],
    ) by {
        if i < m.owners.len() {
            assert(m.index.contains_key(m.owners[i]));
        }
    }
}

/// Children resolved one by one give a resolved entry for the parent placed next.
proof fn lemma_entry_resolved(
    out: Type,
    raw: Type,
    m: BuilderModel,
    types: Map<u32, Type>,
    pending: Set<u32>,
    idx: u32,
)
    requires
        resolution_wf(m, types),
        same_but_refs(out, raw),
        refs_of(out).len() == refs_of(raw).len(),
        forall|k: int|
            0 <= k < refs_of(raw).len() ==> child_ok(
                #[trigger] refs_of(out)[k],
                refs_of(raw)[k],
                m,
                types,
                pending,
                idx,
            ),
    ensures
        resolved_from(out, raw, m.owners.push(idx), m.types.len() as int, types),
{
    let o2 = m.owners.push(idx);
    assert(o2[m.types.len() as int] == idx);
    assert forall|k: int| 0 <= k < refs_of(raw).len() implies ref_resolved(
        #[trigger] refs_of(out)[k],
        refs_of(raw)[k],
        o2,
        m.types.len() as int,
        types,
    ) by {
        let r = refs_of(out)[k];
        let c = refs_of(raw)[k];
        assert(child_ok(r, c, m, types, pending, idx));
        if r == INVALID_INDEX {
            assert forall|j: int| 0 <= j < m.types.len() implies o2[j] != c by {
                assert(m.index.contains_key(m.owners[j]));
            }
        } else {
            assert(o2[r as int] == m.owners[r as int]);
        }
    }
}

impl View for OspvBuilder {
    type V = BuilderModel;

    closed spec fn view(&self) -> BuilderModel {
        BuilderModel {
            types: self.ospv.types@,
            owners: self.owners@,
            index: self.type_hash@,
            entries: self.ospv.entries@,
            decoration: self.ospv.decoration@,
            source_file: self.ospv.source_file@,
        }
    }
}

fn default_ospv(filename: &str) -> (r: Ospv)
    ensures
        r.types@ == Seq::<Type>::empty(),
        r.entries@ == Seq::<ExecModel>::empty(),
        r.decoration@ == Map::<u32, StructuralDecoration>::empty(),
        r.source_file@ == filename@,
{
    Ospv {
        decoration: HashMap::new(),
        entries: Vec::new(),
        source_file: filename.to_owned(),
        types: Vec::new(),
    }
}

/// Builds an artifact: resolves type records into the output array, then
/// adds entry points and decorations against the same index table.
pub struct OspvBuilder {
    type_hash: HashMap<u32, u32>,
    ospv: Ospv,
    owners: Ghost<Seq<u32>>,
}

impl OspvBuilder {
    pub fn new(filename: &str) -> (r: Self)
        ensures
            r@.types == Seq::<Type>::empty(),
            r@.owners == Seq::<u32>::empty(),
            r@.index == Map::<u32, u32>::empty(),
            r@.entries == Seq::<ExecModel>::empty(),
            r@.decoration == Map::<u32, StructuralDecoration>::empty(),
            r@.source_file == filename@,
    {
        OspvBuilder {
            type_hash: HashMap::new(),
            ospv: default_ospv(filename),
            owners: Ghost(Seq::empty()),
        }
    }

    /// Resolves `idx`: its index when it has one; else, for a record that is
    /// not `Unknown` and not being resolved (`pending`), resolves its
    /// references first and then places it; else the sentinel. A reference
    /// back to an id still being resolved, which only a cyclic type graph
    /// has, is cut with the sentinel, so resolution always ends.
    fn add_types_recurse(&mut self, idx: u32, types: &TypeTable, pending: &mut HashSet<u32>) -> (r: u32)
        requires
            types.wf(),
            types.order().len() < INVALID_INDEX,
            resolution_wf(old(self)@, types@),
            forall|id: u32|
                old(pending)@.contains(id) ==> types@.contains_key(id) && !old(
                    self,
                )@.index.contains_key(id),
            forall|p: u32| #[trigger] old(pending)@.contains(p) ==> leads_to(types@, p, idx),
        ensures
            resolution_wf(final(self)@, types@),
            grows(old(self)@, final(self)@),
            final(pending)@ == old(pending)@,
            r == index_of(final(self)@, idx),
            final(self)@.index.contains_key(idx) <==> (old(self)@.index.contains_key(idx)
                || registrable(types@, old(pending)@, idx)),
            forall|id: u32|
                final(self)@.index.contains_key(id) && !old(self)@.index.contains_key(id)
                    ==> registrable(types@, old(pending)@, id),
            old(self)@.index.contains_key(idx) || !registrable(types@, old(pending)@, idx)
                ==> final(self)@ == old(self)@,
            !old(self)@.index.contains_key(idx) && registrable(types@, old(pending)@, idx) ==> r
                == final(self)@.types.len() - 1,
            forall|id: u32|
                final(self)@.index.contains_key(id) && !old(self)@.index.contains_key(id)
                    ==> leads_to(types@, idx, id),
            refs_of(types@[idx]).len() == 0 && !old(self)@.index.contains_key(idx) && registrable(
                types@,
                old(pending)@,
                idx,
            ) ==> final(self)@ == (BuilderModel {
                types: old(self)@.types.push(final(self)@.types.last()),
                owners: old(self)@.owners.push(idx),
                index: old(self)@.index.insert(idx, r),
                ..old(self)@
            }),
            final(self)@.owners == placed_after(
                types@,
                old(self)@.owners,
                old(pending)@,
                idx,
                (types.order().len() - old(pending)@.len()) as nat,
            ),
        decreases types.order().len() - old(pending)@.len(),
    {
        let ghost start = self@;
        let ghost outer = pending@;
        proof {
            lemma_set_within_order(outer, types.order());
            assert(grows(start, start)) by {
                assert(start.types.subrange(0, start.types.len() as int) =~= start.types);
                assert(start.owners.subrange(0, start.owners.len() as int) =~= start.owners);
            }
        }
        if let Some(i) = self.type_hash.get(&idx) {
            return *i;
        }
        let tp = match types.get(idx) {
            Some(t) => t,
            None => return INVALID_INDEX,
        };
        if pending.contains(&idx) {
            return INVALID_INDEX;
        }
        let resolved = match tp {
            Type::Unknown => return INVALID_INDEX,
            Type::AccelerationStructure => Type::AccelerationStructure,
            Type::Bool => Type::Bool,
            Type::Float { size } => Type::Float { size: *size },
            Type::Int { signed, size } => Type::Int { signed: *signed, size: *size },
            Type::Sampler => Type::Sampler,
            Type::SpecConstantBool { value } => Type::SpecConstantBool { value: *value },
            Type::Void => Type::Void,
            _ => {
                pending.insert(idx);
                let ghost inner = pending@;
                let ghost f = (types.order().len() - inner.len()) as nat;
                let ghost rs = refs_of(types@[idx]);
                proof {
                    assert(inner =~= outer.insert(idx));
                    lemma_set_within_order(inner, types.order());
                }
                let t = match tp {
                    Type::Array { ref_, size } => {
                        proof {
                            lemma_pending_reach_child(types@, outer, idx, 0);
                        }
                        let r0 = self.add_types_recurse(*ref_, types, pending);
                        let ghost m1 = self@;
                        proof {
                            lemma_back_edge(types@, outer, idx, *ref_);
                            assert(child_ok(r0, *ref_, m1, types@, inner, idx));
                            lemma_pending_reach_child(types@, outer, idx, 1);
                        }
                        let r1 = self.add_types_recurse(*size, types, pending);
                        proof {
                            lemma_child_ok_stable(r0, *ref_, m1, self@, types@, inner, idx);
                            lemma_back_edge(types@, outer, idx, *size);
                            lemma_children_step(types@, start.owners, inner, rs, 0, f);
                            lemma_children_step(types@, m1.owners, inner, rs, 1, f);
                            lemma_children_end(types@, self@.owners, inner, rs, f);
                            assert forall|id: u32|
                                self@.index.contains_key(id) && !start.index.contains_key(
                                    id,
                                ) implies leads_to(types@, idx, id) by {
                                if m1.index.contains_key(id) {
                                    lemma_step_leads(types@, idx, 0, id);
                                } else {
                                    lemma_step_leads(types@, idx, 1, id);
                                }
                            }
                            assert(child_ok(r1, *size, self@, types@, inner, idx));
                            lemma_grows_trans(start, m1, self@);
                        }
                        Type::Array { ref_: r0, size: r1 }
                    },
                    Type::Image { image, ref_ } => {
                        proof {
                            lemma_pending_reach_child(types@, outer, idx, 0);
                        }
                        let r0 = self.add_types_recurse(*ref_, types, pending);
                        proof {
                            lemma_back_edge(types@, outer, idx, *ref_);
                            lemma_children_step(types@, start.owners, inner, rs, 0, f);
                            lemma_children_end(types@, self@.owners, inner, rs, f);
                            assert forall|id: u32|
                                self@.index.contains_key(id) && !start.index.contains_key(
                                    id,
                                ) implies leads_to(types@, idx, id) by {
                                lemma_step_leads(types@, idx, 0, id);
                            }
                        }
                        assert(child_ok(r0, *ref_, self@, types@, inner, idx));
                        Type::Image { image: *image, ref_: r0 }
                    },
                    Type::Matrix { ref_, size } => {
                        proof {
                            lemma_pending_reach_child(types@, outer, idx, 0);
                        }
                        let r0 = self.add_types_recurse(*ref_, types, pending);
                        proof {
                            lemma_back_edge(types@, outer, idx, *ref_);
                            lemma_children_step(types@, start.owners, inner, rs, 0, f);
                            lemma_children_end(types@, self@.owners, inner, rs, f);
                            assert forall|id: u32|
                                self@.index.contains_key(id) && !start.index.contains_key(
                                    id,
                                ) implies leads_to(types@, idx, id) by {
                                lemma_step_leads(types@, idx, 0, id);
                            }
                        }
                        assert(child_ok(r0, *ref_, self@, types@, inner, idx));
                        Type::Matrix { ref_: r0, size: *size }
                    },
                    Type::Pointer { class, ref_ } => {
                        proof {
                            lemma_pending_reach_child(types@, outer, idx, 0);
                        }
                        let r0 = self.add_types_recurse(*ref_, types, pending);
                        proof {
                            lemma_back_edge(types@, outer, idx, *ref_);
                            lemma_children_step(types@, start.owners, inner, rs, 0, f);
                            lemma_children_end(types@, self@.owners, inner, rs, f);
                            assert forall|id: u32|
                                self@.index.contains_key(id) && !start.index.contains_key(
                                    id,
                                ) implies leads_to(types@, idx, id) by {
                                lemma_step_leads(types@, idx, 0, id);
                            }
                        }
                        assert(child_ok(r0, *ref_, self@, types@, inner, idx));
                        Type::Pointer { class: *class, ref_: r0 }
                    },
                    Type::RuntimeArray { ref_ } => {
                        proof {
                            lemma_pending_reach_child(types@, outer, idx, 0);
                        }
                        let r0 = self.add_types_recurse(*ref_, types, pending);
                        proof {
                            lemma_back_edge(types@, outer, idx, *ref_);
                            lemma_children_step(types@, start.owners, inner, rs, 0, f);
                            lemma_children_end(types@, self@.owners, inner, rs, f);
                            assert forall|id: u32|
                                self@.index.contains_key(id) && !start.index.contains_key(
                                    id,
                                ) implies leads_to(types@, idx, id) by {
                                lemma_step_leads(types@, idx, 0, id);
                            }
                        }
                        assert(child_ok(r0, *ref_, self@, types@, inner, idx));
                        Type::RuntimeArray { ref_: r0 }
                    },
                    Type::SampledImage { ref_ } => {
                        proof {
                            lemma_pending_reach_child(types@, outer, idx, 0);
                        }
                        let r0 = self.add_types_recurse(*ref_, types, pending);
                        proof {
                            lemma_back_edge(types@, outer, idx, *ref_);
                            lemma_children_step(types@, start.owners, inner, rs, 0, f);
                            lemma_children_end(types@, self@.owners, inner, rs, f);
                            assert forall|id: u32|
                                self@.index.contains_key(id) && !start.index.contains_key(
                                    id,
                                ) implies leads_to(types@, idx, id) by {
                                lemma_step_leads(types@, idx, 0, id);
                            }
                        }
                        assert(child_ok(r0, *ref_, self@, types@, inner, idx));
                        Type::SampledImage { ref_: r0 }
                    },
                    Type::SpecConstant { ref_, value } => {
                        proof {
                            lemma_pending_reach_child(types@, outer, idx, 0);
                        }
                        let r0 = self.add_types_recurse(*ref_, types, pending);
                        proof {
                            lemma_back_edge(types@, outer, idx, *ref_);
                            lemma_children_step(types@, start.owners, inner, rs, 0, f);
                            lemma_children_end(types@, self@.owners, inner, rs, f);
                            assert forall|id: u32|
                                self@.index.contains_key(id) && !start.index.contains_key(
                                    id,
                                ) implies leads_to(types@, idx, id) by {
                                lemma_step_leads(types@, idx, 0, id);
                            }
                        }
                        assert(child_ok(r0, *ref_, self@, types@, inner, idx));
                        Type::SpecConstant { ref_: r0, value: *value }
                    },
                    Type::Variable { ref_ } => {
                        proof {
                            lemma_pending_reach_child(types@, outer, idx, 0);
                        }
                        let r0 = self.add_types_recurse(*ref_, types, pending);
                        proof {
                            lemma_back_edge(types@, outer, idx, *ref_);
                            lemma_children_step(types@, start.owners, inner, rs, 0, f);
                            lemma_children_end(types@, self@.owners, inner, rs, f);
                            assert forall|id: u32|
                                self@.index.contains_key(id) && !start.index.contains_key(
                                    id,
                                ) implies leads_to(types@, idx, id) by {
                                lemma_step_leads(types@, idx, 0, id);
                            }
                        }
                        assert(child_ok(r0, *ref_, self@, types@, inner, idx));
                        Type::Variable { ref_: r0 }
                    },
                    Type::Vector { ref_, size } => {
                        proof {
                            lemma_pending_reach_child(types@, outer, idx, 0);
                        }
                        let r0 = self.add_types_recurse(*ref_, types, pending);
                        proof {
                            lemma_back_edge(types@, outer, idx, *ref_);
                            lemma_children_step(types@, start.owners, inner, rs, 0, f);
                            lemma_children_end(types@, self@.owners, inner, rs, f);
                            assert forall|id: u32|
                                self@.index.contains_key(id) && !start.index.contains_key(
                                    id,
                                ) implies leads_to(types@, idx, id) by {
                                lemma_step_leads(types@, idx, 0, id);
                            }
                        }
                        assert(child_ok(r0, *ref_, self@, types@, inner, idx));
                        Type::Vector { ref_: r0, size: *size }
                    },
                    Type::Struct { refs } => {
                        let mut out: Vec<u32> = Vec::new();
                        let mut k: usize = 0;
                        while k < refs.len()
                            invariant
                                types.wf(),
                                types.order().len() < INVALID_INDEX,
                                resolution_wf(self@, types@),
                                grows(start, self@),
                                pending@ == inner,
                                old(pending)@ == outer,
                                inner.finite(),
                                inner.len() == outer.len() + 1,
                                inner.len() <= types.order().len(),
                                forall|id: u32|
                                    inner.contains(id) ==> types@.contains_key(id)
                                        && !self@.index.contains_key(id),
                                forall|id: u32|
                                    self@.index.contains_key(id) && !start.index.contains_key(id)
                                        ==> registrable(types@, inner, id),
                                k <= refs@.len(),
                                out@.len() == k,
                                forall|m: int|
                                    0 <= m < k ==> child_ok(
                                        #[trigger] out@[m],
                                        refs@[m],
                                        self@,
                                        types@,
                                        inner,
                                        idx,
                                    ),
                                types@.contains_key(idx),
                                refs_of(types@[idx]) == refs@,
                                forall|p: u32| #[trigger] outer.contains(p) ==> leads_to(types@, p, idx),
                                inner == outer.insert(idx),
                                f == (types.order().len() - inner.len()) as nat,
                                k == 0 ==> self@ == start,
                                rs == refs@,
                                placed_children(types@, start.owners, inner, rs, 0, f)
                                    == placed_children(types@, self@.owners, inner, rs, k as int, f),
                                forall|id: u32|
                                    self@.index.contains_key(id) && !start.index.contains_key(id)
                                        ==> leads_to(types@, idx, id),
                            decreases refs.len() - k,
                        {
                            let ghost before = self@;
                            proof {
                                lemma_pending_reach_child(types@, outer, idx, k as int);
                            }
                            let r0 = self.add_types_recurse(refs[k], types, pending);
                            proof {
                                lemma_back_edge(types@, outer, idx, refs@[k as int]);
                                lemma_children_step(types@, before.owners, inner, rs, k as int, f);
                                assert forall|id: u32|
                                    self@.index.contains_key(id) && !start.index.contains_key(
                                        id,
                                    ) implies leads_to(types@, idx, id) by {
                                    if !before.index.contains_key(id) {
                                        lemma_step_leads(types@, idx, k as int, id);
                                    }
                                }
                                assert(child_ok(r0, refs@[k as int], self@, types@, inner, idx));
                                assert forall|m: int| 0 <= m < k implies child_ok(
                                    #[trigger] out@[m],
                                    refs@[m],
                                    self@,
                                    types@,
                                    inner,
                                    idx,
                                ) by {
                                    lemma_child_ok_stable(
                                        out@[m],
                                        refs@[m],
                                        before,
                                        self@,
                                        types@,
                                        inner,
                                        idx,
                                    );
                                }
                                lemma_grows_trans(start, before, self@);
                            }
                            out.push(r0);
                            k = k + 1;
                        }
                        proof {
                            lemma_children_end(types@, self@.owners, inner, rs, f);
                        }
                        Type::Struct { refs: out }
                    },
                    _ => Type::Unknown,
                };
                assert(self@.owners == placed_children(types@, start.owners, inner, rs, 0, f));
                pending.remove(&idx);
                proof {
                    assert(pending@ =~= outer);
                }
                t
            },
        };
        proof {
            assert(same_but_refs(resolved, *tp));
            lemma_entry_resolved(resolved, *tp, self@, types@, outer.insert(idx), idx);
            lemma_wf_insert(self@, types@, idx, resolved, types.order());
        }
        let ghost placed_before = self@;
        proof {
            lemma_set_within_order(outer.insert(idx), types.order());
            assert(!start.owners.contains(idx)) by {
                if start.owners.contains(idx) {
                    let j = choose|j: int| 0 <= j < start.owners.len() && start.owners[j] == idx;
                    assert(start.index.contains_key(start.owners[j]));
                }
            }
            if refs_of(types@[idx]).len() == 0 {
                lemma_children_end(
                    types@,
                    start.owners,
                    outer.insert(idx),
                    refs_of(types@[idx]),
                    (types.order().len() - outer.len() - 1) as nat,
                );
            }
            assert(placed_before.owners == placed_children(
                types@,
                start.owners,
                outer.insert(idx),
                refs_of(types@[idx]),
                0,
                (types.order().len() - outer.len() - 1) as nat,
            ));
        }
        let r = self.insert_type(idx, resolved);
        proof {
            lemma_grows_trans(start, placed_before, self@);
            let here = seq![idx];
            assert(follows_refs(types@, here) && here[0] == idx && here.last() == idx);
            assert(leads_to(types@, idx, idx));
        }
        r
    }

    /// The output index of `id`, or the sentinel.
    fn lookup(&self, id: u32) -> (r: u32)
        ensures
            r == index_of(self@, id),
    {
        match self.type_hash.get(&id) {
            Some(i) => *i,
            None => INVALID_INDEX,
        }
    }

    /// Resolves `id`: returns its output index, placing it (after everything
    /// it refers to) when it has a record that is not `Unknown` and no index
    /// yet; returns the sentinel for an id without such a record.
    pub fn resolve(&mut self, id: u32, types: &TypeTable) -> (r: u32)
        requires
            types.wf(),
            types.order().len() < INVALID_INDEX,
            resolution_wf(old(self)@, types@),
        ensures
            resolution_wf(final(self)@, types@),
            resolves(old(self)@, final(self)@, types@, id, r),
            old(self)@.index.contains_key(id) || !registrable(types@, Set::empty(), id)
                ==> final(self)@ == old(self)@,
            !old(self)@.index.contains_key(id) && registrable(types@, Set::empty(), id) ==> r
                == final(self)@.types.len() - 1,
            refs_of(types@[id]).len() == 0 && !old(self)@.index.contains_key(id) && registrable(
                types@,
                Set::empty(),
                id,
            ) ==> final(self)@ == (BuilderModel {
                types: old(self)@.types.push(final(self)@.types.last()),
                owners: old(self)@.owners.push(id),
                index: old(self)@.index.insert(id, r),
                ..old(self)@
            }),
            forall|x: u32|
                final(self)@.index.contains_key(x) && !old(self)@.index.contains_key(x)
                    ==> leads_to(types@, id, x),
            final(self)@.owners == placed_after(
                types@,
                old(self)@.owners,
                Set::empty(),
                id,
                types.order().len() as nat,
            ),
    {
        let mut pending: HashSet<u32> = HashSet::new();
        proof {
            assert(pending@ =~= Set::<u32>::empty());
        }
        self.add_types_recurse(id, types, &mut pending)
    }

    /// Resolves every stored id, in the order of their first store. A table
    /// of `INVALID_INDEX` ids or more is left alone: its indices would not
    /// all differ from the sentinel.
    pub fn add_types(self, types: &TypeTable) -> (r: Self)
        requires
            types.wf(),
            resolution_wf(self@, types@),
        ensures
            grows(self@, r@),
            types.order().len() < INVALID_INDEX ==> {
                &&& resolution_wf(r@, types@)
                &&& forall|id: u32| #[trigger]
                    r@.index.contains_key(id) <==> registrable(types@, Set::empty(), id)
                &&& r@.owners == placed_all(types@, self@.owners, types.order(), 0)
            },
            types.order().len() >= INVALID_INDEX ==> r@ == self@,
    {
        let mut b = self;
        let ghost start = b@;
        proof {
            assert(start.types.subrange(0, start.types.len() as int) =~= start.types);
            assert(start.owners.subrange(0, start.owners.len() as int) =~= start.owners);
        }
        if types.len() >= INVALID_INDEX as usize {
            return b;
        }
        let mut i: usize = 0;
        while i < types.len()
            invariant
                types.wf(),
                types.order().len() < INVALID_INDEX,
                resolution_wf(b@, types@),
                grows(start, b@),
                i <= types.order().len(),
                forall|j: int|
                    0 <= j < i ==> registrable(types@, Set::empty(), #[trigger] types.order()[j])
                        ==> b@.index.contains_key(types.order()[j]),
                placed_all(types@, start.owners, types.order(), 0) == placed_all(
                    types@,
                    b@.owners,
                    types.order(),
                    i as int,
                ),
            decreases types.order().len() - i,
        {
            let ghost before = b@;
            let id = types.id_at(i);
            b.resolve(id, types);
            proof {
                assert(placed_all(types@, before.owners, types.order(), i as int) == placed_all(
                    types@,
                    b@.owners,
                    types.order(),
                    i + 1,
                ));
            }
            proof {
                lemma_grows_trans(start, before, b@);
            }
            i = i + 1;
        }
        proof {
            assert forall|id: u32| #[trigger]
                b@.index.contains_key(id) <==> registrable(types@, Set::empty(), id) by {
                if b@.index.contains_key(id) {
                    let j = b@.index[id];
                    assert(types@.contains_key(b@.owners[j as int]));
                }
                if registrable(types@, Set::empty(), id) {
                    assert(types.order().contains(id));
                    let j = choose|j: int| 0 <= j < types.order().len() && types.order()[j] == id;
                    assert(registrable(types@, Set::empty(), types.order()[j]));
                }
            }
        }
        b
    }

    /// Sets the entry points: each as given, its interface ids replaced by
    /// their output indices, the sentinel for an id without one.
    pub fn add_entries(self, entries: &Vec<ExecModel>) -> (r: Self)
        ensures
            r@ == (BuilderModel { entries: r@.entries, ..self@ }),
            r@.entries.len() == entries@.len(),
            forall|i: int|
                0 <= i < entries@.len() ==> entry_resolved(
                    #[trigger] r@.entries[i],
                    entries@[i],
                    self@,
                ),
    {
        let mut b = self;
        let ghost start = b@;
        let mut resolved: Vec<ExecModel> = Vec::new();
        for i in 0..entries.len()
            invariant
                b@ == start,
                resolved@.len() == i,
                forall|j: int|
                    0 <= j < i ==> entry_resolved(#[trigger] resolved@[j], entries@[j], start),
        {
            let entry = &entries[i];
            let mut parameters: Vec<u32> = Vec::new();
            for k in 0..entry.parameters.len()
                invariant
                    b@ == start,
                    *entry == entries@[i as int],
                    parameters@ == entry.parameters@.subrange(0, k as int).map_values(
                        |p: u32| index_of(start, p),
                    ),
            {
                parameters.push(b.lookup(entry.parameters[k]));
                proof {
                    assert(entry.parameters@.subrange(0, k + 1) == entry.parameters@.subrange(
                        0,
                        k as int,
                    ).push(entry.parameters@[k as int]));
                }
            }
            proof {
                assert(entry.parameters@.subrange(0, entry.parameters@.len() as int)
                    == entry.parameters@);
            }
            resolved.push(ExecModel { model: entry.model, name: entry.name.clone(), parameters });
        }
        b.ospv.entries = resolved;
        b
    }

    /// Attaches `struct_decore` to the output index of `idx`; an id without
    /// an index leaves the builder as it was.
    pub fn set_decoration(&mut self, idx: u32, struct_decore: StructuralDecoration)
        ensures
            old(self)@.index.contains_key(idx) ==> final(self)@ == (BuilderModel {
                decoration: old(self)@.decoration.insert(old(self)@.index[idx], struct_decore),
                ..old(self)@
            }),
            !old(self)@.index.contains_key(idx) ==> final(self)@ == old(self)@,
    {
        if let Some(ridx) = self.type_hash.get(&idx) {
            self.ospv.decoration.insert(*ridx, struct_decore);
        }
    }

    /// The artifact built so far.
    pub fn get_ospv(self) -> (r: Ospv)
        ensures
            r.types@ == self@.types,
            r.entries@ == self@.entries,
            r.decoration@ == self@.decoration,
            r.source_file@ == self@.source_file,
    {
        self.ospv
    }

    /// Appends `tp` as the record of `idx` and returns its index.
    fn insert_type(&mut self, idx: u32, tp: Type) -> (r: u32)
        requires
            old(self)@.types.len() < INVALID_INDEX,
            old(self)@.owners.len() == old(self)@.types.len(),
        ensures
            r == old(self)@.types.len(),
            final(self)@ == (BuilderModel {
                types: old(self)@.types.push(tp),
                owners: old(self)@.owners.push(idx),
                index: old(self)@.index.insert(idx, r),
                ..old(self)@
            }),
    {
        let nb = self.ospv.types.len() as u32;
        self.ospv.types.push(tp);
        self.type_hash.insert(idx, nb);
        self.owners = Ghost(self.owners@.push(idx));
        nb
    }
}

} // verus!

//! Field updates of a decoration record. A field is only ever set, never
//! cleared; the groups that exclude each other (block kind, majorness,
//! visibility) are replaced by the last write.
use crate::ospv::{
    StructuralDecoration, VarDecoration, VarDecorationBlockType, VarDecorationMatrix,
    VarDecorationSetBind, VarDecorationVisibility,
};
use vstd::prelude::*;

verus! {

/// A decoration record with no field set.
pub open spec fn empty_decoration() -> VarDecoration {
    VarDecoration {
        array_stride: None,
        block_type: None,
        location: None,
        matrix: None,
        name: None,
        offset: None,
        relaxed_precision: None,
        set_bind: None,
        spec_id: None,
        visibility: None,
    }
}

/// The set/binding pair after setting the binding.
pub open spec fn with_binding(sb: Option<VarDecorationSetBind>, binding: u32) -> VarDecorationSetBind {
    match sb {
        Some(p) => VarDecorationSetBind { binding, set: p.set },
        None => VarDecorationSetBind { binding, set: 0 },
    }
}

/// The set/binding pair after setting the descriptor set.
pub open spec fn with_set(sb: Option<VarDecorationSetBind>, set: u32) -> VarDecorationSetBind {
    match sb {
        Some(p) => VarDecorationSetBind { binding: p.binding, set },
        None => VarDecorationSetBind { binding: 0, set },
    }
}

/// The matrix entry after setting its stride: the majorness stays.
pub open spec fn with_stride(m: VarDecorationMatrix, stride: u32) -> VarDecorationMatrix {
    match m {
        VarDecorationMatrix::Column { .. } => VarDecorationMatrix::Column { value: stride },
        VarDecorationMatrix::Row { .. } => VarDecorationMatrix::Row { value: stride },
    }
}

impl VarDecorationSetBind {
    fn only_set(set: u32) -> (r: Self)
        ensures
            r == with_set(None, set),
    {
        VarDecorationSetBind { binding: 0, set }
    }

    fn only_binding(binding: u32) -> (r: Self)
        ensures
            r == with_binding(None, binding),
    {
        VarDecorationSetBind { binding, set: 0 }
    }
}

impl VarDecorationMatrix {
    fn row() -> (r: Self)
        ensures
            r == (VarDecorationMatrix::Row { value: 0 }),
    {
        VarDecorationMatrix::Row { value: 0 }
    }

    fn column() -> (r: Self)
        ensures
            r == (VarDecorationMatrix::Column { value: 0 }),
    {
        VarDecorationMatrix::Column { value: 0 }
    }

    fn set_stride(&mut self, stride: u32)
        ensures
            *final(self) == with_stride(*old(self), stride),
    {
        match self {
            VarDecorationMatrix::Column { value } => *value = stride,
            VarDecorationMatrix::Row { value } => *value = stride,
        }
    }
}

impl Default for VarDecoration {
    fn default() -> (r: Self)
        ensures
            r == empty_decoration(),
    {
        VarDecoration {
            array_stride: None,
            block_type: None,
            location: None,
            matrix: None,
            name: None,
            offset: None,
            relaxed_precision: None,
            set_bind: None,
            spec_id: None,
            visibility: None,
        }
    }
}

impl VarDecoration {
    /// Sets the name; an empty name leaves the record as it was.
    pub fn set_name(&mut self, name: &String)
        ensures
            name@.len() == 0 ==> *final(self) == *old(self),
            name@.len() > 0 ==> *final(self) == (VarDecoration { name: Some(*name), ..*old(self) }),
    {
        if !name.as_str().is_empty() {
            self.name = Some(name.clone());
        }
    }

    pub fn relax_precision(&mut self)
        ensures
            *final(self) == (VarDecoration { relaxed_precision: Some(true), ..*old(self) }),
    {
        self.relaxed_precision = Some(true);
    }

    /// Sets the binding and keeps the descriptor set.
    pub fn set_binding(&mut self, binding: u32)
        ensures
            *final(self) == (VarDecoration {
                set_bind: Some(with_binding(old(self).set_bind, binding)),
                ..*old(self)
            }),
    {
        match &mut self.set_bind {
            Some(sb) => sb.binding = binding,
            None => self.set_bind = Some(VarDecorationSetBind::only_binding(binding)),
        }
    }

    /// Sets the descriptor set and keeps the binding.
    pub fn set_descriptor_set(&mut self, set: u32)
        ensures
            *final(self) == (VarDecoration {
                set_bind: Some(with_set(old(self).set_bind, set)),
                ..*old(self)
            }),
    {
        match &mut self.set_bind {
            Some(sb) => sb.set = set,
            None => self.set_bind = Some(VarDecorationSetBind::only_set(set)),
        }
    }

    pub fn set_spec_id(&mut self, id: u32)
        ensures
            *final(self) == (VarDecoration { spec_id: Some(id), ..*old(self) }),
    {
        self.spec_id = Some(id);
    }

    pub fn set_location(&mut self, loc: u32)
        ensures
            *final(self) == (VarDecoration { location: Some(loc), ..*old(self) }),
    {
        self.location = Some(loc);
    }

    /// Makes the entry row-major, with stride 0, replacing any earlier majorness.
    pub fn set_matrix_row(&mut self)
        ensures
            *final(self) == (VarDecoration {
                matrix: Some(VarDecorationMatrix::Row { value: 0 }),
                ..*old(self)
            }),
    {
        self.matrix = Some(VarDecorationMatrix::row());
    }

    /// Makes the entry column-major, with stride 0, replacing any earlier majorness.
    pub fn set_matrix_column(&mut self)
        ensures
            *final(self) == (VarDecoration {
                matrix: Some(VarDecorationMatrix::Column { value: 0 }),
                ..*old(self)
            }),
    {
        self.matrix = Some(VarDecorationMatrix::column());
    }

    /// Sets the stride of an entry that has a majorness; otherwise does nothing.
    pub fn set_matrix_stride(&mut self, stride: u32)
        ensures
            old(self).matrix is None ==> *final(self) == *old(self),
            old(self).matrix is Some ==> *final(self) == (VarDecoration {
                matrix: Some(with_stride(old(self).matrix.unwrap(), stride)),
                ..*old(self)
            }),
    {
        if let Some(m) = &mut self.matrix {
            m.set_stride(stride);
        }
    }

    /// Sets the block kind, replacing any earlier one.
    pub fn set_block_type(&mut self, block: VarDecorationBlockType)
        ensures
            *final(self) == (VarDecoration { block_type: Some(block), ..*old(self) }),
    {
        self.block_type = Some(block);
    }

    pub fn set_array_stride(&mut self, stride: u32)
        ensures
            *final(self) == (VarDecoration { array_stride: Some(stride), ..*old(self) }),
    {
        self.array_stride = Some(stride);
    }

    /// Sets the visibility, replacing any earlier one.
    pub fn set_visibility(&mut self, visibility: VarDecorationVisibility)
        ensures
            *final(self) == (VarDecoration { visibility: Some(visibility), ..*old(self) }),
    {
        self.visibility = Some(visibility);
    }

    pub fn set_offset(&mut self, offset: u32)
        ensures
            *final(self) == (VarDecoration { offset: Some(offset), ..*old(self) }),
    {
        self.offset = Some(offset);
    }
}

/// A structural decoration with nothing set.
pub open spec fn empty_structural() -> StructuralDecoration {
    StructuralDecoration { decoration: empty_decoration(), members: None }
}

/// The member records, a missing list read as empty.
pub open spec fn members_of(m: Option<Vec<VarDecoration>>) -> Seq<VarDecoration> {
    match m {
        Some(v) => v@,
        None => Seq::empty(),
    }
}

/// The member records after making room for member `idx`: the list is
/// extended with empty records up to length `idx + 1`, and never shortened.
pub open spec fn grown_members(m: Option<Vec<VarDecoration>>, idx: nat) -> Seq<VarDecoration> {
    let s = members_of(m);
    if idx < s.len() {
        s
    } else {
        s + Seq::new((idx + 1 - s.len()) as nat, |i: int| empty_decoration())
    }
}

impl Default for StructuralDecoration {
    fn default() -> (r: Self)
        ensures
            r == empty_structural(),
    {
        StructuralDecoration { decoration: VarDecoration::default(), members: None }
    }
}

impl StructuralDecoration {
    /// The record of member `idx`, created (with any missing members before
    /// it) as an empty record when it does not exist yet.
    pub fn create_or_get_member(&mut self, idx: u32) -> (r: &mut VarDecoration)
        ensures
            *r == grown_members(old(self).members, idx as nat)[idx as int],
            final(self).decoration == old(self).decoration,
            final(self).members is Some,
            final(self).members.unwrap()@ == grown_members(old(self).members, idx as nat).update(
                idx as int,
                *final(r),
            ),
    {
        let ghost start = members_of(self.members);
        let mut members = match self.members.take() {
            Some(m) => m,
            None => Vec::new(),
        };
        let us_idx = idx as usize;
        while members.len() <= us_idx
            invariant
                start.len() <= us_idx ==> members@.len() <= us_idx + 1,
                start.len() > us_idx ==> members@ == start,
                members@ == start + Seq::new(
                    (members@.len() - start.len()) as nat,
                    |i: int| empty_decoration(),
                ),
                start.len() <= members@.len(),
                us_idx == idx,
            decreases us_idx + 1 - members.len(),
        {
            members.push(VarDecoration::default());
        }
        proof {
            if idx < start.len() {
                assert(members@ =~= start);
            } else {
                assert(members@.len() == idx + 1);
            }
            assert(members@ =~= grown_members(old(self).members, idx as nat));
        }
        let slot = self.members.insert(members);
        &mut slot[us_idx]
    }

    /// Sets the top-level name; an empty name changes nothing.
    pub fn set_name(&mut self, name: &String)
        ensures
            name@.len() == 0 ==> *final(self) == *old(self),
            name@.len() > 0 ==> *final(self) == (StructuralDecoration {
                decoration: VarDecoration { name: Some(*name), ..old(self).decoration },
                ..*old(self)
            }),
    {
        self.decoration.set_name(name);
    }

    /// Names member `idx`, creating the member records up to it first.
    pub fn set_member_name(&mut self, idx: u32, name: &String)
        ensures
            final(self).decoration == old(self).decoration,
            final(self).members is Some,
            final(self).members.unwrap()@ == grown_members(old(self).members, idx as nat).update(
                idx as int,
                if name@.len() > 0 {
                    VarDecoration {
                        name: Some(*name),
                        ..grown_members(old(self).members, idx as nat)[idx as int]
                    }
                } else {
                    grown_members(old(self).members, idx as nat)[idx as int]
                },
            ),
    {
        self.create_or_get_member(idx).set_name(name);
    }
}

} // verus!

//! Computing sizes, alignments and field offsets.
use vstd::prelude::*;
use vstd::arithmetic::div_mod::{
    lemma_fundamental_div_mod, lemma_mod_bound, lemma_mod_multiples_basic, lemma_mod_multiples_vanish,
    lemma_small_mod,
};
use crate::error::Error;
use crate::types::{
    all_sized, buffer_bytes, end_offset, field_offset, max_align, max_depth, padding,
    pointer_width, BufferType, NativeType, TypeDefinition, TypeModel,
};

verus! {

/// Every one of the first `n` fields is no deeper than their greatest depth.
pub proof fn lemma_max_depth(fields: Seq<TypeModel>, n: nat, i: nat)
    requires
        i < n <= fields.len(),
    ensures
        fields[i as int].depth() <= max_depth(fields, n),
    decreases n,
{
    if i + 1 < n {
        lemma_max_depth(fields, (n - 1) as nat, i);
    }
}

/// A field nests less deeply than the composite that holds it.
pub proof fn lemma_field_depth(m: TypeModel, i: nat)
    requires
        i < m.fields().len(),
    ensures
        m.fields()[i as int].depth() < m.depth(),
{
    lemma_max_depth(m.fields(), m.fields().len(), i);
}

/// Where the first `n` fields all have a size, each of them has one.
pub proof fn lemma_all_sized(fields: Seq<TypeModel>, n: nat, i: nat)
    requires
        i < n <= fields.len(),
        all_sized(fields, n),
    ensures
        fields[i as int].sized(),
    decreases n,
{
    if i + 1 < n {
        lemma_all_sized(fields, (n - 1) as nat, i);
    }
}

/// No alignment exceeds the pointer width.
pub proof fn lemma_align_bound(m: TypeModel)
    ensures
        m.align_of() <= 8,
    decreases m, 0nat,
{
    match m {
        TypeModel::Struct(c) | TypeModel::Tuple(c) => {
            lemma_max_align_bound(c.fields, c.fields.len());
        },
        _ => {},
    }
}

/// The greatest alignment among fields does not exceed the pointer width.
pub proof fn lemma_max_align_bound(fields: Seq<TypeModel>, n: nat)
    ensures
        max_align(fields, n) <= 8,
    decreases fields, n,
{
    if n == 0 || n > fields.len() {
    } else {
        lemma_max_align_bound(fields, (n - 1) as nat);
        lemma_align_bound(fields[n - 1]);
    }
}

/// Every one of the first `n` fields is aligned no more strictly than
/// their greatest alignment.
pub proof fn lemma_max_align(fields: Seq<TypeModel>, n: nat, i: nat)
    requires
        i < n <= fields.len(),
    ensures
        fields[i as int].align_of() <= max_align(fields, n),
    decreases n,
{
    if i + 1 < n {
        lemma_max_align(fields, (n - 1) as nat, i);
    }
}

/// Fields never move backwards: more fields end no earlier than fewer.
pub proof fn lemma_end_offset_monotonic(fields: Seq<TypeModel>, padded: bool, i: nat, n: nat)
    requires
        i <= n <= fields.len(),
    ensures
        end_offset(fields, padded, i) <= end_offset(fields, padded, n),
    decreases n,
{
    if i < n {
        lemma_end_offset_monotonic(fields, padded, i, (n - 1) as nat);
    }
}

/// Padding reaches the next multiple of the alignment and is shorter
/// than the alignment.
pub proof fn lemma_padding_aligns(offset: nat, alignment: nat)
    requires
        alignment > 0,
    ensures
        (offset + padding(offset, alignment)) % alignment == 0,
        padding(offset, alignment) < alignment,
{
    let a = alignment as int;
    let r = offset as int % a;
    let q = offset as int / a;
    lemma_mod_bound(offset as int, a);
    if r != 0 {
        lemma_fundamental_div_mod(offset as int, a);
        assert(offset + (a - r) == (q + 1) * a) by (nonlinear_arith)
            requires
                offset == a * q + r,
        ;
        lemma_mod_multiples_basic(q + 1, a);
    }
}

/// Padding is minimal: no offset before the padded one is a multiple
/// of the alignment.
pub proof fn lemma_padding_minimal(offset: nat, alignment: nat, k: nat)
    requires
        alignment > 0,
        offset <= k < offset + padding(offset, alignment),
    ensures
        k % alignment != 0,
{
    let a = alignment as int;
    let r = offset as int % a;
    let q = offset as int / a;
    lemma_mod_bound(offset as int, a);
    lemma_fundamental_div_mod(offset as int, a);
    let b = r + (k - offset);
    assert(k == a * q + b);
    lemma_mod_multiples_vanish(q, b, a);
    lemma_small_mod(b as nat, alignment);
}

/// The alignment of a composite is the greatest alignment among its
/// fields: no field is aligned more strictly, some field is aligned as
/// strictly, and without fields the alignment is zero.
pub proof fn lemma_align_is_max(m: TypeModel)
    requires
        m.is_composite(),
    ensures
        forall|i: int| 0 <= i < m.fields().len() ==> (#[trigger] m.fields()[i]).align_of() <= m.align_of(),
        m.fields().len() == 0 ==> m.align_of() == 0,
        m.fields().len() > 0 ==> exists|i: int|
            0 <= i < m.fields().len() && (#[trigger] m.fields()[i]).align_of() == m.align_of(),
{
    let fields = m.fields();
    assert forall|i: int| 0 <= i < fields.len() implies (#[trigger] fields[i]).align_of()
        <= m.align_of() by {
        lemma_max_align(fields, fields.len(), i as nat);
    }
    if fields.len() > 0 {
        lemma_max_align_attained(fields, fields.len());
    }
}

/// The greatest alignment among the first `n` fields is the alignment
/// of one of them.
pub proof fn lemma_max_align_attained(fields: Seq<TypeModel>, n: nat)
    requires
        0 < n <= fields.len(),
    ensures
        exists|i: int| 0 <= i < n && (#[trigger] fields[i]).align_of() == max_align(fields, n),
    decreases n,
{
    assert(max_align(fields, 0) == 0);
    if max_align(fields, n) == fields[n - 1].align_of() {
        assert(fields[n - 1].align_of() == max_align(fields, n));
    } else {
        lemma_max_align_attained(fields, (n - 1) as nat);
        let i = choose|i: int| 0 <= i < n - 1 && (#[trigger] fields[i]).align_of() == max_align(fields, (n - 1) as nat);
        assert(fields[i].align_of() == max_align(fields, n));
    }
}

/// In a padded composite every field starts at the first multiple of
/// its own alignment at or after the end of the field before it.
pub proof fn lemma_field_aligned(m: TypeModel, i: nat)
    requires
        m.is_composite(),
        m.padded(),
        i < m.fields().len(),
        m.fields()[i as int].align_of() > 0,
    ensures
        field_offset(m.fields(), true, i) % m.fields()[i as int].align_of() == 0,
        forall|k: nat|
            end_offset(m.fields(), true, i) <= k < field_offset(m.fields(), true, i) ==> #[trigger] (k
                % m.fields()[i as int].align_of()) != 0,
{
    let previous = end_offset(m.fields(), true, i);
    let alignment = m.fields()[i as int].align_of();
    lemma_padding_aligns(previous, alignment);
    assert forall|k: nat| previous <= k < field_offset(m.fields(), true, i) implies #[trigger] (k
        % alignment) != 0 by {
        lemma_padding_minimal(previous, alignment, k);
    }
}

/// The size of a padded composite is the smallest multiple of its
/// alignment that is no less than the end of its last field.
pub proof fn lemma_padded_size(m: TypeModel)
    requires
        m.is_composite(),
        m.padded(),
    ensures
        m.size_of() >= end_offset(m.fields(), true, m.fields().len()),
        m.align_of() == 0 ==> m.size_of() == end_offset(m.fields(), true, m.fields().len()),
        m.align_of() > 0 ==> m.size_of() % m.align_of() == 0,
        forall|k: nat|
            end_offset(m.fields(), true, m.fields().len()) <= k < m.size_of() ==> m.align_of() > 0
                && #[trigger] (k % m.align_of()) != 0,
{
    let end = end_offset(m.fields(), true, m.fields().len());
    let alignment = m.align_of();
    if alignment > 0 {
        lemma_padding_aligns(end, alignment);
        assert forall|k: nat| end <= k < m.size_of() implies #[trigger] (k % alignment) != 0 by {
            lemma_padding_minimal(end, alignment, k);
        }
    }
}

/// The sizes of the first `n` fields, added up.
pub open spec fn total_size(fields: Seq<TypeModel>, n: nat) -> nat
    decreases n,
{
    if n == 0 || n > fields.len() {
        0
    } else {
        total_size(fields, (n - 1) as nat) + fields[n - 1].size_of()
    }
}

/// Without padding the fields are packed: each starts where the sizes
/// of the fields before it add up to.
pub proof fn lemma_packed_offsets(fields: Seq<TypeModel>, n: nat)
    requires
        n <= fields.len(),
    ensures
        end_offset(fields, false, n) == total_size(fields, n),
        field_offset(fields, false, n) == total_size(fields, n),
    decreases n,
{
    if n > 0 {
        lemma_packed_offsets(fields, (n - 1) as nat);
    }
}

/// A composite that is not padded is as large as its fields together.
pub proof fn lemma_packed_size(m: TypeModel)
    requires
        m.is_composite(),
        !m.padded(),
    ensures
        m.size_of() == total_size(m.fields(), m.fields().len()),
{
    lemma_packed_offsets(m.fields(), m.fields().len());
}

/// The bytes that the helper routines move for a field: the routine
/// `into` writes that many at the field's offset, and the routine
/// `from` reads that many back. A primitive moves as wide as its
/// accessor, a pointer or a string as wide as a pointer, a buffer all
/// its elements, and a nested composite its whole blob.
pub open spec fn moved_bytes(field: TypeModel) -> nat {
    match field {
        TypeModel::Primitive(native) => native.width(),
        TypeModel::Pointer(_) | TypeModel::CString => pointer_width(),
        TypeModel::Buffer(ty, length) => match length {
            Some(n) => buffer_bytes(ty, n),
            None => 0,
        },
        TypeModel::Struct(_) | TypeModel::Tuple(_) => field.size_of(),
    }
}

/// The routines move exactly the bytes that the layout gives a field:
/// as many as its size.
pub proof fn lemma_moved_bytes(field: TypeModel)
    ensures
        moved_bytes(field) == field.size_of(),
{
}

/// The bytes moved for different fields do not overlap, and none lie
/// past the composite's end: what is moved for a field ends before
/// the next field starts.
pub proof fn lemma_fields_disjoint(m: TypeModel, i: nat, j: nat)
    requires
        m.is_composite(),
        i < j < m.fields().len(),
    ensures
        field_offset(m.fields(), m.padded(), i) + moved_bytes(m.fields()[i as int]) <= field_offset(
            m.fields(),
            m.padded(),
            j,
        ),
        field_offset(m.fields(), m.padded(), j) + moved_bytes(m.fields()[j as int]) <= m.size_of(),
{
    lemma_moved_bytes(m.fields()[i as int]);
    lemma_moved_bytes(m.fields()[j as int]);
    lemma_end_offset_monotonic(m.fields(), m.padded(), i + 1, j);
    lemma_end_offset_monotonic(m.fields(), m.padded(), j + 1, m.fields().len());
}

/// The bytes that bring `offset` up to a multiple of `alignment`.
pub fn calculate_padding(offset: usize, alignment: usize) -> (p: usize)
    ensures
        p == padding(offset as nat, alignment as nat),
{
    if alignment == 0 {
        0
    } else {
        let misalignment = offset % alignment;
        if misalignment > 0 {
            alignment - misalignment
        } else {
            0
        }
    }
}

impl NativeType {
    /// The size in bytes of a value of this kind; zero for void.
    pub fn byte_width(&self) -> (w: usize)
        ensures
            w == self.width(),
    {
        match self {
            NativeType::Void => 0,
            NativeType::U8 | NativeType::I8 => 1,
            NativeType::U16 | NativeType::I16 => 2,
            NativeType::U32 | NativeType::I32 | NativeType::F32 => 4,
            NativeType::U64
            | NativeType::I64
            | NativeType::USize
            | NativeType::ISize
            | NativeType::F64
            | NativeType::Pointer => 8,
        }
    }
}

impl BufferType {
    /// The size in bytes of one element.
    pub fn byte_width(&self) -> (w: usize)
        ensures
            w == self.width(),
    {
        match self {
            BufferType::Untyped | BufferType::U8 | BufferType::I8 => 1,
            BufferType::U16 | BufferType::I16 => 2,
            BufferType::U32 | BufferType::I32 | BufferType::F32 => 4,
            BufferType::U64
            | BufferType::I64
            | BufferType::USize
            | BufferType::ISize
            | BufferType::F64 => 8,
        }
    }
}

impl TypeDefinition {
    /// The number of fields of a composite; zero for the other types.
    pub fn field_count(&self) -> (n: usize)
        ensures
            n == self@.fields().len(),
    {
        proof {
            reveal_with_fuel(TypeDefinition::model, 2);
        }
        match self {
            TypeDefinition::Struct(s) => s.fields.len(),
            TypeDefinition::Tuple(t) => t.fields.len(),
            _ => 0,
        }
    }

    /// Field `i` of a composite.
    pub fn field(&self, i: usize) -> (f: &TypeDefinition)
        requires
            i < self@.fields().len(),
        ensures
            f@ == self@.fields()[i as int],
    {
        proof {
            reveal_with_fuel(TypeDefinition::model, 2);
        }
        match self {
            TypeDefinition::Struct(s) => &s.fields[i].1,
            TypeDefinition::Tuple(t) => &t.fields[i],
            _ => self,
        }
    }

    /// Whether this is a composite that pads its fields.
    pub fn is_padded(&self) -> (p: bool)
        ensures
            p == self@.padded(),
    {
        proof {
            reveal_with_fuel(TypeDefinition::model, 2);
        }
        match self {
            TypeDefinition::Struct(s) => s.padded,
            TypeDefinition::Tuple(t) => t.padded,
            _ => false,
        }
    }

    /// The alignment of the type in bytes. Fails with
    /// [`Error::UnsupportedLayout`] exactly where the type has no size:
    /// it is void or a buffer of open length, or holds one as a field.
    pub fn align_of(&self) -> (r: Result<usize, Error>)
        ensures
            r is Ok <==> self@.sized(),
            r matches Ok(a) ==> a == self@.align_of(),
            r matches Err(e) ==> e is UnsupportedLayout,
        decreases self@.depth(),
    {
        match self {
            TypeDefinition::Primitive(p) => {
                match p.native {
                    NativeType::Void => Err(Error::UnsupportedLayout),
                    _ => Ok(p.native.byte_width()),
                }
            },
            TypeDefinition::Pointer(_) | TypeDefinition::CString => Ok(8),
            TypeDefinition::Buffer(buffer) => {
                match buffer.length {
                    Some(_) => Ok(buffer.ty.byte_width()),
                    None => Err(Error::UnsupportedLayout),
                }
            },
            TypeDefinition::Struct(_) | TypeDefinition::Tuple(_) => {
                let n = self.field_count();
                let mut align: usize = 0;
                let mut i: usize = 0;
                while i < n
                    invariant
                        0 <= i <= n,
                        n == self@.fields().len(),
                        align == max_align(self@.fields(), i as nat),
                        all_sized(self@.fields(), i as nat),
                    decreases n - i,
                {
                    let field = self.field(i);
                    proof {
                        lemma_field_depth(self@, i as nat);
                    }
                    match field.align_of() {
                        Ok(a) => {
                            if a > align {
                                align = a;
                            }
                        },
                        Err(e) => {
                            proof {
                                if all_sized(self@.fields(), n as nat) {
                                    lemma_all_sized(self@.fields(), n as nat, i as nat);
                                }
                            }
                            return Err(e);
                        },
                    }
                    i = i + 1;
                }
                Ok(align)
            },
        }
    }

    /// The size of the type in bytes. Fails with
    /// [`Error::UnsupportedLayout`] exactly where the type has no size
    /// or its size does not fit the machine's address range.
    pub fn size_of(&self) -> (r: Result<usize, Error>)
        ensures
            r is Ok <==> self@.sized() && self@.size_of() <= usize::MAX,
            r matches Ok(n) ==> n == self@.size_of(),
            r matches Err(e) ==> e is UnsupportedLayout,
        decreases self@.depth(),
    {
        match self {
            TypeDefinition::Primitive(p) => {
                match p.native {
                    NativeType::Void => Err(Error::UnsupportedLayout),
                    _ => Ok(p.native.byte_width()),
                }
            },
            TypeDefinition::Pointer(_) | TypeDefinition::CString => Ok(8),
            TypeDefinition::Buffer(buffer) => {
                match buffer.length {
                    Some(length) => {
                        match length.checked_mul(buffer.ty.byte_width()) {
                            Some(bytes) => Ok(bytes),
                            None => Err(Error::UnsupportedLayout),
                        }
                    },
                    None => Err(Error::UnsupportedLayout),
                }
            },
            TypeDefinition::Struct(_) | TypeDefinition::Tuple(_) => {
                let n = self.field_count();
                let padded = self.is_padded();
                let ghost fields = self@.fields();
                let mut offset: usize = 0;
                let mut align: usize = 0;
                let mut i: usize = 0;
                while i < n
                    invariant
                        0 <= i <= n,
                        n == fields.len(),
                        fields == self@.fields(),
                        padded == self@.padded(),
                        offset == end_offset(fields, padded, i as nat),
                        align == max_align(fields, i as nat),
                        all_sized(fields, i as nat),
                    decreases n - i,
                {
                    let field = self.field(i);
                    proof {
                        lemma_field_depth(self@, i as nat);
                        lemma_align_bound(field@);
                        lemma_end_offset_monotonic(fields, padded, (i + 1) as nat, n as nat);
                        if all_sized(fields, n as nat) {
                            lemma_all_sized(fields, n as nat, i as nat);
                        }
                    }
                    let a = match field.align_of() {
                        Ok(a) => a,
                        Err(e) => {
                            return Err(e);
                        },
                    };
                    let s = match field.size_of() {
                        Ok(s) => s,
                        Err(e) => {
                            return Err(e);
                        },
                    };
                    let pad = if padded {
                        calculate_padding(offset, a)
                    } else {
                        0
                    };
                    let start = match offset.checked_add(pad) {
                        Some(start) => start,
                        None => {
                            return Err(Error::UnsupportedLayout);
                        },
                    };
                    offset = match start.checked_add(s) {
                        Some(end) => end,
                        None => {
                            return Err(Error::UnsupportedLayout);
                        },
                    };
                    if a > align {
                        align = a;
                    }
                    i = i + 1;
                }
                proof {
                    lemma_max_align_bound(fields, n as nat);
                }
                let pad = if padded {
                    calculate_padding(offset, align)
                } else {
                    0
                };
                match offset.checked_add(pad) {
                    Some(size) => Ok(size),
                    None => Err(Error::UnsupportedLayout),
                }
            },
        }
    }
}

} // verus!

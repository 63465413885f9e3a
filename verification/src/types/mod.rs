//! Type definitions, their mathematical model and their memory layout.
use vstd::prelude::*;

pub mod layout;
pub mod native;
pub mod primitive;
pub mod pointer;
pub mod buffer;
pub mod composite;
pub mod cstring;
pub mod describe;
pub mod duplicate;
pub mod structure;
pub mod tuple;

use crate::types::primitive::Primitive;
use crate::types::pointer::Pointer;
use crate::types::buffer::Buffer;
use crate::types::structure::Struct;
use crate::types::tuple::Tuple;

verus! {

/// The scalar categories that can cross the raw call boundary.
#[derive(Clone, Copy, Debug, PartialEq, Eq, Structural)]
pub enum NativeType {
    Void,
    U8,
    I8,
    U16,
    I16,
    U32,
    I32,
    U64,
    I64,
    USize,
    ISize,
    F32,
    F64,
    Pointer,
}

/// The element kinds of a buffer; `Untyped` is raw bytes.
#[derive(Clone, Copy, Debug, PartialEq, Eq, Structural)]
pub enum BufferType {
    Untyped,
    U8,
    I8,
    U16,
    I16,
    U32,
    I32,
    U64,
    I64,
    USize,
    ISize,
    F32,
    F64,
}

/// A declared type.
#[derive(Debug)]
pub enum TypeDefinition {
    Primitive(Primitive),
    Pointer(Pointer),
    Buffer(Buffer),
    CString,
    Struct(Struct),
    Tuple(Tuple),
}

/// What a struct or a tuple is made of.
pub ghost struct Composite {
    pub identifier: Option<Seq<char>>,
    pub padded: bool,
    pub names: Seq<Seq<char>>,
    pub fields: Seq<TypeModel>,
}

/// The mathematical value of a [`TypeDefinition`].
pub ghost enum TypeModel {
    Primitive(NativeType),
    Pointer(Box<TypeModel>),
    Buffer(BufferType, Option<usize>),
    CString,
    Struct(Composite),
    Tuple(Composite),
}

impl TypeDefinition {
    /// The mathematical value of this definition.
    pub open spec fn model(&self) -> TypeModel
        decreases self,
    {
        match self {
            TypeDefinition::Primitive(p) => TypeModel::Primitive(p.native),
            TypeDefinition::Pointer(p) => TypeModel::Pointer(Box::new((*p.target).model())),
            TypeDefinition::Buffer(b) => TypeModel::Buffer(b.ty, b.length),
            TypeDefinition::CString => TypeModel::CString,
            TypeDefinition::Struct(s) => TypeModel::Struct(s.model()),
            TypeDefinition::Tuple(t) => TypeModel::Tuple(t.model()),
        }
    }
}

/// How values of one type are converted in both directions.
#[derive(Debug)]
pub struct TypeConverter {
    /// Source fragments that must stand once in the output before the
    /// templates are used; in order, none twice.
    pub globals: Vec<String>,
    /// The type of the managed value.
    pub typescript: String,
    /// Template from the managed value to the raw one.
    pub into: String,
    /// Template from the raw value to the managed one.
    pub from: String,
}

/// A type as the call boundary sees it: its native kind and converter.
#[derive(Debug)]
pub struct TypeDescriptor {
    pub native: NativeType,
    pub converter: TypeConverter,
}

/// The mathematical value of a [`TypeConverter`].
pub ghost struct ConverterModel {
    pub globals: Seq<Seq<char>>,
    pub typescript: Seq<char>,
    pub into: Seq<char>,
    pub from: Seq<char>,
}

/// The mathematical value of a [`TypeDescriptor`].
pub ghost struct DescriptorModel {
    pub native: NativeType,
    pub converter: ConverterModel,
}

impl View for TypeConverter {
    type V = ConverterModel;

    open spec fn view(&self) -> ConverterModel {
        ConverterModel {
            globals: self.globals.deep_view(),
            typescript: self.typescript@,
            into: self.into@,
            from: self.from@,
        }
    }
}

impl View for TypeDescriptor {
    type V = DescriptorModel;

    open spec fn view(&self) -> DescriptorModel {
        DescriptorModel { native: self.native, converter: self.converter@ }
    }
}

/// An empty list of helpers.
pub fn no_helpers() -> (v: Vec<String>)
    ensures
        v.deep_view() == Seq::<Seq<char>>::empty(),
{
    let v: Vec<String> = Vec::new();
    assert(v.deep_view() =~= Seq::<Seq<char>>::empty());
    v
}

impl TypeDescriptor {
    /// Whether a function with this result type returns a value: all
    /// but void do.
    pub fn returns_value(&self) -> (r: bool)
        ensures
            r == (self.native != NativeType::Void),
    {
        !matches!(self.native, NativeType::Void)
    }
}

/// The bytes by which `offset` must grow to become a multiple of
/// `alignment`; nothing where `alignment` is zero.
pub open spec fn padding(offset: nat, alignment: nat) -> nat {
    if alignment == 0 || offset % alignment == 0 {
        0
    } else {
        (alignment - offset % alignment) as nat
    }
}

/// The width of a pointer at the call boundary, in bytes.
pub open spec fn pointer_width() -> nat {
    8
}

/// The bytes that a buffer of `length` elements of kind `ty` occupies.
pub open spec fn buffer_bytes(ty: BufferType, length: usize) -> nat {
    (length * ty.width()) as nat
}

impl NativeType {
    /// The size in bytes of a value of this kind, which is also its
    /// alignment; void has none.
    pub open spec fn width(self) -> nat {
        match self {
            NativeType::Void => 0,
            NativeType::U8 | NativeType::I8 => 1,
            NativeType::U16 | NativeType::I16 => 2,
            NativeType::U32 | NativeType::I32 | NativeType::F32 => 4,
            NativeType::U64
            | NativeType::I64
            | NativeType::USize
            | NativeType::ISize
            | NativeType::F64
            | NativeType::Pointer => 8,
        }
    }
}

impl BufferType {
    /// The size in bytes of one element; untyped buffers count bytes.
    pub open spec fn width(self) -> nat {
        match self {
            BufferType::Untyped | BufferType::U8 | BufferType::I8 => 1,
            BufferType::U16 | BufferType::I16 => 2,
            BufferType::U32 | BufferType::I32 | BufferType::F32 => 4,
            BufferType::U64
            | BufferType::I64
            | BufferType::USize
            | BufferType::ISize
            | BufferType::F64 => 8,
        }
    }
}

impl TypeModel {
    /// The fields of a composite, in declaration order; none for the
    /// other types.
    pub open spec fn fields(self) -> Seq<TypeModel> {
        match self {
            TypeModel::Struct(c) | TypeModel::Tuple(c) => c.fields,
            _ => Seq::empty(),
        }
    }

    /// Whether a composite pads its fields; false for the other types.
    pub open spec fn padded(self) -> bool {
        match self {
            TypeModel::Struct(c) | TypeModel::Tuple(c) => c.padded,
            _ => false,
        }
    }

    /// How deeply types nest inside this one.
    pub open spec fn depth(self) -> nat
        decreases self, 0nat,
    {
        match self {
            TypeModel::Pointer(target) => 1 + target.depth(),
            TypeModel::Struct(c) | TypeModel::Tuple(c) => 1 + max_depth(c.fields, c.fields.len()),
            _ => 0,
        }
    }

    /// Whether the type has a size: it is not void, not a buffer of
    /// open length and, for a composite, every field has a size.
    pub open spec fn sized(self) -> bool
        decreases self, 0nat,
    {
        match self {
            TypeModel::Primitive(native) => native != NativeType::Void,
            TypeModel::Buffer(_, length) => length is Some,
            TypeModel::Struct(c) | TypeModel::Tuple(c) => all_sized(c.fields, c.fields.len()),
            _ => true,
        }
    }

    /// The alignment in bytes: the width of a primitive, the pointer
    /// width of a pointer or a string, the width of one element of a
    /// buffer, and for a composite the largest alignment among its
    /// fields, zero where it has none.
    pub open spec fn align_of(self) -> nat
        decreases self, 0nat,
    {
        match self {
            TypeModel::Primitive(native) => native.width(),
            TypeModel::Pointer(_) | TypeModel::CString => pointer_width(),
            TypeModel::Buffer(ty, _) => ty.width(),
            TypeModel::Struct(c) | TypeModel::Tuple(c) => max_align(c.fields, c.fields.len()),
        }
    }

    /// The size in bytes. A buffer takes the bytes of all its
    /// elements. A composite ends where its last field ends, rounded
    /// up to its alignment if it is padded.
    pub open spec fn size_of(self) -> nat
        decreases self, 0nat,
    {
        match self {
            TypeModel::Primitive(native) => native.width(),
            TypeModel::Pointer(_) | TypeModel::CString => pointer_width(),
            TypeModel::Buffer(ty, length) => match length {
                Some(n) => buffer_bytes(ty, n),
                None => 0,
            },
            TypeModel::Struct(c) | TypeModel::Tuple(c) => {
                let end = end_offset(c.fields, c.padded, c.fields.len());
                if c.padded {
                    end + padding(end, max_align(c.fields, c.fields.len()))
                } else {
                    end
                }
            },
        }
    }
}

/// The greatest depth among the first `n` of `fields`.
pub open spec fn max_depth(fields: Seq<TypeModel>, n: nat) -> nat
    decreases fields, n,
{
    if n == 0 || n > fields.len() {
        0
    } else {
        let rest = max_depth(fields, (n - 1) as nat);
        let last = fields[n - 1].depth();
        if last > rest {
            last
        } else {
            rest
        }
    }
}

/// Whether each of the first `n` of `fields` has a size.
pub open spec fn all_sized(fields: Seq<TypeModel>, n: nat) -> bool
    decreases fields, n,
{
    if n == 0 || n > fields.len() {
        true
    } else {
        all_sized(fields, (n - 1) as nat) && fields[n - 1].sized()
    }
}

/// The greatest alignment among the first `n` of `fields`.
pub open spec fn max_align(fields: Seq<TypeModel>, n: nat) -> nat
    decreases fields, n,
{
    if n == 0 || n > fields.len() {
        0
    } else {
        let rest = max_align(fields, (n - 1) as nat);
        let last = fields[n - 1].align_of();
        if last > rest {
            last
        } else {
            rest
        }
    }
}

/// Where the first `n` of `fields` end: the offset of the first byte
/// after field `n - 1`.
pub open spec fn end_offset(fields: Seq<TypeModel>, padded: bool, n: nat) -> nat
    decreases fields, n,
{
    if n == 0 || n > fields.len() {
        0
    } else {
        let previous = end_offset(fields, padded, (n - 1) as nat);
        let start = if padded {
            previous + padding(previous, fields[n - 1].align_of())
        } else {
            previous
        };
        start + fields[n - 1].size_of()
    }
}

/// Where field `i` starts: the end of the fields before it, moved up
/// to the field's own alignment if the composite is padded.
pub open spec fn field_offset(fields: Seq<TypeModel>, padded: bool, i: nat) -> nat {
    let previous = end_offset(fields, padded, i);
    if padded && i < fields.len() {
        previous + padding(previous, fields[i as int].align_of())
    } else {
        previous
    }
}

impl View for TypeDefinition {
    type V = TypeModel;

    open spec fn view(&self) -> TypeModel {
        self.model()
    }
}

} // verus!

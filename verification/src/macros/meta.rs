//! The types that extraction recognises, and the record it keeps of a
//! native library.
use vstd::prelude::*;
use vstd::string::*;
use crate::text::same;

verus! {

/// The type of a parameter or of a result of a native function.
#[derive(Debug)]
pub enum Type {
    I8,
    U8,
    I16,
    U16,
    I32,
    U32,
    I64,
    U64,
    F32,
    F64,
    Usize,
    Isize,
    Void,
    Buffer,
    BufferMut,
    Str,
    Ptr,
    /// A struct or an enum of the native library, by its name.
    StructEnum { ident: String },
}

/// The type of a value as it crosses the boundary.
#[derive(Clone, Copy, Debug, PartialEq, Eq, Structural)]
pub enum CType {
    I8,
    U8,
    I16,
    U16,
    I32,
    U32,
    I64,
    U64,
    F32,
    F64,
    Usize,
    Isize,
    Void,
    Buffer,
    BufferMut,
    Str,
    Ptr,
}

impl Type {
    /// The type as it crosses the boundary: a struct or an enum
    /// crosses as a pointer, anything else as itself.
    pub open spec fn boundary(&self) -> CType {
        match self {
            Type::I8 => CType::I8,
            Type::U8 => CType::U8,
            Type::I16 => CType::I16,
            Type::U16 => CType::U16,
            Type::I32 => CType::I32,
            Type::U32 => CType::U32,
            Type::I64 => CType::I64,
            Type::U64 => CType::U64,
            Type::F32 => CType::F32,
            Type::F64 => CType::F64,
            Type::Usize => CType::Usize,
            Type::Isize => CType::Isize,
            Type::Void => CType::Void,
            Type::Buffer => CType::Buffer,
            Type::BufferMut => CType::BufferMut,
            Type::Str => CType::Str,
            Type::Ptr => CType::Ptr,
            Type::StructEnum { .. } => CType::Ptr,
        }
    }
}

impl Type {
    /// The name of the struct or enum, if the type is one.
    pub open spec fn struct_name(&self) -> Option<Seq<char>> {
        match self {
            Type::StructEnum { ident } => Some(ident@),
            _ => None,
        }
    }
}

impl View for Type {
    type V = (CType, Option<Seq<char>>);

    /// The type by how it crosses the boundary and, for a struct or an
    /// enum, by its name.
    open spec fn view(&self) -> (CType, Option<Seq<char>>) {
        (self.boundary(), self.struct_name())
    }
}

impl Clone for Type {
    fn clone(&self) -> (copy: Type)
        ensures
            copy@ == self@,
    {
        match self {
            Type::I8 => Type::I8,
            Type::U8 => Type::U8,
            Type::I16 => Type::I16,
            Type::U16 => Type::U16,
            Type::I32 => Type::I32,
            Type::U32 => Type::U32,
            Type::I64 => Type::I64,
            Type::U64 => Type::U64,
            Type::F32 => Type::F32,
            Type::F64 => Type::F64,
            Type::Usize => Type::Usize,
            Type::Isize => Type::Isize,
            Type::Void => Type::Void,
            Type::Buffer => Type::Buffer,
            Type::BufferMut => Type::BufferMut,
            Type::Str => Type::Str,
            Type::Ptr => Type::Ptr,
            Type::StructEnum { ident } => Type::StructEnum { ident: ident.clone() },
        }
    }
}

/// Types in a list, each by its value.
pub open spec fn meta_views(types: Seq<Type>) -> Seq<(CType, Option<Seq<char>>)> {
    Seq::new(types.len(), |i: int| types[i]@)
}

impl CType {
    /// The type as it crosses the boundary.
    pub fn from(ty: &Type) -> (c: CType)
        ensures
            c == ty.boundary(),
    {
        match ty {
            Type::I8 => CType::I8,
            Type::U8 => CType::U8,
            Type::I16 => CType::I16,
            Type::U16 => CType::U16,
            Type::I32 => CType::I32,
            Type::U32 => CType::U32,
            Type::I64 => CType::I64,
            Type::U64 => CType::U64,
            Type::F32 => CType::F32,
            Type::F64 => CType::F64,
            Type::Usize => CType::Usize,
            Type::Isize => CType::Isize,
            Type::Void => CType::Void,
            Type::Buffer => CType::Buffer,
            Type::BufferMut => CType::BufferMut,
            Type::Str => CType::Str,
            Type::Ptr => CType::Ptr,
            Type::StructEnum { .. } => CType::Ptr,
        }
    }
}

/// A native function: the types of its parameters and of its result,
/// and whether calls of it do not block.
#[derive(Debug)]
pub struct Symbol {
    pub parameters: Vec<Type>,
    pub result: Type,
    pub non_blocking: bool,
}

/// The record of a native library. Each list pairs a name with what is
/// recorded under it.
#[derive(Debug)]
pub struct Glue {
    pub name: String,
    pub little_endian: bool,
    pub symbols: Vec<(String, Symbol)>,
    pub type_defs: Vec<(String, Vec<(String, String)>)>,
    pub ts_types: Vec<(String, String)>,
}

/// The managed type that stands for a native type name: numbers for
/// the number types, `boolean` and `string` for theirs, the matching
/// collections for the std collections, `any` for a free-form value,
/// and any other name for itself.
pub open spec fn managed_type(name: Seq<char>) -> Seq<char> {
    if name == "i8"@ || name == "i16"@ || name == "i32"@ || name == "i64"@ || name == "u8"@ || name
        == "u16"@ || name == "u32"@ || name == "u64"@ || name == "usize"@ || name == "f32"@ || name
        == "f64"@ {
        "number"@
    } else if name == "bool"@ {
        "boolean"@
    } else if name == "String"@ || name == "str"@ {
        "string"@
    } else if name == "HashMap"@ {
        "Record"@
    } else if name == "Vec"@ || name == "HashSet"@ {
        "Array"@
    } else if name == "Value"@ {
        "any"@
    } else {
        name
    }
}

/// The managed type that stands for the native type name `ty`.
pub fn rs_to_ts(ty: &str) -> (s: String)
    ensures
        s@ == managed_type(ty@),
{
    if same(ty, "i8") || same(ty, "i16") || same(ty, "i32") || same(ty, "i64") || same(ty, "u8")
        || same(ty, "u16") || same(ty, "u32") || same(ty, "u64") || same(ty, "usize") || same(
        ty,
        "f32",
    ) || same(ty, "f64") {
        String::from_str("number")
    } else if same(ty, "bool") {
        String::from_str("boolean")
    } else if same(ty, "String") || same(ty, "str") {
        String::from_str("string")
    } else if same(ty, "HashMap") {
        String::from_str("Record")
    } else if same(ty, "Vec") || same(ty, "HashSet") {
        String::from_str("Array")
    } else if same(ty, "Value") {
        String::from_str("any")
    } else {
        String::from_str(ty)
    }
}

} // verus!

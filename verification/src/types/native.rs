//! The names that native kinds and buffer elements go by in generated
//! source.
use vstd::prelude::*;
use vstd::string::*;
use crate::types::{BufferType, NativeType};

verus! {

impl NativeType {
    /// The name of the kind in a raw call-table declaration.
    pub open spec fn name_text(self) -> Seq<char> {
        match self {
            NativeType::Void => "void"@,
            NativeType::U8 => "u8"@,
            NativeType::I8 => "i8"@,
            NativeType::U16 => "u16"@,
            NativeType::I16 => "i16"@,
            NativeType::U32 => "u32"@,
            NativeType::I32 => "i32"@,
            NativeType::U64 => "u64"@,
            NativeType::I64 => "i64"@,
            NativeType::USize => "usize"@,
            NativeType::ISize => "isize"@,
            NativeType::F32 => "f32"@,
            NativeType::F64 => "f64"@,
            NativeType::Pointer => "pointer"@,
        }
    }

    /// The accessor stem of the kind on a data view: what follows `get`
    /// or `set`. Void has none.
    pub open spec fn accessor_stem(self) -> Seq<char> {
        match self {
            NativeType::Void => Seq::empty(),
            NativeType::U8 => "Uint8"@,
            NativeType::I8 => "Int8"@,
            NativeType::U16 => "Uint16"@,
            NativeType::I16 => "Int16"@,
            NativeType::U32 => "Uint32"@,
            NativeType::I32 => "Int32"@,
            NativeType::Pointer | NativeType::USize | NativeType::U64 => "BigUint64"@,
            NativeType::ISize | NativeType::I64 => "BigInt64"@,
            NativeType::F32 => "Float32"@,
            NativeType::F64 => "Float64"@,
        }
    }

    /// The data-view method that reads a value of this kind.
    pub open spec fn getter_text(self) -> Seq<char> {
        "get"@ + self.accessor_stem()
    }

    /// The data-view method that writes a value of this kind.
    pub open spec fn setter_text(self) -> Seq<char> {
        "set"@ + self.accessor_stem()
    }

    /// The buffer element kind as wide as this kind: a pointer counts
    /// as an unsigned 64-bit integer, void as untyped.
    pub open spec fn element(self) -> BufferType {
        match self {
            NativeType::U8 => BufferType::U8,
            NativeType::I8 => BufferType::I8,
            NativeType::U16 => BufferType::U16,
            NativeType::I16 => BufferType::I16,
            NativeType::U32 => BufferType::U32,
            NativeType::I32 => BufferType::I32,
            NativeType::U64 => BufferType::U64,
            NativeType::I64 => BufferType::I64,
            NativeType::USize => BufferType::USize,
            NativeType::ISize => BufferType::ISize,
            NativeType::F32 => BufferType::F32,
            NativeType::F64 => BufferType::F64,
            NativeType::Pointer => BufferType::U64,
            NativeType::Void => BufferType::Untyped,
        }
    }

    /// The name of the kind in a raw call-table declaration.
    pub fn name(&self) -> (s: String)
        ensures
            s@ == self.name_text(),
    {
        String::from_str(
            match self {
                NativeType::Void => "void",
                NativeType::U8 => "u8",
                NativeType::I8 => "i8",
                NativeType::U16 => "u16",
                NativeType::I16 => "i16",
                NativeType::U32 => "u32",
                NativeType::I32 => "i32",
                NativeType::U64 => "u64",
                NativeType::I64 => "i64",
                NativeType::USize => "usize",
                NativeType::ISize => "isize",
                NativeType::F32 => "f32",
                NativeType::F64 => "f64",
                NativeType::Pointer => "pointer",
            },
        )
    }

    fn stem(&self) -> (s: &'static str)
        requires
            !(self is Void),
        ensures
            s@ == self.accessor_stem(),
    {
        match self {
            NativeType::U8 => "Uint8",
            NativeType::I8 => "Int8",
            NativeType::U16 => "Uint16",
            NativeType::I16 => "Int16",
            NativeType::U32 => "Uint32",
            NativeType::I32 => "Int32",
            NativeType::Pointer | NativeType::USize | NativeType::U64 => "BigUint64",
            NativeType::ISize | NativeType::I64 => "BigInt64",
            NativeType::F32 => "Float32",
            NativeType::F64 => "Float64",
            NativeType::Void => "",
        }
    }

    /// The data-view method that reads a value of this kind. Void has
    /// no value to read.
    pub fn data_view_getter(&self) -> (s: String)
        requires
            !(self is Void),
        ensures
            s@ == self.getter_text(),
    {
        String::from_str("get").concat(self.stem())
    }

    /// The data-view method that writes a value of this kind. Void has
    /// no value to write.
    pub fn data_view_setter(&self) -> (s: String)
        requires
            !(self is Void),
        ensures
            s@ == self.setter_text(),
    {
        String::from_str("set").concat(self.stem())
    }

    /// The buffer element kind as wide as this kind.
    pub fn buffer_type(&self) -> (b: BufferType)
        ensures
            b == self.element(),
    {
        match self {
            NativeType::U8 => BufferType::U8,
            NativeType::I8 => BufferType::I8,
            NativeType::U16 => BufferType::U16,
            NativeType::I16 => BufferType::I16,
            NativeType::U32 => BufferType::U32,
            NativeType::I32 => BufferType::I32,
            NativeType::U64 => BufferType::U64,
            NativeType::I64 => BufferType::I64,
            NativeType::USize => BufferType::USize,
            NativeType::ISize => BufferType::ISize,
            NativeType::F32 => BufferType::F32,
            NativeType::F64 => BufferType::F64,
            NativeType::Pointer => BufferType::U64,
            NativeType::Void => BufferType::Untyped,
        }
    }
}

impl From<NativeType> for BufferType {
    /// The buffer element kind as wide as a native kind.
    fn from(native: NativeType) -> (element: BufferType) {
        native.buffer_type()
    }
}

impl vstd::std_specs::convert::FromSpecImpl<NativeType> for BufferType {
    open spec fn obeys_from_spec() -> bool {
        true
    }

    open spec fn from_spec(native: NativeType) -> BufferType {
        native.element()
    }
}

impl BufferType {
    /// The name of the kind in a signature.
    pub open spec fn name_text(self) -> Seq<char> {
        match self {
            BufferType::Untyped => "bytes"@,
            BufferType::U8 => "u8"@,
            BufferType::I8 => "i8"@,
            BufferType::U16 => "u16"@,
            BufferType::I16 => "i16"@,
            BufferType::U32 => "u32"@,
            BufferType::I32 => "i32"@,
            BufferType::U64 => "u64"@,
            BufferType::I64 => "i64"@,
            BufferType::USize => "usize"@,
            BufferType::ISize => "isize"@,
            BufferType::F32 => "f32"@,
            BufferType::F64 => "f64"@,
        }
    }

    /// The array type that views elements of this kind.
    pub open spec fn typed_array_text(self) -> Seq<char> {
        match self {
            BufferType::Untyped => "ArrayBuffer"@,
            BufferType::U8 => "Uint8Array"@,
            BufferType::I8 => "Int8Array"@,
            BufferType::U16 => "Uint16Array"@,
            BufferType::I16 => "Int16Array"@,
            BufferType::U32 => "Uint32Array"@,
            BufferType::I32 => "Int32Array"@,
            BufferType::U64 | BufferType::USize => "BigUint64Array"@,
            BufferType::I64 | BufferType::ISize => "BigInt64Array"@,
            BufferType::F32 => "Float32Array"@,
            BufferType::F64 => "Float64Array"@,
        }
    }

    /// The pointer-view method that reads one element of this kind.
    /// Untyped bytes have none.
    pub open spec fn getter_text(self) -> Seq<char> {
        match self {
            BufferType::Untyped => Seq::empty(),
            BufferType::U8 => "getUint8"@,
            BufferType::I8 => "getInt8"@,
            BufferType::U16 => "getUint16"@,
            BufferType::I16 => "getInt16"@,
            BufferType::U32 => "getUint32"@,
            BufferType::I32 => "getInt32"@,
            BufferType::USize | BufferType::U64 => "getBigUint64"@,
            BufferType::ISize | BufferType::I64 => "getBigInt64"@,
            BufferType::F32 => "getFloat32"@,
            BufferType::F64 => "getFloat64"@,
        }
    }

    /// The name of the kind in a signature.
    pub fn name(&self) -> (s: String)
        ensures
            s@ == self.name_text(),
    {
        String::from_str(
            match self {
                BufferType::Untyped => "bytes",
                BufferType::U8 => "u8",
                BufferType::I8 => "i8",
                BufferType::U16 => "u16",
                BufferType::I16 => "i16",
                BufferType::U32 => "u32",
                BufferType::I32 => "i32",
                BufferType::U64 => "u64",
                BufferType::I64 => "i64",
                BufferType::USize => "usize",
                BufferType::ISize => "isize",
                BufferType::F32 => "f32",
                BufferType::F64 => "f64",
            },
        )
    }

    /// The array type that views elements of this kind.
    pub fn typed_array(&self) -> (s: String)
        ensures
            s@ == self.typed_array_text(),
    {
        String::from_str(
            match self {
                BufferType::Untyped => "ArrayBuffer",
                BufferType::U8 => "Uint8Array",
                BufferType::I8 => "Int8Array",
                BufferType::U16 => "Uint16Array",
                BufferType::I16 => "Int16Array",
                BufferType::U32 => "Uint32Array",
                BufferType::I32 => "Int32Array",
                BufferType::U64 | BufferType::USize => "BigUint64Array",
                BufferType::I64 | BufferType::ISize => "BigInt64Array",
                BufferType::F32 => "Float32Array",
                BufferType::F64 => "Float64Array",
            },
        )
    }

    /// The pointer-view method that reads one element of this kind.
    /// Untyped bytes have no element to read.
    pub fn pointer_view_getter(&self) -> (s: String)
        requires
            !(self is Untyped),
        ensures
            s@ == self.getter_text(),
    {
        String::from_str(
            match self {
                BufferType::U8 => "getUint8",
                BufferType::I8 => "getInt8",
                BufferType::U16 => "getUint16",
                BufferType::I16 => "getInt16",
                BufferType::U32 => "getUint32",
                BufferType::I32 => "getInt32",
                BufferType::USize | BufferType::U64 => "getBigUint64",
                BufferType::ISize | BufferType::I64 => "getBigInt64",
                BufferType::F32 => "getFloat32",
                BufferType::F64 => "getFloat64",
                BufferType::Untyped => "",
            },
        )
    }
}

} // verus!

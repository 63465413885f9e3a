//! Primitive types: a native kind passed as it is.
use vstd::prelude::*;
use vstd::string::*;
use crate::types::{
    no_helpers, ConverterModel, DescriptorModel, NativeType, TypeConverter, TypeDescriptor,
};

verus! {

/// A scalar of one native kind.
#[derive(Clone, Copy, Debug)]
pub struct Primitive {
    pub native: NativeType,
}

/// The managed type that carries a value of a native kind.
pub open spec fn primitive_typescript(native: NativeType) -> Seq<char> {
    match native {
        NativeType::Void => "void"@,
        NativeType::U8
        | NativeType::I8
        | NativeType::U16
        | NativeType::I16
        | NativeType::U32
        | NativeType::I32
        | NativeType::F32
        | NativeType::F64 => "number"@,
        NativeType::U64 | NativeType::I64 | NativeType::USize | NativeType::ISize => "bigint"@,
        NativeType::Pointer => "Deno.UnsafePointer"@,
    }
}

/// The template that wraps a raw pointer value in the managed handle.
pub open spec fn pointer_handle() -> Seq<char> {
    "new Deno.UnsafePointer({})"@
}

/// The converter of an opaque pointer: it goes in unchanged and comes
/// back wrapped in the managed handle.
pub open spec fn opaque_pointer_converter() -> ConverterModel {
    ConverterModel {
        globals: Seq::empty(),
        typescript: "Deno.UnsafePointer"@,
        into: "{}"@,
        from: pointer_handle(),
    }
}

/// The descriptor of a primitive: the native kind is the kind itself,
/// numbers pass unchanged in both directions, and a pointer comes back
/// wrapped in the managed handle.
pub open spec fn primitive_descriptor(native: NativeType) -> DescriptorModel {
    DescriptorModel {
        native,
        converter: if native is Pointer {
            opaque_pointer_converter()
        } else {
            ConverterModel {
                globals: Seq::empty(),
                typescript: primitive_typescript(native),
                into: "{}"@,
                from: "{}"@,
            }
        },
    }
}

/// The converter of an opaque pointer.
pub fn opaque_pointer() -> (c: TypeConverter)
    ensures
        c@ == opaque_pointer_converter(),
{
    TypeConverter {
        globals: no_helpers(),
        typescript: String::from_str("Deno.UnsafePointer"),
        into: String::from_str("{}"),
        from: String::from_str("new Deno.UnsafePointer({})"),
    }
}

impl Primitive {
    /// A primitive of the given native kind.
    pub fn new(native: NativeType) -> (p: Self)
        ensures
            p.native == native,
    {
        Self { native }
    }

    /// The descriptor of this primitive.
    pub fn descriptor(&self) -> (d: TypeDescriptor)
        ensures
            d@ == primitive_descriptor(self.native),
    {
        let typescript = match self.native {
            NativeType::Void => "void",
            NativeType::U8
            | NativeType::I8
            | NativeType::U16
            | NativeType::I16
            | NativeType::U32
            | NativeType::I32
            | NativeType::F32
            | NativeType::F64 => "number",
            NativeType::U64 | NativeType::I64 | NativeType::USize | NativeType::ISize => "bigint",
            NativeType::Pointer => "Deno.UnsafePointer",
        };
        let converter = match self.native {
            NativeType::Pointer => opaque_pointer(),
            _ => TypeConverter {
                globals: no_helpers(),
                typescript: String::from_str(typescript),
                into: String::from_str("{}"),
                from: String::from_str("{}"),
            },
        };
        TypeDescriptor { native: self.native, converter }
    }
}

} // verus!

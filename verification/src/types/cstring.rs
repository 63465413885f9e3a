//! Zero-terminated strings behind a pointer.
use vstd::prelude::*;
use vstd::string::*;
use crate::types::{ConverterModel, DescriptorModel, NativeType, TypeConverter, TypeDescriptor};

verus! {

/// The zero-terminated string type.
#[derive(Clone, Copy, Debug)]
pub struct CString;

/// The helper that every string conversion needs once: it encodes a
/// managed string into a fresh buffer one byte longer than the text,
/// which leaves a terminating zero, and returns the buffer's address.
pub open spec fn cstring_helper() -> Seq<char> {
    "const __cstring_encoder = new TextEncoder();\nfunction __cstring_into(__cstring: string): Deno.UnsafePointer {\nconst __buffer = new Uint8Array(__cstring.length + 1);\n__cstring_encoder.encodeInto(__cstring, __buffer);\nreturn Deno.UnsafePointer.of(__buffer);\n}\n"@
}

/// The descriptor of a string: a pointer at the boundary, encoded by
/// the helper going in and read up to the terminating zero coming
/// back.
pub open spec fn cstring_descriptor() -> DescriptorModel {
    DescriptorModel {
        native: NativeType::Pointer,
        converter: ConverterModel {
            globals: seq![cstring_helper()],
            typescript: "string"@,
            into: "__cstring_into({})"@,
            from: "new Deno.UnsafePointerView({}).getCString()"@,
        },
    }
}

impl CString {
    /// The descriptor of the string type.
    pub fn descriptor() -> (d: TypeDescriptor)
        ensures
            d@ == cstring_descriptor(),
    {
        let mut globals: Vec<String> = Vec::new();
        globals.push(
            String::from_str(
                "const __cstring_encoder = new TextEncoder();\nfunction __cstring_into(__cstring: string): Deno.UnsafePointer {\nconst __buffer = new Uint8Array(__cstring.length + 1);\n__cstring_encoder.encodeInto(__cstring, __buffer);\nreturn Deno.UnsafePointer.of(__buffer);\n}\n",
            ),
        );
        let d = TypeDescriptor {
            native: NativeType::Pointer,
            converter: TypeConverter {
                globals,
                typescript: String::from_str("string"),
                into: String::from_str("__cstring_into({})"),
                from: String::from_str("new Deno.UnsafePointerView({}).getCString()"),
            },
        };
        assert(d.converter.globals.deep_view() == seq![cstring_helper()]);
        d
    }
}

} // verus!

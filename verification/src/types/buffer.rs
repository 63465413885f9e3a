//! Buffers: runs of elements of one kind behind a pointer.
use vstd::prelude::*;
use vstd::string::*;
use crate::error::Error;
use crate::text::{decimal, decimal_string};
use crate::types::primitive::{opaque_pointer, opaque_pointer_converter};
use crate::types::{
    buffer_bytes, no_helpers, BufferType, ConverterModel, DescriptorModel, NativeType,
    TypeConverter, TypeDescriptor,
};

verus! {

/// A buffer of elements of kind `ty`; `length` counts elements and is
/// `None` where the length travels out of band.
#[derive(Clone, Copy, Debug)]
pub struct Buffer {
    pub ty: BufferType,
    pub length: Option<usize>,
}

/// Whether a buffer can be described: its byte length, if it has one,
/// fits the machine's address range.
pub open spec fn buffer_describable(ty: BufferType, length: Option<usize>) -> bool {
    length matches Some(n) ==> buffer_bytes(ty, n) <= usize::MAX
}

/// The converter of a buffer of exactly `length` elements: going in, an
/// array view of that many elements over the managed buffer's storage
/// and its address; coming back, exactly the buffer's bytes read at the
/// pointer, wrapped in the matching array view unless untyped.
pub open spec fn fixed_buffer_converter(ty: BufferType, length: usize) -> ConverterModel {
    let count = decimal(length as nat);
    let bytes = decimal(buffer_bytes(ty, length));
    if ty is Untyped {
        ConverterModel {
            globals: Seq::empty(),
            typescript: "ArrayBuffer"@,
            into: "Deno.UnsafePointer.of(new Uint8Array({}, "@ + count + "))"@,
            from: "new Deno.UnsafePointerView({}).getArrayBuffer("@ + bytes + ")"@,
        }
    } else {
        ConverterModel {
            globals: Seq::empty(),
            typescript: ty.typed_array_text(),
            into: "Deno.UnsafePointer.of(new "@ + ty.typed_array_text() + "({}.buffer, "@
                + count + "))"@,
            from: "new "@ + ty.typed_array_text() + "(new Deno.UnsafePointerView({}).getArrayBuffer("@
                + bytes + "))"@,
        }
    }
}

/// The descriptor of a buffer: always a pointer at the boundary; with
/// an open length nothing but that pointer.
pub open spec fn buffer_descriptor(ty: BufferType, length: Option<usize>) -> DescriptorModel {
    DescriptorModel {
        native: NativeType::Pointer,
        converter: match length {
            Some(n) => fixed_buffer_converter(ty, n),
            None => opaque_pointer_converter(),
        },
    }
}

impl Buffer {
    /// A buffer of exactly `length` elements.
    pub fn new(ty: BufferType, length: usize) -> (b: Self)
        ensures
            b.ty == ty,
            b.length == Some(length),
    {
        Self { ty, length: Some(length) }
    }

    /// A buffer whose length the caller communicates out of band.
    pub fn unbounded(ty: BufferType) -> (b: Self)
        ensures
            b.ty == ty,
            b.length is None,
    {
        Self { ty, length: None }
    }

    /// The descriptor of this buffer. Fails with
    /// [`Error::UnsupportedLayout`] exactly where the byte length does
    /// not fit the machine's address range.
    pub fn descriptor(&self) -> (r: Result<TypeDescriptor, Error>)
        ensures
            r is Ok <==> buffer_describable(self.ty, self.length),
            r matches Ok(d) ==> d@ == buffer_descriptor(self.ty, self.length),
            r matches Err(e) ==> e is UnsupportedLayout,
    {
        let converter = match self.length {
            None => opaque_pointer(),
            Some(length) => {
                let bytes = match length.checked_mul(self.ty.byte_width()) {
                    Some(bytes) => decimal_string(bytes),
                    None => {
                        return Err(Error::UnsupportedLayout);
                    },
                };
                let count = decimal_string(length);
                match self.ty {
                    BufferType::Untyped => {
                        let mut into = String::from_str("Deno.UnsafePointer.of(new Uint8Array({}, ");
                        into.append(count.as_str());
                        into.append("))");
                        let mut from = String::from_str("new Deno.UnsafePointerView({}).getArrayBuffer(");
                        from.append(bytes.as_str());
                        from.append(")");
                        TypeConverter {
                            globals: no_helpers(),
                            typescript: String::from_str("ArrayBuffer"),
                            into,
                            from,
                        }
                    },
                    _ => {
                        let constructor = self.ty.typed_array();
                        let mut into = String::from_str("Deno.UnsafePointer.of(new ");
                        into.append(constructor.as_str());
                        into.append("({}.buffer, ");
                        into.append(count.as_str());
                        into.append("))");
                        let mut from = String::from_str("new ");
                        from.append(constructor.as_str());
                        from.append("(new Deno.UnsafePointerView({}).getArrayBuffer(");
                        from.append(bytes.as_str());
                        from.append("))");
                        TypeConverter { globals: no_helpers(), typescript: constructor, into, from }
                    },
                }
            },
        };
        Ok(TypeDescriptor { native: NativeType::Pointer, converter })
    }
}

} // verus!

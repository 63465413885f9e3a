//! Pointers to another type.
use vstd::prelude::*;
use vstd::string::*;
use crate::text::{fill, substitute};
use crate::types::primitive::{opaque_pointer, opaque_pointer_converter};
use crate::types::{
    ConverterModel, DescriptorModel, NativeType, TypeConverter, TypeDefinition, TypeDescriptor,
    TypeModel,
};

verus! {

/// A pointer to a value of the target type.
#[derive(Debug)]
pub struct Pointer {
    pub target: Box<TypeDefinition>,
}

/// The converter of a pointer to a scalar of kind `native`, whose own
/// converter is `target`. Going in, the scalar is boxed: a one-element
/// array view as wide as the scalar holds the converted value, and its
/// address is passed. Coming back, the scalar is read at offset zero
/// with the accessor of its width and converted.
pub open spec fn scalar_pointer_converter(
    native: NativeType,
    target: ConverterModel,
) -> ConverterModel {
    ConverterModel {
        globals: target.globals,
        typescript: target.typescript,
        into: "Deno.UnsafePointer.of(new "@ + native.element().typed_array_text() + "(["@
            + target.into + (if native is Pointer {
            ".value"@
        } else {
            Seq::empty()
        }) + "]))"@,
        from: fill(
            target.from,
            "new Deno.UnsafePointerView({})."@ + native.element().getter_text() + "(0)"@,
        ),
    }
}

/// The converter of a pointer to anything but a scalar: the target's
/// own templates inside an address-of and a dereference.
pub open spec fn indirect_pointer_converter(target: ConverterModel) -> ConverterModel {
    ConverterModel {
        globals: target.globals,
        typescript: target.typescript,
        into: "Deno.UnsafePointer.of(new BigUint64Array(["@ + target.into + ".value]))"@,
        from: "new Deno.UnsafePointer(new Deno.UnsafePointerView("@ + target.from
            + ").getBigUint64())"@,
    }
}

/// The descriptor of a pointer to `target`, whose descriptor is
/// `described`: always a pointer at the boundary; a pointer to void is
/// opaque.
pub open spec fn pointer_descriptor(
    target: TypeModel,
    described: DescriptorModel,
) -> DescriptorModel {
    DescriptorModel {
        native: NativeType::Pointer,
        converter: match target {
            TypeModel::Primitive(native) => if native is Void {
                opaque_pointer_converter()
            } else {
                scalar_pointer_converter(native, described.converter)
            },
            _ => indirect_pointer_converter(described.converter),
        },
    }
}

impl Pointer {
    /// A pointer to `target`.
    pub fn new(target: Box<TypeDefinition>) -> (p: Self)
        ensures
            p.target == target,
    {
        Self { target }
    }

    /// The descriptor of a pointer to `target`, given the target's own
    /// descriptor.
    pub fn descriptor_over(
        target: &TypeDefinition,
        described: TypeDescriptor,
    ) -> (d: TypeDescriptor)
        ensures
            d@ == pointer_descriptor(target@, described@),
    {
        let TypeDescriptor { native: _, converter: inner } = described;
        let converter = match target {
            TypeDefinition::Primitive(primitive) => {
                match primitive.native {
                    NativeType::Void => opaque_pointer(),
                    native => {
                        let element = native.buffer_type();
                        let mut into = String::from_str("Deno.UnsafePointer.of(new ");
                        into.append(element.typed_array().as_str());
                        into.append("([");
                        into.append(inner.into.as_str());
                        match native {
                            NativeType::Pointer => {
                                into.append(".value");
                            },
                            _ => {
                                assert(into@ + Seq::<char>::empty() == into@);
                            },
                        }
                        into.append("]))");
                        let mut read = String::from_str("new Deno.UnsafePointerView({}).");
                        read.append(element.pointer_view_getter().as_str());
                        read.append("(0)");
                        let from = substitute(inner.from.as_str(), read.as_str());
                        TypeConverter {
                            globals: inner.globals,
                            typescript: inner.typescript,
                            into,
                            from,
                        }
                    },
                }
            },
            _ => {
                let mut into = String::from_str("Deno.UnsafePointer.of(new BigUint64Array([");
                into.append(inner.into.as_str());
                into.append(".value]))");
                let mut from = String::from_str("new Deno.UnsafePointer(new Deno.UnsafePointerView(");
                from.append(inner.from.as_str());
                from.append(").getBigUint64())");
                TypeConverter { globals: inner.globals, typescript: inner.typescript, into, from }
            },
        };
        TypeDescriptor { native: NativeType::Pointer, converter }
    }
}

} // verus!

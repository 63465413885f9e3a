//! What structs and tuples share: their identity, and the two helper
//! routines that move a value into a flat byte blob and back.
use std::collections::hash_map::DefaultHasher;
use std::hash::Hasher;
use vstd::prelude::*;
use vstd::std_specs::hash::DefaultHasherAdditionalSpecFns;
use vstd::string::*;
use vstd::utf8::encode_utf8;
use crate::error::Error;
use crate::ordered::{distinct, unique};
use crate::text::{
    decimal, decimal_string, extend_texts, fill, hexadecimal, join, joined, push_text, substitute,
};
use crate::types::layout::{
    calculate_padding, lemma_align_bound, lemma_all_sized, lemma_end_offset_monotonic,
};
use crate::types::structure::counted_text;
use crate::types::{
    end_offset, field_offset, BufferType, Composite, ConverterModel, DescriptorModel,
    NativeType, TypeConverter, TypeDefinition, TypeDescriptor, TypeModel,
};

verus! {

/// The hash of a text: what std's default hasher makes of its UTF-8
/// bytes, written in one piece.
pub open spec fn text_hash(text: Seq<char>) -> u64 {
    DefaultHasher::spec_finish(seq![encode_utf8(text)])
}

/// The hash of `text`.
pub fn hash_text(text: &str) -> (h: u64)
    ensures
        h == text_hash(text@),
{
    let mut state = DefaultHasher::new();
    state.write(text.as_bytes());
    state.finish()
}

/// A text with its length in front.
pub open spec fn counted(text: Seq<char>) -> Seq<char> {
    decimal(text.len()) + ":"@ + text
}

/// The part of a signature that names field `i`; nothing where fields
/// have no names.
pub open spec fn name_label(names: Seq<Seq<char>>, i: int) -> Seq<char> {
    if 0 <= i < names.len() {
        counted(names[i]) + "="@
    } else {
        Seq::empty()
    }
}

/// The part of a signature that gives a composite's own name and
/// whether it is padded.
pub open spec fn composite_label(c: Composite) -> Seq<char> {
    (match c.identifier {
        Some(identifier) => "#"@ + counted(identifier),
        None => "_"@,
    }) + (if c.padded {
        "+"@
    } else {
        "-"@
    })
}

impl TypeModel {
    /// Whether the type is a struct or a tuple.
    pub open spec fn is_composite(self) -> bool {
        self is Struct || self is Tuple
    }

    /// What a struct or a tuple is made of.
    pub open spec fn composite(self) -> Composite {
        match self {
            TypeModel::Struct(c) | TypeModel::Tuple(c) => c,
            _ => arbitrary(),
        }
    }

    /// A text that spells the structure of the type out in full: the
    /// kind of every type in it, every name, every length and every
    /// padding flag.
    pub open spec fn signature(self) -> Seq<char>
        decreases self, 0nat,
    {
        match self {
            TypeModel::Primitive(native) => native.name_text(),
            TypeModel::Pointer(target) => "*"@ + target.signature(),
            TypeModel::Buffer(ty, length) => "["@ + ty.name_text() + ";"@ + (match length {
                Some(n) => decimal(n as nat),
                None => "?"@,
            }) + "]"@,
            TypeModel::CString => "cstring"@,
            TypeModel::Struct(c) => "struct"@ + composite_label(c) + "{"@ + fields_signature(
                c.names,
                c.fields,
                c.fields.len(),
            ) + "}"@,
            TypeModel::Tuple(c) => "tuple"@ + composite_label(c) + "("@ + fields_signature(
                c.names,
                c.fields,
                c.fields.len(),
            ) + ")"@,
        }
    }

    /// The identity of a composite: its identifier if it has one, else
    /// the hash of its fields' names and types, in hexadecimal.
    pub open spec fn identity(self) -> Seq<char> {
        match self.composite().identifier {
            Some(identifier) => identifier,
            None => hexadecimal(
                text_hash(
                    fields_signature(self.composite().names, self.fields(), self.fields().len()),
                ) as nat,
            ),
        }
    }

    /// The name of the routine that turns a managed value of this
    /// composite into bytes.
    pub open spec fn into_name(self) -> Seq<char> {
        "__into_"@ + self.identity()
    }

    /// The name of the routine that turns bytes into a managed value of
    /// this composite.
    pub open spec fn from_name(self) -> Seq<char> {
        "__from_"@ + self.identity()
    }

    /// The expression that reads field `i` of the managed value.
    pub open spec fn accessor(self, i: nat) -> Seq<char> {
        if self is Tuple {
            "__data["@ + decimal(i) + "]"@
        } else {
            "__data."@ + self.composite().names[i as int]
        }
    }

    /// Whether the helper routines of a composite can be written: every
    /// field has a size, so none is void or a buffer of open length, and
    /// the whole fits the address range.
    pub open spec fn composable(self) -> bool {
        self.sized() && self.size_of() <= usize::MAX
    }
}

/// The signatures of the first `n` fields, each with its name in front
/// and a comma behind.
pub open spec fn fields_signature(
    names: Seq<Seq<char>>,
    fields: Seq<TypeModel>,
    n: nat,
) -> Seq<char>
    decreases fields, n,
{
    if n == 0 || n > fields.len() {
        Seq::empty()
    } else {
        fields_signature(names, fields, (n - 1) as nat) + name_label(names, n - 1) + fields[n
            - 1].signature() + ","@
    }
}

impl TypeDefinition {
    /// A text that spells the structure of the type out in full.
    pub fn signature(&self) -> (s: String)
        ensures
            s@ == self@.signature(),
        decreases self@.depth(), 1nat,
    {
        proof {
            reveal_with_fuel(TypeDefinition::model, 2);
        }
        match self {
            TypeDefinition::Primitive(primitive) => primitive.native.name(),
            TypeDefinition::Pointer(pointer) => {
                String::from_str("*").concat(pointer.target.signature().as_str())
            },
            TypeDefinition::Buffer(buffer) => {
                let mut out = String::from_str("[");
                out.append(buffer.ty.name().as_str());
                out.append(";");
                match buffer.length {
                    Some(n) => {
                        out.append(decimal_string(n).as_str());
                    },
                    None => {
                        out.append("?");
                    },
                }
                out.append("]");
                out
            },
            TypeDefinition::CString => String::from_str("cstring"),
            TypeDefinition::Struct(s) => {
                let mut out = String::from_str("struct");
                out.append(composite_label_text(&s.identifier, s.padded).as_str());
                out.append("{");
                out.append(s.fields_signature().as_str());
                out.append("}");
                out
            },
            TypeDefinition::Tuple(t) => {
                let mut out = String::from_str("tuple");
                out.append(composite_label_text(&t.identifier, t.padded).as_str());
                out.append("(");
                out.append(t.fields_signature().as_str());
                out.append(")");
                out
            },
        }
    }
}

/// The part of a signature that gives a composite's own name and
/// whether it is padded.
pub fn composite_label_text(identifier: &Option<String>, padded: bool) -> (s: String)
    ensures
        s@ == composite_label(
            (Composite {
                identifier: match identifier {
                    Some(i) => Some(i@),
                    None => None,
                },
                padded,
                names: Seq::empty(),
                fields: Seq::empty(),
            }),
        ),
{
    let mut out = match identifier {
        Some(identifier) => String::from_str("#").concat(counted_text(identifier.as_str()).as_str()),
        None => String::from_str("_"),
    };
    if padded {
        out.append("+");
    } else {
        out.append("-");
    }
    out
}

/// The descriptors in a list, each by its value.
pub open spec fn descriptor_views(descriptors: Seq<TypeDescriptor>) -> Seq<DescriptorModel> {
    Seq::new(descriptors.len(), |i: int| descriptors[i]@)
}

/// The literal shape of a composite in the managed language, given its
/// fields' descriptors: the members of a struct each on a line of its
/// own between braces, those of a tuple in a row between brackets.
pub open spec fn shape_text(m: TypeModel, fields: Seq<DescriptorModel>) -> Seq<char> {
    if m is Tuple {
        "["@ + joined(
            Seq::new(m.fields().len(), |i: int| fields[i].converter.typescript),
            ", "@,
        ) + "]"@
    } else {
        "{\n"@ + joined(
            Seq::new(
                m.fields().len(),
                |i: int|
                    m.composite().names[i] + ": "@ + fields[i].converter.typescript + ";"@,
            ),
            "\n"@,
        ) + "\n}"@
    }
}

/// The declaration that gives a named composite's shape its name.
pub open spec fn declaration_text(
    m: TypeModel,
    fields: Seq<DescriptorModel>,
    typescript: Seq<char>,
) -> Seq<char> {
    if m is Tuple {
        "export type "@ + typescript + " = "@ + shape_text(m, fields) + ";"@
    } else {
        "export interface "@ + typescript + " "@ + shape_text(m, fields)
    }
}

/// The expression that cuts `size` bytes at `offset` out of the blob.
pub open spec fn slice_text(offset: nat, size: nat) -> Seq<char> {
    "__array_buffer.slice("@ + decimal(offset) + ", "@ + decimal(offset + size) + ")"@
}

/// The expression that reads a field back out of the blob. A primitive
/// is read with the accessor of its width, a pointer or a string as a
/// pointer-wide handle, and both go through the field's own
/// template `from`; a buffer is the bytes of all its elements cut out,
/// in the matching array view unless untyped; a nested composite is
/// its bytes handed to the field's own template.
pub open spec fn read_text(field: TypeModel, from: Seq<char>, offset: nat) -> Seq<char> {
    match field {
        TypeModel::Primitive(native) => fill(
            from,
            "__data_view."@ + native.getter_text() + "("@ + decimal(offset) + ")"@,
        ),
        TypeModel::CString | TypeModel::Pointer(_) => fill(
            from,
            "new Deno.UnsafePointer(__data_view.getBigUint64("@ + decimal(offset) + "))"@,
        ),
        TypeModel::Buffer(ty, _) => if ty is Untyped {
            slice_text(offset, field.size_of())
        } else {
            "new "@ + ty.typed_array_text() + "("@ + slice_text(offset, field.size_of()) + ")"@
        },
        TypeModel::Struct(_) | TypeModel::Tuple(_) => fill(
            from,
            slice_text(offset, field.size_of()),
        ),
    }
}

/// The statement that writes a field into the blob. A primitive is
/// written with the accessor of its width, a pointer or a string as a
/// pointer-wide value, both after the field's own template `into`;
/// a buffer and a nested composite are copied byte by byte.
pub open spec fn write_text(
    field: TypeModel,
    into: Seq<char>,
    offset: nat,
    accessor: Seq<char>,
) -> Seq<char> {
    match field {
        TypeModel::Primitive(native) => "__data_view."@ + native.setter_text() + "("@ + decimal(
            offset,
        ) + ", "@ + fill(
            into,
            if native is Pointer {
                accessor + ".value"@
            } else {
                accessor
            },
        ) + ");"@,
        TypeModel::CString | TypeModel::Pointer(_) => "__data_view.setBigUint64("@ + decimal(
            offset,
        ) + ", "@ + fill(into, accessor) + ".value);"@,
        TypeModel::Buffer(ty, _) => "__u8_array.set("@ + (if ty is Untyped {
            "new Uint8Array("@ + accessor + ")"@
        } else if ty is U8 {
            accessor
        } else {
            "new Uint8Array("@ + accessor + ".buffer)"@
        }) + ", "@ + decimal(offset) + ");"@,
        TypeModel::Struct(_) | TypeModel::Tuple(_) => "__u8_array.set(new Uint8Array("@ + fill(
            into,
            accessor,
        ) + ".buffer), "@ + decimal(offset) + ");"@,
    }
}

/// The line of the routine `from` that gives field `i` its value.
pub open spec fn property_text(m: TypeModel, fields: Seq<DescriptorModel>, i: int) -> Seq<char> {
    let value = read_text(
        m.fields()[i],
        fields[i].converter.from,
        field_offset(m.fields(), m.padded(), i as nat),
    );
    if m is Tuple {
        value
    } else {
        "  "@ + m.composite().names[i] + ": "@ + value
    }
}

/// The line of the routine `into` that stores field `i`.
pub open spec fn statement_text(m: TypeModel, fields: Seq<DescriptorModel>, i: int) -> Seq<char> {
    write_text(
        m.fields()[i],
        fields[i].converter.into,
        field_offset(m.fields(), m.padded(), i as nat),
        m.accessor(i as nat),
    )
}

/// The first `n` lines of the routine `from`, one for each field.
pub open spec fn property_lines(
    m: TypeModel,
    fields: Seq<DescriptorModel>,
    n: nat,
) -> Seq<Seq<char>> {
    Seq::new(n, |i: int| property_text(m, fields, i))
}

/// The first `n` lines of the routine `into`, one for each field.
pub open spec fn statement_lines(
    m: TypeModel,
    fields: Seq<DescriptorModel>,
    n: nat,
) -> Seq<Seq<char>> {
    Seq::new(n, |i: int| statement_text(m, fields, i))
}

/// The routine that turns bytes into a managed value. It takes a byte
/// buffer, a byte view, a pointer or a pointer view, makes a byte
/// buffer of the composite's size of it, and reads each field at its
/// offset.
pub open spec fn from_function_text(
    m: TypeModel,
    fields: Seq<DescriptorModel>,
    typescript: Seq<char>,
) -> Seq<char> {
    "function "@ + m.from_name()
        + "(__source: ArrayBuffer | Uint8Array | Deno.UnsafePointer | Deno.UnsafePointerView): "@
        + typescript
        + " {\nconst __array_buffer =\n(__source instanceof ArrayBuffer\n? __source\n: __source instanceof Uint8Array\n? __source.buffer\n: __source instanceof Deno.UnsafePointer\n? new Deno.UnsafePointerView(__source).getArrayBuffer("@
        + decimal(m.size_of())
        + ")\n: __source instanceof Deno.UnsafePointerView\n? __source.getArrayBuffer("@
        + decimal(m.size_of())
        + ")\n: undefined)!;\nconst __data_view = new DataView(__array_buffer);\nreturn "@
        + (if m is Tuple {
        "[\n"@
    } else {
        "{\n"@
    }) + joined(property_lines(m, fields, m.fields().len()), ",\n"@) + (if m is Tuple {
        "\n];\n}"@
    } else {
        "\n};\n}"@
    })
}

/// The routine that turns a managed value into bytes. It allocates a
/// byte buffer of the composite's size, writes each field at its
/// offset in declaration order, and returns the buffer.
pub open spec fn into_function_text(
    m: TypeModel,
    fields: Seq<DescriptorModel>,
    typescript: Seq<char>,
) -> Seq<char> {
    "function "@ + m.into_name() + "(__data: "@ + typescript
        + "): Uint8Array {\nconst __array_buffer = new ArrayBuffer("@ + decimal(m.size_of())
        + ");\nconst __u8_array = new Uint8Array(__array_buffer);\n        const __data_view = new DataView(__array_buffer);\n"@
        + joined(statement_lines(m, fields, m.fields().len()), "\n"@)
        + "\nreturn __u8_array;\n}"@
}

/// The helpers that the first `n` fields require, in field order.
pub open spec fn field_helpers(fields: Seq<DescriptorModel>, n: nat) -> Seq<Seq<char>>
    decreases n,
{
    if n == 0 || n > fields.len() {
        Seq::empty()
    } else {
        field_helpers(fields, (n - 1) as nat) + fields[n - 1].converter.globals
    }
}

/// The helpers that a composite requires, each once: the declaration
/// of its name if it has one, what its fields require, and its own two
/// routines.
pub open spec fn composite_helpers(
    m: TypeModel,
    fields: Seq<DescriptorModel>,
    typescript: Seq<char>,
) -> Seq<Seq<char>> {
    distinct(
        (if m.composite().identifier is Some {
            seq![declaration_text(m, fields, typescript)]
        } else {
            Seq::empty()
        }) + field_helpers(fields, m.fields().len()) + seq![
            from_function_text(m, fields, typescript),
            into_function_text(m, fields, typescript),
        ],
    )
}

/// The converter of a composite, given its fields' descriptors and the
/// name of its managed type: values cross the boundary through the two
/// routines.
pub open spec fn composite_converter(
    m: TypeModel,
    fields: Seq<DescriptorModel>,
    typescript: Seq<char>,
) -> ConverterModel {
    ConverterModel {
        globals: composite_helpers(m, fields, typescript),
        typescript,
        into: m.into_name() + "({})"@,
        from: m.from_name() + "({})"@,
    }
}

/// The expression that cuts `size` bytes at `offset` out of the blob.
pub fn slice_expression(offset: usize, size: usize) -> (s: String)
    requires
        offset + size <= usize::MAX,
    ensures
        s@ == slice_text(offset as nat, size as nat),
{
    let mut out = String::from_str("__array_buffer.slice(");
    out.append(decimal_string(offset).as_str());
    out.append(", ");
    out.append(decimal_string(offset + size).as_str());
    out.append(")");
    out
}

/// The expression that reads a field of `size` bytes back out of the
/// blob at `offset`, through the field's template `from`.
pub fn read_expression(
    field: &TypeDefinition,
    from: &str,
    offset: usize,
    size: usize,
) -> (s: String)
    requires
        field@.sized(),
        size == field@.size_of(),
        offset + size <= usize::MAX,
    ensures
        s@ == read_text(field@, from@, offset as nat),
{
    proof {
        reveal_with_fuel(TypeDefinition::model, 2);
    }
    match field {
        TypeDefinition::Primitive(primitive) => {
            let mut raw = String::from_str("__data_view.");
            raw.append(primitive.native.data_view_getter().as_str());
            raw.append("(");
            raw.append(decimal_string(offset).as_str());
            raw.append(")");
            substitute(from, raw.as_str())
        },
        TypeDefinition::CString | TypeDefinition::Pointer(_) => {
            let mut raw = String::from_str("new Deno.UnsafePointer(__data_view.getBigUint64(");
            raw.append(decimal_string(offset).as_str());
            raw.append("))");
            substitute(from, raw.as_str())
        },
        TypeDefinition::Buffer(buffer) => {
            let slice = slice_expression(offset, size);
            match buffer.ty {
                BufferType::Untyped => slice,
                _ => {
                    let mut out = String::from_str("new ");
                    out.append(buffer.ty.typed_array().as_str());
                    out.append("(");
                    out.append(slice.as_str());
                    out.append(")");
                    out
                },
            }
        },
        TypeDefinition::Struct(_) | TypeDefinition::Tuple(_) => {
            let slice = slice_expression(offset, size);
            substitute(from, slice.as_str())
        },
    }
}

/// The statement that writes a field into the blob at `offset`,
/// through the field's template `into`; `accessor` reads the field of
/// the managed value.
pub fn write_statement(
    field: &TypeDefinition,
    into: &str,
    offset: usize,
    accessor: &str,
) -> (s: String)
    requires
        field@.sized(),
    ensures
        s@ == write_text(field@, into@, offset as nat, accessor@),
{
    proof {
        reveal_with_fuel(TypeDefinition::model, 2);
    }
    let place = decimal_string(offset);
    match field {
        TypeDefinition::Primitive(primitive) => {
            let mut out = String::from_str("__data_view.");
            out.append(primitive.native.data_view_setter().as_str());
            out.append("(");
            out.append(place.as_str());
            out.append(", ");
            let value = match primitive.native {
                NativeType::Pointer => {
                    let handle = String::from_str(accessor).concat(".value");
                    substitute(into, handle.as_str())
                },
                _ => substitute(into, accessor),
            };
            out.append(value.as_str());
            out.append(");");
            out
        },
        TypeDefinition::CString | TypeDefinition::Pointer(_) => {
            let mut out = String::from_str("__data_view.setBigUint64(");
            out.append(place.as_str());
            out.append(", ");
            out.append(substitute(into, accessor).as_str());
            out.append(".value);");
            out
        },
        TypeDefinition::Buffer(buffer) => {
            let mut out = String::from_str("__u8_array.set(");
            let bytes = match buffer.ty {
                BufferType::Untyped => {
                    let mut bytes = String::from_str("new Uint8Array(");
                    bytes.append(accessor);
                    bytes.append(")");
                    bytes
                },
                BufferType::U8 => String::from_str(accessor),
                _ => {
                    let mut bytes = String::from_str("new Uint8Array(");
                    bytes.append(accessor);
                    bytes.append(".buffer)");
                    bytes
                },
            };
            out.append(bytes.as_str());
            out.append(", ");
            out.append(place.as_str());
            out.append(");");
            out
        },
        TypeDefinition::Struct(_) | TypeDefinition::Tuple(_) => {
            let mut out = String::from_str("__u8_array.set(new Uint8Array(");
            out.append(substitute(into, accessor).as_str());
            out.append(".buffer), ");
            out.append(place.as_str());
            out.append(");");
            out
        },
    }
}

impl TypeDefinition {
    /// The identity of a composite.
    pub fn identity(&self) -> (s: String)
        requires
            self@.is_composite(),
        ensures
            s@ == self@.identity(),
    {
        proof {
            reveal_with_fuel(TypeDefinition::model, 2);
        }
        match self {
            TypeDefinition::Struct(s) => s.identifier(),
            TypeDefinition::Tuple(t) => t.identifier(),
            _ => String::new(),
        }
    }

    /// Whether this is a composite with an identifier of its own.
    pub fn is_named(&self) -> (named: bool)
        ensures
            named == (self@.is_composite() && self@.composite().identifier is Some),
    {
        proof {
            reveal_with_fuel(TypeDefinition::model, 2);
        }
        match self {
            TypeDefinition::Struct(s) => s.identifier.is_some(),
            TypeDefinition::Tuple(t) => t.identifier.is_some(),
            _ => false,
        }
    }

    /// The expression that reads field `i` of a composite's managed
    /// value.
    pub fn accessor(&self, i: usize) -> (s: String)
        requires
            self@.is_composite(),
            i < self@.fields().len(),
        ensures
            s@ == self@.accessor(i as nat),
    {
        proof {
            reveal_with_fuel(TypeDefinition::model, 2);
        }
        match self {
            TypeDefinition::Struct(s) => s.accessor(i),
            TypeDefinition::Tuple(t) => t.accessor(i),
            _ => String::new(),
        }
    }

    /// The literal shape of a composite, given its fields' descriptors.
    pub fn shape(&self, descriptors: &Vec<TypeDescriptor>) -> (s: String)
        requires
            self@.is_composite(),
            descriptors.len() == self@.fields().len(),
        ensures
            s@ == shape_text(self@, descriptor_views(descriptors@)),
    {
        proof {
            reveal_with_fuel(TypeDefinition::model, 2);
        }
        match self {
            TypeDefinition::Struct(s) => s.shape(descriptors),
            TypeDefinition::Tuple(t) => t.shape(descriptors),
            _ => String::new(),
        }
    }

    /// The line of the routine `from` that gives field `i` the value
    /// that the expression `value` reads.
    fn property(&self, i: usize, value: &str) -> (s: String)
        requires
            self@.is_composite(),
            i < self@.fields().len(),
        ensures
            s@ == if self@ is Tuple {
                value@
            } else {
                "  "@ + self@.composite().names[i as int] + ": "@ + value@
            },
    {
        proof {
            reveal_with_fuel(TypeDefinition::model, 2);
        }
        match self {
            TypeDefinition::Struct(s) => {
                let mut out = String::from_str("  ");
                out.append(s.fields[i].0.as_str());
                out.append(": ");
                out.append(value);
                out
            },
            _ => String::from_str(value),
        }
    }
}

/// The converter of the composite `definition`, given the descriptors
/// of its fields and the name of its managed type. Fails with
/// [`Error::UnsupportedLayout`] exactly where the definition is no
/// composite, the descriptors are not one for each field, a field
/// has no size, or the composite does not fit the machine's address
/// range.
pub fn compose(
    definition: &TypeDefinition,
    descriptors: &Vec<TypeDescriptor>,
    typescript: String,
) -> (r: Result<TypeConverter, Error>)
    ensures
        r is Ok <==> definition@.is_composite() && descriptors.len() == definition@.fields().len()
            && definition@.composable(),
        r matches Ok(c) ==> c@ == composite_converter(
            definition@,
            descriptor_views(descriptors@),
            typescript@,
        ),
        r matches Err(e) ==> e is UnsupportedLayout,
{
    let ghost m = definition@;
    let ghost fields = m.fields();
    let ghost views = descriptor_views(descriptors@);
    let composite = match definition {
        TypeDefinition::Struct(_) | TypeDefinition::Tuple(_) => true,
        _ => false,
    };
    assert(composite == m.is_composite()) by {
        reveal_with_fuel(TypeDefinition::model, 2);
    }
    let n = definition.field_count();
    if !composite || descriptors.len() != n {
        return Err(Error::UnsupportedLayout);
    }
    let padded = definition.is_padded();
    let size = match definition.size_of() {
        Ok(size) => size,
        Err(e) => {
            return Err(e);
        },
    };
    let mut helpers: Vec<String> = Vec::new();
    if definition.is_named() {
        let shape = definition.shape(descriptors);
        let declaration = match definition {
            TypeDefinition::Tuple(_) => {
                let mut declaration = String::from_str("export type ");
                declaration.append(typescript.as_str());
                declaration.append(" = ");
                declaration.append(shape.as_str());
                declaration.append(";");
                declaration
            },
            _ => {
                let mut declaration = String::from_str("export interface ");
                declaration.append(typescript.as_str());
                declaration.append(" ");
                declaration.append(shape.as_str());
                declaration
            },
        };
        push_text(&mut helpers, declaration);
    }
    let ghost opening = helpers.deep_view();
    assert(opening =~= if m.composite().identifier is Some {
        seq![declaration_text(m, views, typescript@)]
    } else {
        Seq::empty()
    });
    let mut properties: Vec<String> = Vec::new();
    let mut statements: Vec<String> = Vec::new();
    let mut offset: usize = 0;
    let mut i: usize = 0;
    assert(properties.deep_view() =~= property_lines(m, views, 0));
    assert(statements.deep_view() =~= statement_lines(m, views, 0));
    assert(opening + field_helpers(views, 0) =~= opening);
    while i < n
        invariant
            0 <= i <= n,
            m == definition@,
            m.is_composite(),
            fields == m.fields(),
            views == descriptor_views(descriptors@),
            n == fields.len(),
            n == descriptors.len(),
            padded == m.padded(),
            m.sized(),
            size == m.size_of(),
            offset == end_offset(fields, padded, i as nat),
            properties.deep_view() == property_lines(m, views, i as nat),
            statements.deep_view() == statement_lines(m, views, i as nat),
            helpers.deep_view() == opening + field_helpers(views, i as nat),
        decreases n - i,
    {
        let field = definition.field(i);
        let descriptor = &descriptors[i];
        proof {
            lemma_all_sized(fields, n as nat, i as nat);
            lemma_align_bound(field@);
            lemma_end_offset_monotonic(fields, padded, (i + 1) as nat, n as nat);
        }
        let align = match field.align_of() {
            Ok(align) => align,
            Err(e) => {
                return Err(e);
            },
        };
        let width = match field.size_of() {
            Ok(width) => width,
            Err(e) => {
                return Err(e);
            },
        };
        let start = if padded {
            offset + calculate_padding(offset, align)
        } else {
            offset
        };
        assert(start == field_offset(fields, padded, i as nat));
        let value = read_expression(field, descriptor.converter.from.as_str(), start, width);
        let property = definition.property(i, value.as_str());
        let accessor = definition.accessor(i);
        let statement = write_statement(
            field,
            descriptor.converter.into.as_str(),
            start,
            accessor.as_str(),
        );
        proof {
            assert(descriptor@ == views[i as int]);
            assert(property@ == property_text(m, views, i as int));
            assert(statement@ == statement_text(m, views, i as int));
        }
        push_text(&mut properties, property);
        push_text(&mut statements, statement);
        extend_texts(&mut helpers, &descriptor.converter.globals);
        proof {
            assert(properties.deep_view() =~= property_lines(m, views, (i + 1) as nat));
            assert(statements.deep_view() =~= statement_lines(m, views, (i + 1) as nat));
            assert(helpers.deep_view() =~= opening + field_helpers(views, (i + 1) as nat));
        }
        offset = start + width;
        i = i + 1;
    }
    let digits = decimal_string(size);
    let from_name = String::from_str("__from_").concat(definition.identity().as_str());
    let into_name = String::from_str("__into_").concat(definition.identity().as_str());
    let tuple = match definition {
        TypeDefinition::Tuple(_) => true,
        _ => false,
    };
    let mut from_function = String::from_str("function ");
    from_function.append(from_name.as_str());
    from_function.append(
        "(__source: ArrayBuffer | Uint8Array | Deno.UnsafePointer | Deno.UnsafePointerView): ",
    );
    from_function.append(typescript.as_str());
    from_function.append(
        " {\nconst __array_buffer =\n(__source instanceof ArrayBuffer\n? __source\n: __source instanceof Uint8Array\n? __source.buffer\n: __source instanceof Deno.UnsafePointer\n? new Deno.UnsafePointerView(__source).getArrayBuffer(",
    );
    from_function.append(digits.as_str());
    from_function.append(
        ")\n: __source instanceof Deno.UnsafePointerView\n? __source.getArrayBuffer(",
    );
    from_function.append(digits.as_str());
    from_function.append(
        ")\n: undefined)!;\nconst __data_view = new DataView(__array_buffer);\nreturn ",
    );
    if tuple {
        from_function.append("[\n");
    } else {
        from_function.append("{\n");
    }
    from_function.append(join(&properties, ",\n").as_str());
    if tuple {
        from_function.append("\n];\n}");
    } else {
        from_function.append("\n};\n}");
    }
    let mut into_function = String::from_str("function ");
    into_function.append(into_name.as_str());
    into_function.append("(__data: ");
    into_function.append(typescript.as_str());
    into_function.append("): Uint8Array {\nconst __array_buffer = new ArrayBuffer(");
    into_function.append(digits.as_str());
    into_function.append(
        ");\nconst __u8_array = new Uint8Array(__array_buffer);\n        const __data_view = new DataView(__array_buffer);\n",
    );
    into_function.append(join(&statements, "\n").as_str());
    into_function.append("\nreturn __u8_array;\n}");
    proof {
        assert(from_function@ == from_function_text(m, views, typescript@));
        assert(into_function@ == into_function_text(m, views, typescript@));
    }
    push_text(&mut helpers, from_function);
    push_text(&mut helpers, into_function);
    proof {
        assert(helpers.deep_view() =~= opening + field_helpers(views, n as nat) + seq![
            from_function_text(m, views, typescript@),
            into_function_text(m, views, typescript@),
        ]);
    }
    let globals = unique(&helpers);
    Ok(
        TypeConverter {
            globals,
            typescript,
            into: into_name.concat("({})"),
            from: from_name.concat("({})"),
        },
    )
}

} // verus!

use deno_bindgen_codegen::error::Error;
use deno_bindgen_codegen::types::buffer::Buffer;
use deno_bindgen_codegen::types::layout::calculate_padding;
use deno_bindgen_codegen::types::pointer::Pointer;
use deno_bindgen_codegen::types::primitive::Primitive;
use deno_bindgen_codegen::types::structure::Struct;
use deno_bindgen_codegen::types::tuple::Tuple;
use deno_bindgen_codegen::types::{BufferType, NativeType, TypeDefinition};

fn primitive(native: NativeType) -> TypeDefinition {
    TypeDefinition::Primitive(Primitive::new(native))
}

fn pointer(target: TypeDefinition) -> TypeDefinition {
    TypeDefinition::Pointer(Pointer::new(Box::new(target)))
}

fn structure(padded: bool, fields: Vec<(&str, TypeDefinition)>) -> TypeDefinition {
    TypeDefinition::Struct(Struct::new(
        None,
        padded,
        fields
            .into_iter()
            .map(|(name, definition)| (name.to_string(), definition))
            .collect(),
    ))
}

#[test]
fn padding_reaches_the_next_multiple() {
    assert_eq!(calculate_padding(0, 8), 0);
    assert_eq!(calculate_padding(1, 8), 7);
    assert_eq!(calculate_padding(5, 4), 3);
    assert_eq!(calculate_padding(8, 4), 0);
    assert_eq!(calculate_padding(3, 1), 0);
    assert_eq!(calculate_padding(7, 0), 0);
}

#[test]
fn primitive_sizes() {
    let table = [
        (NativeType::U8, 1),
        (NativeType::I8, 1),
        (NativeType::U16, 2),
        (NativeType::I16, 2),
        (NativeType::U32, 4),
        (NativeType::I32, 4),
        (NativeType::F32, 4),
        (NativeType::U64, 8),
        (NativeType::I64, 8),
        (NativeType::USize, 8),
        (NativeType::ISize, 8),
        (NativeType::F64, 8),
        (NativeType::Pointer, 8),
    ];
    for (native, width) in table {
        assert_eq!(native.byte_width(), width);
        assert_eq!(primitive(native).size_of().unwrap(), width);
        assert_eq!(primitive(native).align_of().unwrap(), width);
    }
}

#[test]
fn void_has_no_size() {
    assert!(matches!(
        primitive(NativeType::Void).size_of(),
        Err(Error::UnsupportedLayout)
    ));
    assert!(matches!(
        primitive(NativeType::Void).align_of(),
        Err(Error::UnsupportedLayout)
    ));
    let holder = structure(true, vec![("v", primitive(NativeType::Void))]);
    assert!(matches!(holder.size_of(), Err(Error::UnsupportedLayout)));
    assert!(matches!(holder.align_of(), Err(Error::UnsupportedLayout)));
}

#[test]
fn pointers_and_strings_are_pointer_wide() {
    let types = vec![
        pointer(primitive(NativeType::U16)),
        pointer(primitive(NativeType::Void)),
        pointer(TypeDefinition::Buffer(Buffer::unbounded(BufferType::U8))),
        TypeDefinition::CString,
    ];
    for definition in types {
        assert_eq!(definition.size_of().unwrap(), 8);
        assert_eq!(definition.align_of().unwrap(), 8);
    }
}

#[test]
fn buffers_take_the_bytes_of_their_elements() {
    let table = [
        (BufferType::Untyped, 16, 16, 1),
        (BufferType::U8, 4, 4, 1),
        (BufferType::I16, 3, 6, 2),
        (BufferType::F32, 5, 20, 4),
        (BufferType::U64, 1, 8, 8),
        (BufferType::I64, 13, 104, 8),
        (BufferType::F64, 0, 0, 8),
    ];
    for (ty, length, size, align) in table {
        let buffer = TypeDefinition::Buffer(Buffer::new(ty, length));
        assert_eq!(buffer.size_of().unwrap(), size);
        assert_eq!(buffer.align_of().unwrap(), align);
    }
}

#[test]
fn buffers_without_a_layout() {
    let open = TypeDefinition::Buffer(Buffer::unbounded(BufferType::U8));
    assert!(matches!(open.size_of(), Err(Error::UnsupportedLayout)));
    assert!(matches!(open.align_of(), Err(Error::UnsupportedLayout)));
    let holder = structure(true, vec![("b", open)]);
    assert!(matches!(holder.size_of(), Err(Error::UnsupportedLayout)));
    let huge = TypeDefinition::Buffer(Buffer::new(BufferType::U64, usize::MAX));
    assert!(matches!(huge.size_of(), Err(Error::UnsupportedLayout)));
    assert_eq!(huge.align_of().unwrap(), 8);
    let fits = TypeDefinition::Buffer(Buffer::new(BufferType::U8, usize::MAX));
    assert_eq!(fits.size_of().unwrap(), usize::MAX);
    let too_much = structure(true, vec![("a", primitive(NativeType::U8)), ("b", fits)]);
    assert!(matches!(too_much.size_of(), Err(Error::UnsupportedLayout)));
}

#[test]
fn buffer_fields_lie_inline() {
    let holder = structure(
        true,
        vec![
            ("x", primitive(NativeType::U8)),
            ("b", TypeDefinition::Buffer(Buffer::new(BufferType::U16, 3))),
            ("y", primitive(NativeType::U32)),
        ],
    );
    assert_eq!(holder.align_of().unwrap(), 4);
    assert_eq!(holder.size_of().unwrap(), 12);
    let packed = structure(
        false,
        vec![
            ("x", primitive(NativeType::U8)),
            ("b", TypeDefinition::Buffer(Buffer::new(BufferType::U16, 3))),
            ("y", primitive(NativeType::U32)),
        ],
    );
    assert_eq!(packed.size_of().unwrap(), 11);
}

#[test]
fn empty_composites_have_no_size_and_no_alignment() {
    assert_eq!(structure(true, vec![]).size_of().unwrap(), 0);
    assert_eq!(structure(true, vec![]).align_of().unwrap(), 0);
    assert_eq!(structure(false, vec![]).size_of().unwrap(), 0);
    let tuple = TypeDefinition::Tuple(Tuple::new(None, true, vec![]));
    assert_eq!(tuple.size_of().unwrap(), 0);
    assert_eq!(tuple.align_of().unwrap(), 0);
}

#[test]
fn padded_struct_rounds_up_to_its_alignment() {
    let padded = structure(
        true,
        vec![("a", primitive(NativeType::U8)), ("b", primitive(NativeType::U32))],
    );
    assert_eq!(padded.align_of().unwrap(), 4);
    assert_eq!(padded.size_of().unwrap(), 8);

    let tail = structure(
        true,
        vec![("a", primitive(NativeType::U64)), ("b", primitive(NativeType::U8))],
    );
    assert_eq!(tail.align_of().unwrap(), 8);
    assert_eq!(tail.size_of().unwrap(), 16);
}

#[test]
fn packed_struct_adds_its_fields_up() {
    let packed = structure(
        false,
        vec![("a", primitive(NativeType::U8)), ("b", primitive(NativeType::U32))],
    );
    assert_eq!(packed.align_of().unwrap(), 4);
    assert_eq!(packed.size_of().unwrap(), 5);
}

#[test]
fn nested_composites_lay_out_inline() {
    let inner = structure(
        false,
        vec![
            ("inner_a", primitive(NativeType::U32)),
            ("inner_b", primitive(NativeType::Pointer)),
        ],
    );
    assert_eq!(inner.size_of().unwrap(), 12);
    assert_eq!(inner.align_of().unwrap(), 8);
    let outer = structure(true, vec![("d", primitive(NativeType::I8)), ("g", inner)]);
    assert_eq!(outer.align_of().unwrap(), 8);
    assert_eq!(outer.size_of().unwrap(), 24);
}

#[test]
fn example_struct_takes_twenty_four_bytes() {
    let example = TypeDefinition::Struct(Struct::new(
        Some("Example"),
        true,
        vec![
            ("a".to_string(), pointer(primitive(NativeType::U16))),
            (
                "b".to_string(),
                TypeDefinition::Buffer(Buffer::new(BufferType::U64, 1)),
            ),
            ("c".to_string(), primitive(NativeType::Pointer)),
        ],
    ));
    assert_eq!(example.size_of().unwrap(), 24);
    assert_eq!(example.size_of().unwrap() % 8, 0);
    assert_eq!(example.align_of().unwrap(), 8);
    assert_eq!(example.field_count(), 3);
    assert!(example.is_padded());
}

#[test]
fn accessors_of_composites() {
    let s = structure(
        false,
        vec![("a", primitive(NativeType::U8)), ("b", TypeDefinition::CString)],
    );
    assert_eq!(s.field_count(), 2);
    assert!(!s.is_padded());
    assert!(matches!(s.field(1), TypeDefinition::CString));
    assert_eq!(primitive(NativeType::U8).field_count(), 0);
    assert!(!primitive(NativeType::U8).is_padded());
}

use deno_bindgen_codegen::error::{unknown_type, Error};
use deno_bindgen_codegen::ordered::{unique, OrderedSet};
use deno_bindgen_codegen::source::Source;
use deno_bindgen_codegen::text::{
    boolean_string, chars_of, decimal_string, extend_texts, hexadecimal_string, indent, join,
    push_text, same, substitute,
};

#[test]
fn decimal_numerals() {
    assert_eq!(decimal_string(0), "0");
    assert_eq!(decimal_string(7), "7");
    assert_eq!(decimal_string(10), "10");
    assert_eq!(decimal_string(1234), "1234");
    assert_eq!(decimal_string(usize::MAX), usize::MAX.to_string());
}

#[test]
fn hexadecimal_numerals() {
    assert_eq!(hexadecimal_string(0), "0");
    assert_eq!(hexadecimal_string(15), "f");
    assert_eq!(hexadecimal_string(16), "10");
    assert_eq!(hexadecimal_string(255), "ff");
    assert_eq!(hexadecimal_string(0xdead_beef), "deadbeef");
    assert_eq!(hexadecimal_string(u64::MAX), "ffffffffffffffff");
}

#[test]
fn booleans() {
    assert_eq!(boolean_string(true), "true");
    assert_eq!(boolean_string(false), "false");
}

#[test]
fn characters_keep_their_order() {
    assert_eq!(chars_of("aé{}"), vec!['a', 'é', '{', '}']);
    assert_eq!(chars_of(""), Vec::<char>::new());
}

#[test]
fn substitution_replaces_every_placeholder() {
    assert_eq!(substitute("{}", "x"), "x");
    assert_eq!(substitute("f({})", "x"), "f(x)");
    assert_eq!(substitute("{}+{}", "ab"), "ab+ab");
    assert_eq!(substitute("no placeholder", "x"), "no placeholder");
    assert_eq!(substitute("{{}}", "x"), "{x}");
    assert_eq!(substitute("{", "x"), "{");
    assert_eq!(substitute("{ }", "x"), "{ }");
    assert_eq!(substitute("", "x"), "");
    assert_eq!(substitute("a{}", "{}"), "a{}");
}

#[test]
fn substitution_agrees_with_std() {
    for template in ["{}", "a{}b{}c", "}{", "{}{}{}", "é{}é"] {
        assert_eq!(substitute(template, "<v>"), template.replace("{}", "<v>"));
    }
}

#[test]
fn joining() {
    let none: Vec<String> = Vec::new();
    assert_eq!(join(&none, ", "), "");
    assert_eq!(join(&vec!["a".to_string()], ", "), "a");
    assert_eq!(
        join(&vec!["a".to_string(), "b".to_string(), "c".to_string()], ", "),
        "a, b, c"
    );
}

#[test]
fn indenting() {
    assert_eq!(indent("a\nb\n", 2), "a\n  b\n  ");
    assert_eq!(indent("ab", 2), "ab");
    assert_eq!(indent("\n", 0), "\n");
}

#[test]
fn lists_of_texts() {
    let mut lines = vec!["a".to_string()];
    push_text(&mut lines, "b".to_string());
    extend_texts(&mut lines, &vec!["c".to_string(), "d".to_string()]);
    assert_eq!(lines, vec!["a", "b", "c", "d"]);
}

#[test]
fn equality_of_texts() {
    assert!(same("abc", "abc"));
    assert!(!same("abc", "abd"));
    assert!(!same("abc", "ab"));
}

#[test]
fn source_grows_at_its_end() {
    let mut source = Source::new();
    assert_eq!(source.read(), "");
    source.write_str("ab");
    source.write_char('c');
    source.write_str("d");
    assert_eq!(source.read(), "abcd");
}

#[test]
fn ordered_set_keeps_first_insertion() {
    let mut set = OrderedSet::new();
    assert_eq!(set.len(), 0);
    assert!(set.insert("b".to_string()));
    assert!(set.insert("a".to_string()));
    assert!(!set.insert("b".to_string()));
    assert_eq!(set.len(), 2);
    assert_eq!(set.get(0), Some(&"b".to_string()));
    assert_eq!(set.get(1), Some(&"a".to_string()));
    assert_eq!(set.get(2), None);
    assert_eq!(set.position("a"), Some(1));
    assert_eq!(set.position("b"), Some(0));
    assert_eq!(set.position("c"), None);
    assert_eq!(set.to_vec(), vec!["b", "a"]);
}

#[test]
fn unique_keeps_order_of_first_appearance() {
    let items: Vec<String> = ["x", "y", "x", "z", "y", "x"]
        .iter()
        .map(|s| s.to_string())
        .collect();
    assert_eq!(unique(&items), vec!["x", "y", "z"]);
    assert_eq!(unique(&Vec::new()), Vec::<String>::new());
}

#[test]
fn error_messages() {
    assert_eq!(unknown_type("foo").message(), "Unknown type: foo");
    assert!(matches!(unknown_type("foo"), Error::UnknownType(name) if name == "foo"));
    assert_eq!(
        Error::InvalidIR("twice".to_string()).message(),
        "Invalid IR: twice"
    );
    assert_eq!(Error::UnsupportedLayout.message(), "Unsupported layout");
}

use std::fmt;

use weird_mutex::impls::debug_string_of_quoted;
use weird_mutex::WeirdMutex;

/// What the standard struct builder prints for the label `WeirdMutex` and
/// one field `type` that holds the given name.
struct Built<'a>(&'a str);

impl fmt::Debug for Built<'_> {
    fn fmt(&self, f: &mut fmt::Formatter<'_>) -> fmt::Result {
        f.debug_struct("WeirdMutex").field("type", &self.0).finish()
    }
}

#[test]
fn debug_string_names_the_stored_type() {
    let m = WeirdMutex::new(7i32);
    assert_eq!(m.debug_string("i32", false), "WeirdMutex { type: \"i32\" }");
}

#[test]
fn debug_string_in_alternate_form() {
    let m = WeirdMutex::new(7i32);
    assert_eq!(m.debug_string("i32", true), "WeirdMutex {\n    type: \"i32\",\n}");
}

#[test]
fn debug_string_of_a_path_name() {
    let m = WeirdMutex::new(String::new());
    assert_eq!(
        m.debug_string("alloc::string::String", false),
        "WeirdMutex { type: \"alloc::string::String\" }"
    );
}

#[test]
fn debug_string_does_not_show_the_value() {
    let a = WeirdMutex::new(987654321u64);
    let b = WeirdMutex::new(5u64);
    let text = a.debug_string("u64", false);
    assert!(!text.contains("987654321"));
    assert_eq!(text, b.debug_string("u64", false));
    assert_eq!(text, "WeirdMutex { type: \"u64\" }");
    assert_eq!(a.debug_string("u64", true), b.debug_string("u64", true));

    let s = WeirdMutex::new(String::from("payload"));
    assert!(!s.debug_string("alloc::string::String", false).contains("payload"));
    assert!(!s.debug_string("alloc::string::String", true).contains("payload"));
}

#[test]
fn debug_string_escapes_the_name_as_std_does() {
    let m = WeirdMutex::new(0u8);
    assert_eq!(m.debug_string("a\"b", false), "WeirdMutex { type: \"a\\\"b\" }");
    assert_eq!(m.debug_string("a\\b", false), "WeirdMutex { type: \"a\\\\b\" }");
    assert_eq!(m.debug_string("a\nb", false), "WeirdMutex { type: \"a\\nb\" }");
    assert_eq!(m.debug_string("a\nb", true), "WeirdMutex {\n    type: \"a\\nb\",\n}");
    assert_eq!(m.debug_string("Tag<'x'>", false), "WeirdMutex { type: \"Tag<'x'>\" }");
}

#[test]
fn debug_string_is_what_the_struct_builder_prints() {
    let m = WeirdMutex::new(false);
    let names = [
        "bool",
        "&str",
        "[u8; 4]",
        "fn(i32) -> i32",
        "core::option::Option<alloc::vec::Vec<u8>>",
        "caf\u{e9}",
        "tab\there",
        "line\nbreak",
        "quote\"inside",
        "",
    ];
    for name in names {
        assert_eq!(m.debug_string(name, false), format!("{:?}", Built(name)));
        assert_eq!(m.debug_string(name, true), format!("{:#?}", Built(name)));
    }
}

#[test]
fn debug_string_of_an_empty_name() {
    let m = WeirdMutex::new(());
    assert_eq!(m.debug_string("", false), "WeirdMutex { type: \"\" }");
    assert_eq!(m.debug_string("", true), "WeirdMutex {\n    type: \"\",\n}");
}

#[test]
fn debug_string_of_quoted_lays_out_label_and_field() {
    assert_eq!(debug_string_of_quoted("\"i32\"", false), "WeirdMutex { type: \"i32\" }");
    assert_eq!(debug_string_of_quoted("", false), "WeirdMutex { type:  }");
    assert_eq!(debug_string_of_quoted("x y", false), "WeirdMutex { type: x y }");
}

#[test]
fn debug_string_of_quoted_in_alternate_form() {
    assert_eq!(debug_string_of_quoted("\"i32\"", true), "WeirdMutex {\n    type: \"i32\",\n}");
    assert_eq!(debug_string_of_quoted("", true), "WeirdMutex {\n    type: ,\n}");
}

#[test]
fn debug_string_is_the_layout_of_the_quoted_name() {
    let m = WeirdMutex::new(1u16);
    let quoted = format!("{:?}", "u16");
    assert_eq!(m.debug_string("u16", false), debug_string_of_quoted(&quoted, false));
    assert_eq!(m.debug_string("u16", true), debug_string_of_quoted(&quoted, true));
}

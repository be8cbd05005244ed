use enumerate::generate::ToSnakeCase;

#[test]
fn camel_case_gets_separators() {
    assert_eq!(String::from("FooBar").to_snake_case(), "foo_bar");
}

#[test]
fn all_caps_is_separated_letter_by_letter() {
    assert_eq!(String::from("ABC").to_snake_case(), "a_b_c");
}

#[test]
fn lowercase_is_unchanged() {
    assert_eq!(String::from("shape").to_snake_case(), "shape");
}

#[test]
fn single_uppercase_letter_gets_no_leading_separator() {
    assert_eq!(String::from("A").to_snake_case(), "a");
}

#[test]
fn leading_uppercase_gets_no_leading_separator() {
    assert_eq!(String::from("Shape").to_snake_case(), "shape");
}

#[test]
fn empty_identifier_stays_empty() {
    assert_eq!(String::from("").to_snake_case(), "");
}

#[test]
fn digits_and_underscores_pass_through() {
    assert_eq!(String::from("Vec2D").to_snake_case(), "vec2_d");
    assert_eq!(String::from("already_snake").to_snake_case(), "already_snake");
}

#[test]
fn non_ascii_uppercase_is_lowered_and_separated() {
    assert_eq!(String::from("a\u{c9}").to_snake_case(), "a_\u{e9}");
    assert_eq!(String::from("\u{c9}clair").to_snake_case(), "\u{e9}clair");
}

#[test]
fn converting_twice_equals_converting_once() {
    for s in ["FooBar", "ABC", "shape", "Vec2D", "a\u{c9}"] {
        let once = String::from(s).to_snake_case();
        assert_eq!(once.to_snake_case(), once);
    }
}

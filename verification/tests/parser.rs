use enumerate::parse::{Alias, Arguments, EnumName, ParseError, ParseErrorKind, Token};

fn id(s: &str) -> Token {
    Token::Ident(s.to_string())
}

#[test]
fn empty_arguments_are_accepted() {
    let a = Arguments::parse(&vec![]).unwrap();
    assert!(a.enum_name.is_none());
    assert!(a.impls.is_empty());
}

#[test]
fn single_implementer_without_alias() {
    let a = Arguments::parse(&vec![id("Circle")]).unwrap();
    assert!(a.enum_name.is_none());
    assert_eq!(a.impls.len(), 1);
    assert_eq!(a.impls[0].path, vec!["Circle".to_string()]);
    assert!(a.impls[0].alias.is_none());
    assert_eq!(a.impls[0].alias().as_str(), "Circle");
}

#[test]
fn override_name_is_found_by_lookahead() {
    let t = vec![id("Shape"), Token::Colon, id("Circle"), Token::Comma, id("Square"), Token::As, id("Sq")];
    let a = Arguments::parse(&t).unwrap();
    assert_eq!(a.enum_name, Some("Shape".to_string()));
    assert_eq!(a.impls.len(), 2);
    assert_eq!(a.impls[0].alias().as_str(), "Circle");
    assert_eq!(a.impls[1].path, vec!["Square".to_string()]);
    assert_eq!(a.impls[1].alias, Some("Sq".to_string()));
    assert_eq!(a.impls[1].alias().as_str(), "Sq");
}

#[test]
fn qualified_path_with_alias() {
    let t = vec![
        id("geometry"),
        Token::PathSep,
        id("round"),
        Token::PathSep,
        id("Circle"),
        Token::As,
        id("Round"),
    ];
    let a = Arguments::parse(&t).unwrap();
    assert_eq!(
        a.impls[0].path,
        vec!["geometry".to_string(), "round".to_string(), "Circle".to_string()]
    );
    assert_eq!(a.impls[0].alias().as_str(), "Round");
}

#[test]
fn qualified_path_without_alias_uses_last_segment() {
    let t = vec![id("geometry"), Token::PathSep, id("Circle")];
    let a = Arguments::parse(&t).unwrap();
    assert_eq!(a.impls[0].alias().as_str(), "Circle");
}

#[test]
fn override_name_with_empty_implementer_list() {
    let a = Arguments::parse(&vec![id("Shape"), Token::Colon]).unwrap();
    assert_eq!(a.enum_name, Some("Shape".to_string()));
    assert!(a.impls.is_empty());
}

#[test]
fn trailing_comma_is_rejected() {
    let e = Arguments::parse(&vec![id("Circle"), Token::Comma]).unwrap_err();
    assert_eq!(e, ParseError { kind: ParseErrorKind::ExpectedType, pos: 2 });
}

#[test]
fn leading_comma_is_rejected() {
    let e = Arguments::parse(&vec![Token::Comma]).unwrap_err();
    assert_eq!(e, ParseError { kind: ParseErrorKind::ExpectedType, pos: 0 });
}

#[test]
fn adjacent_identifiers_are_rejected() {
    let e = Arguments::parse(&vec![id("Circle"), id("Square")]).unwrap_err();
    assert_eq!(e, ParseError { kind: ParseErrorKind::ExpectedCommaOrEnd, pos: 1 });
}

#[test]
fn dangling_as_is_rejected() {
    let e = Arguments::parse(&vec![id("Circle"), Token::As]).unwrap_err();
    assert_eq!(e, ParseError { kind: ParseErrorKind::ExpectedAlias, pos: 2 });
}

#[test]
fn dangling_path_separator_is_rejected() {
    let e = Arguments::parse(&vec![id("geometry"), Token::PathSep]).unwrap_err();
    assert_eq!(e, ParseError { kind: ParseErrorKind::ExpectedSegment, pos: 2 });
}

#[test]
fn colon_after_non_identifier_is_rejected() {
    let e = Arguments::parse(&vec![Token::Comma, Token::Colon]).unwrap_err();
    assert_eq!(e.kind, ParseErrorKind::ExpectedType);
    assert_eq!(e.pos, 0);
}

#[test]
fn error_messages_describe_the_failure() {
    let e = Arguments::parse(&vec![id("Circle"), Token::As]).unwrap_err();
    assert_eq!(e.message(), "expected an alias identifier after `as`");
    let e = Arguments::parse(&vec![Token::Comma]).unwrap_err();
    assert_eq!(e.message(), "expected a type identifier");
}

#[test]
fn alias_parse_requires_as() {
    let e = Alias::parse(&vec![id("Circle")], 0).unwrap_err();
    assert_eq!(e, ParseError { kind: ParseErrorKind::ExpectedAs, pos: 0 });
    let (a, j) = Alias::parse(&vec![Token::As, id("Sq")], 0).unwrap();
    assert_eq!(a.0, "Sq");
    assert_eq!(j, 2);
}

#[test]
fn enum_name_parse_uses_two_token_lookahead() {
    let e = EnumName::parse(&vec![id("Shape")]).unwrap_err();
    assert_eq!(e.kind, ParseErrorKind::NoOverrideName);
    let (en, j) = EnumName::parse(&vec![id("Shape"), Token::Colon]).unwrap();
    assert_eq!(en.0, "Shape");
    assert_eq!(j, 2);
}

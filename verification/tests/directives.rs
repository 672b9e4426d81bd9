use builder::diagnostic::Malformation;
use builder::directive::{
    is_assignment_token, parse_directive, value_of, AttrInput, Directive, DirectiveOutcome,
};
use builder::schema::{RawToken, TokenKind};

fn token(kind: TokenKind, text: &str) -> RawToken {
    RawToken { kind, text: text.to_string(), string_value: None }
}

fn ident(text: &str) -> RawToken {
    token(TokenKind::Ident, text)
}

fn punct(text: &str) -> RawToken {
    token(TokenKind::Punct, text)
}

/// A literal that is no string: a number, a character, a byte string.
fn literal(text: &str) -> RawToken {
    token(TokenKind::Literal, text)
}

/// A string literal that stands for `value`.
fn string(value: &str) -> RawToken {
    RawToken {
        kind: TokenKind::Literal,
        text: format!("{:?}", value),
        string_value: Some(value.to_string()),
    }
}

fn group(text: &str) -> RawToken {
    token(TokenKind::Group, text)
}

fn each(value: RawToken) -> Vec<RawToken> {
    vec![ident("each"), punct("="), value]
}

#[test]
fn no_tokens_are_no_directive() {
    assert_eq!(parse_directive(&vec![]), DirectiveOutcome::Absent);
}

#[test]
fn each_with_a_name_is_valid() {
    assert_eq!(
        parse_directive(&each(string("arg"))),
        DirectiveOutcome::Valid(Directive::Each("arg".to_string()))
    );
}

#[test]
fn the_value_is_what_the_literal_stands_for() {
    // However the literal is written, the name is the string it stands for.
    let raw = RawToken {
        kind: TokenKind::Literal,
        text: "r#\"arg\"#".to_string(),
        string_value: Some("arg".to_string()),
    };
    assert_eq!(
        parse_directive(&each(raw)),
        DirectiveOutcome::Valid(Directive::Each("arg".to_string()))
    );
    let escaped = RawToken {
        kind: TokenKind::Literal,
        text: "\"a\\u{72}g\"".to_string(),
        string_value: Some("arg".to_string()),
    };
    assert_eq!(
        parse_directive(&each(escaped)),
        DirectiveOutcome::Valid(Directive::Each("arg".to_string()))
    );
    // The text as written does not count, even where it reads as a name.
    let misleading = RawToken {
        kind: TokenKind::Literal,
        text: "arg".to_string(),
        string_value: Some("two words".to_string()),
    };
    assert_eq!(
        parse_directive(&each(misleading)),
        DirectiveOutcome::Malformed(Malformation::ValueNotIdentifier)
    );
}

#[test]
fn the_value_is_found_in_the_third_token_only() {
    assert_eq!(value_of(&vec![]), None);
    assert_eq!(value_of(&vec![string("a"), string("b")]), None);
    assert_eq!(
        value_of(&vec![string("a"), string("b"), string("c")]),
        Some(&"c".to_string())
    );
    assert_eq!(value_of(&each(string("arg"))), Some(&"arg".to_string()));
    assert_eq!(value_of(&each(literal("42"))), None);
    // A token that is no literal has no value, whatever it carries.
    let odd = RawToken {
        kind: TokenKind::Ident,
        text: "arg".to_string(),
        string_value: Some("arg".to_string()),
    };
    assert_eq!(value_of(&each(odd)), None);
}

#[test]
fn the_assignment_is_one_punctuation_token() {
    assert!(is_assignment_token(&punct("=")));
    assert!(!is_assignment_token(&punct("==")));
    assert!(!is_assignment_token(&punct(",")));
    assert!(!is_assignment_token(&ident("=")));
    assert!(!is_assignment_token(&literal("=")));
}

#[test]
fn another_key_is_unrecognized() {
    let tokens = vec![ident("eac"), punct("="), string("arg")];
    assert_eq!(parse_directive(&tokens), DirectiveOutcome::Unrecognized("eac".to_string()));
    assert_eq!(
        parse_directive(&vec![ident("skip")]),
        DirectiveOutcome::Unrecognized("skip".to_string())
    );
}

#[test]
fn a_first_token_that_is_no_name_is_unrecognized() {
    assert_eq!(
        parse_directive(&vec![string("each"), punct("="), string("arg")]),
        DirectiveOutcome::Unrecognized("\"each\"".to_string())
    );
    assert_eq!(
        parse_directive(&vec![punct("="), string("arg")]),
        DirectiveOutcome::Unrecognized("=".to_string())
    );
    assert_eq!(
        parse_directive(&vec![group("(each)")]),
        DirectiveOutcome::Unrecognized("(each)".to_string())
    );
}

#[test]
fn each_without_assignment_is_malformed() {
    assert_eq!(
        parse_directive(&vec![ident("each")]),
        DirectiveOutcome::Malformed(Malformation::MissingAssignment)
    );
    assert_eq!(
        parse_directive(&vec![ident("each"), string("arg")]),
        DirectiveOutcome::Malformed(Malformation::MissingAssignment)
    );
    assert_eq!(
        parse_directive(&vec![ident("each"), punct(","), string("arg")]),
        DirectiveOutcome::Malformed(Malformation::MissingAssignment)
    );
    assert_eq!(
        parse_directive(&vec![ident("each"), ident("="), string("arg")]),
        DirectiveOutcome::Malformed(Malformation::MissingAssignment)
    );
}

#[test]
fn each_with_a_value_that_is_no_string_is_malformed() {
    assert_eq!(
        parse_directive(&vec![ident("each"), punct("=")]),
        DirectiveOutcome::Malformed(Malformation::ValueNotString)
    );
    assert_eq!(
        parse_directive(&each(ident("arg"))),
        DirectiveOutcome::Malformed(Malformation::ValueNotString)
    );
    assert_eq!(
        parse_directive(&each(group("(\"arg\")"))),
        DirectiveOutcome::Malformed(Malformation::ValueNotString)
    );
    for text in ["42", "1.5", "b\"arg\"", "'a'", "c\"arg\""] {
        assert_eq!(
            parse_directive(&each(literal(text))),
            DirectiveOutcome::Malformed(Malformation::ValueNotString),
            "literal {}",
            text
        );
    }
}

#[test]
fn each_with_a_value_that_is_no_identifier_is_malformed() {
    for value in ["", "1abc", "a-b", "two words", "42", " arg", "arg ", "r#arg"] {
        assert_eq!(
            parse_directive(&each(string(value))),
            DirectiveOutcome::Malformed(Malformation::ValueNotIdentifier),
            "value {:?}",
            value
        );
    }
}

#[test]
fn each_with_something_after_the_value_is_malformed() {
    let mut tokens = each(string("arg"));
    tokens.push(punct(","));
    assert_eq!(
        parse_directive(&tokens),
        DirectiveOutcome::Malformed(Malformation::TrailingTokens)
    );
}

#[test]
fn the_first_fault_from_the_left_is_reported() {
    // Both the value and what follows it are wrong: the value comes first.
    let mut tokens = each(string("1abc"));
    tokens.push(punct(","));
    assert_eq!(
        parse_directive(&tokens),
        DirectiveOutcome::Malformed(Malformation::ValueNotIdentifier)
    );
    // No assignment and no string: the assignment comes first.
    assert_eq!(
        parse_directive(&vec![ident("each"), punct("+"), ident("x")]),
        DirectiveOutcome::Malformed(Malformation::MissingAssignment)
    );
}

#[test]
fn attr_input_keeps_key_and_value() {
    let tokens = vec![ident("other"), punct("="), string("name")];
    assert_eq!(
        AttrInput::parse(&tokens),
        Ok(AttrInput { ident: "other".to_string(), value: "name".to_string() })
    );
    assert_eq!(
        AttrInput::parse(&each(string("arg"))),
        Ok(AttrInput { ident: "each".to_string(), value: "arg".to_string() })
    );
}

#[test]
fn attr_input_needs_a_key() {
    assert_eq!(AttrInput::parse(&vec![]), Err(Malformation::MissingKey));
    assert_eq!(
        AttrInput::parse(&vec![string("each"), punct("="), string("arg")]),
        Err(Malformation::MissingKey)
    );
}

#[test]
fn attr_input_from_parts_follows_what_it_is_told() {
    let tokens = each(string("arg"));
    assert_eq!(
        AttrInput::from_parts(&tokens, true),
        Ok(AttrInput { ident: "each".to_string(), value: "arg".to_string() })
    );
    assert_eq!(AttrInput::from_parts(&tokens, false), Err(Malformation::ValueNotIdentifier));
    // Told that it is one, it takes even a value that is no identifier.
    assert_eq!(
        AttrInput::from_parts(&each(string("two words")), true),
        Ok(AttrInput { ident: "each".to_string(), value: "two words".to_string() })
    );
    assert_eq!(
        AttrInput::from_parts(&each(literal("42")), true),
        Err(Malformation::ValueNotString)
    );
    assert_eq!(
        AttrInput::from_parts(&each(literal("42")), false),
        Err(Malformation::ValueNotString)
    );
    let mut longer = each(string("arg"));
    longer.push(ident("x"));
    assert_eq!(AttrInput::from_parts(&longer, true), Err(Malformation::TrailingTokens));
    assert_eq!(
        AttrInput::from_parts(&vec![ident("each")], true),
        Err(Malformation::MissingAssignment)
    );
    assert_eq!(AttrInput::from_parts(&vec![], true), Err(Malformation::MissingKey));
}

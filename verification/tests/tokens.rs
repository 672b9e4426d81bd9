use std::str::FromStr;

use builder::diagnostic::Malformation;
use builder::directive::{parse_directive, Directive, DirectiveOutcome};
use builder::schema::{RawToken, TokenKind};
use proc_macro2::{TokenStream, TokenTree};
use syn::Lit;

/// Reads source text into tokens, each string literal with the string that it
/// stands for.
fn tokens_of(source: &str) -> Vec<RawToken> {
    TokenStream::from_str(source)
        .unwrap()
        .into_iter()
        .map(|tree| {
            let text = tree.to_string();
            let (kind, string_value) = match tree {
                TokenTree::Ident(_) => (TokenKind::Ident, None),
                TokenTree::Punct(_) => (TokenKind::Punct, None),
                TokenTree::Literal(literal) => (
                    TokenKind::Literal,
                    match Lit::new(literal) {
                        Lit::Str(string) => Some(string.value()),
                        _ => None,
                    },
                ),
                TokenTree::Group(_) => (TokenKind::Group, None),
            };
            RawToken { kind, text, string_value }
        })
        .collect()
}

fn each(name: &str) -> DirectiveOutcome {
    DirectiveOutcome::Valid(Directive::Each(name.to_string()))
}

#[test]
fn source_text_is_read_token_by_token() {
    assert_eq!(
        tokens_of("each = \"arg\""),
        vec![
            RawToken { kind: TokenKind::Ident, text: "each".to_string(), string_value: None },
            RawToken { kind: TokenKind::Punct, text: "=".to_string(), string_value: None },
            RawToken {
                kind: TokenKind::Literal,
                text: "\"arg\"".to_string(),
                string_value: Some("arg".to_string()),
            },
        ]
    );
}

#[test]
fn directives_in_source_text_are_valid() {
    assert_eq!(parse_directive(&tokens_of("each = \"arg\"")), each("arg"));
    assert_eq!(parse_directive(&tokens_of("each=\"arg\"")), each("arg"));
    assert_eq!(parse_directive(&tokens_of("each = r\"arg\"")), each("arg"));
    assert_eq!(parse_directive(&tokens_of("each = r#\"arg\"#")), each("arg"));
    assert_eq!(parse_directive(&tokens_of("each = \"a\\u{72}g\"")), each("arg"));
    assert_eq!(parse_directive(&tokens_of("each = \"\u{e9}t\u{e9}\"")), each("\u{e9}t\u{e9}"));
    assert_eq!(parse_directive(&tokens_of("")), DirectiveOutcome::Absent);
}

#[test]
fn directives_in_source_text_are_refused() {
    let malformed = |source: &str| match parse_directive(&tokens_of(source)) {
        DirectiveOutcome::Malformed(fault) => Some(fault),
        _ => None,
    };
    assert_eq!(malformed("each"), Some(Malformation::MissingAssignment));
    assert_eq!(malformed("each(\"arg\")"), Some(Malformation::MissingAssignment));
    assert_eq!(malformed("each: \"arg\""), Some(Malformation::MissingAssignment));
    assert_eq!(malformed("each ="), Some(Malformation::ValueNotString));
    assert_eq!(malformed("each = arg"), Some(Malformation::ValueNotString));
    assert_eq!(malformed("each = 42"), Some(Malformation::ValueNotString));
    assert_eq!(malformed("each = b\"arg\""), Some(Malformation::ValueNotString));
    assert_eq!(malformed("each = 'a'"), Some(Malformation::ValueNotString));
    assert_eq!(malformed("each = (\"arg\")"), Some(Malformation::ValueNotString));
    assert_eq!(malformed("each == \"arg\""), Some(Malformation::ValueNotString));
    assert_eq!(malformed("each = \"\""), Some(Malformation::ValueNotIdentifier));
    assert_eq!(malformed("each = \"1st\""), Some(Malformation::ValueNotIdentifier));
    assert_eq!(malformed("each = \"a b\""), Some(Malformation::ValueNotIdentifier));
    assert_eq!(malformed("each = \"a\\nb\""), Some(Malformation::ValueNotIdentifier));
    assert_eq!(malformed("each = \"arg\","), Some(Malformation::TrailingTokens));
    assert_eq!(malformed("each = \"arg\" \"more\""), Some(Malformation::TrailingTokens));
    assert_eq!(
        parse_directive(&tokens_of("eac = \"arg\"")),
        DirectiveOutcome::Unrecognized("eac".to_string())
    );
    assert_eq!(
        parse_directive(&tokens_of("\"each\" = \"arg\"")),
        DirectiveOutcome::Unrecognized("\"each\"".to_string())
    );
}

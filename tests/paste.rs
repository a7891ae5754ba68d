use idpaste::error::{ErrorKind, PasteError};
use idpaste::paste::{paste, EnvVar, Pasted};
use idpaste::segment::{parse, Segment};
use idpaste::token::{Delimiter, Span, Token};
use idpaste::transform::{camelize, snake};

fn sp(lo: u32) -> Span {
    Span { lo, hi: lo + 1 }
}

fn ident(s: &str) -> Token {
    Token::Ident { text: s.to_string(), span: sp(0) }
}

fn lit(s: &str) -> Token {
    Token::Literal { text: s.to_string(), span: sp(0) }
}

fn punct(c: char) -> Token {
    Token::Punct { ch: c, span: sp(0) }
}

fn group(delimiter: Delimiter, stream: Vec<Token>) -> Token {
    Token::Group { delimiter, stream, span: sp(0) }
}

fn modifier(name: &str) -> Vec<Token> {
    vec![punct(':'), ident(name)]
}

fn run(tokens: Vec<Token>, env: Vec<EnvVar>) -> Result<Pasted, PasteError> {
    let (segs, _) = parse(&tokens)?;
    paste(&segs, &env)
}

fn text(tokens: Vec<Token>) -> String {
    run(tokens, vec![]).unwrap().text
}

fn kind(tokens: Vec<Token>, env: Vec<EnvVar>) -> ErrorKind {
    run(tokens, env).unwrap_err().kind
}

fn with_modifier(value: &str, name: &str) -> String {
    let mut tokens = vec![ident(value)];
    tokens.extend(modifier(name));
    text(tokens)
}

fn frag(s: &str) -> Segment<'static> {
    Segment::Text { value: s.to_string(), span: sp(0) }
}

#[test]
fn concatenation_of_fragments() {
    let segs = vec![frag("Foo"), frag("_"), frag("Bar")];
    let r = paste(&segs, &vec![]).unwrap();
    assert_eq!(r.text, "Foo_Bar");
    assert!(!r.raw);
    assert!(!r.lifetime);
}

#[test]
fn concatenation_from_tokens() {
    assert_eq!(text(vec![ident("Foo"), punct('_'), ident("Bar"), lit("1")]), "Foo_Bar1");
}

#[test]
fn snake_modifier() {
    assert_eq!(with_modifier("FooBar", "snake"), "foo_bar");
    assert_eq!(snake("FooBar"), "foo_bar");
    assert_eq!(with_modifier("Foo_Bar", "snake"), "foo_bar");
}

#[test]
fn snake_modifier_on_uppercase_run() {
    assert_eq!(with_modifier("ABCFoo", "snake"), "a_b_c_foo");
}

#[test]
fn camel_modifiers() {
    assert_eq!(with_modifier("foo_bar", "camel"), "FooBar");
    assert_eq!(with_modifier("foo_bar", "upper_camel"), "FooBar");
    assert_eq!(with_modifier("foo_bar", "lower_camel"), "fooBar");
    assert_eq!(camelize("FOO_bar", false, false), "FooBar");
}

#[test]
fn camel_edge_keeps_leading_underscore() {
    assert_eq!(with_modifier("_foo_bar", "camel_edge"), "_FooBar");
    assert_eq!(with_modifier("__foo", "camel_edge"), "__Foo");
    assert_eq!(with_modifier("a__b", "camel_edge"), "A_B");
    assert_eq!(with_modifier("_foo_bar", "camel"), "FooBar");
}

#[test]
fn lower_and_upper_modifiers() {
    assert_eq!(with_modifier("FooBar", "lower"), "foobar");
    assert_eq!(with_modifier("FooBar", "upper"), "FOOBAR");
}

#[test]
fn lower_twice_is_lower_once() {
    let mut once = vec![ident("FooBAR")];
    once.extend(modifier("lower"));
    let mut twice = vec![ident("FooBAR")];
    twice.extend(modifier("lower"));
    twice.extend(modifier("lower"));
    assert_eq!(text(once), "foobar");
    assert_eq!(text(twice), "foobar");
}

fn replace_tokens(value: &str, from: Token, to: Token) -> Vec<Token> {
    vec![
        ident(value),
        punct(':'),
        ident("replace"),
        group(Delimiter::Parenthesis, vec![from, punct(','), to]),
    ]
}

#[test]
fn replace_modifier() {
    assert_eq!(text(replace_tokens("FooBar", lit("\"Foo\""), lit("\"Baz\""))), "BazBar");
    assert_eq!(text(replace_tokens("FooBar", lit("\"Qux\""), lit("\"Baz\""))), "FooBar");
    assert_eq!(text(replace_tokens("FooBar", ident("Bar"), lit("'x'"))), "Foox");
    assert_eq!(text(replace_tokens("a1a1", lit("1"), ident("b"))), "abab");
}

#[test]
fn replace_with_empty_pattern() {
    assert_eq!(text(replace_tokens("ab", lit("\"\""), ident("x"))), "xaxbx");
}

#[test]
fn replace_argument_errors() {
    let bad = replace_tokens("Foo", punct('+'), ident("x"));
    assert_eq!(kind(bad, vec![]), ErrorKind::ExpectedIdentOrLiteral);
    let short = vec![ident("Foo"), punct(':'), ident("replace"), group(Delimiter::Parenthesis, vec![ident("a")])];
    assert_eq!(kind(short, vec![]), ErrorKind::ExpectedReplaceFormat);
    let no_comma = vec![
        ident("Foo"),
        punct(':'),
        ident("replace"),
        group(Delimiter::Parenthesis, vec![ident("a"), punct(';'), ident("b")]),
    ];
    assert_eq!(kind(no_comma, vec![]), ErrorKind::ExpectedReplaceFormat);
    let long = vec![
        ident("Foo"),
        punct(':'),
        ident("replace"),
        group(Delimiter::Parenthesis, vec![ident("a"), punct(','), ident("b"), ident("c")]),
    ];
    assert_eq!(kind(long, vec![]), ErrorKind::ExpectedCloseParen);
    let no_group = vec![ident("Foo"), punct(':'), ident("replace"), ident("x")];
    assert_eq!(kind(no_group, vec![]), ErrorKind::ExpectedParenAfterReplace);
}

fn env_tokens(name: &str) -> Vec<Token> {
    vec![ident("env"), punct('!'), group(Delimiter::Parenthesis, vec![lit(name)])]
}

#[test]
fn env_reference_is_sanitized() {
    let env = vec![EnvVar { name: "MY-VAR".to_string(), value: "a-b".to_string() }];
    assert_eq!(run(env_tokens("\"MY-VAR\""), env).unwrap().text, "a_b");
}

#[test]
fn env_reference_undefined() {
    let env = vec![EnvVar { name: "OTHER".to_string(), value: "x".to_string() }];
    let e = run(env_tokens("\"MY-VAR\""), env).unwrap_err();
    assert_eq!(e.kind, ErrorKind::NoSuchEnvVar);
    assert_eq!(e.name, "MY-VAR");
    assert_eq!(e.message(), "no such env var: MY-VAR");
}

#[test]
fn env_syntax_errors() {
    assert_eq!(kind(vec![ident("env"), punct('!')], vec![]), ErrorKind::ExpectedParenAfterEnv);
    assert_eq!(kind(vec![ident("env"), punct('!'), ident("x")], vec![]), ErrorKind::ExpectedParen);
    let empty = vec![ident("env"), punct('!'), group(Delimiter::Parenthesis, vec![])];
    assert_eq!(kind(empty, vec![]), ErrorKind::ExpectedEnvArgument);
    let not_lit = vec![ident("env"), punct('!'), group(Delimiter::Parenthesis, vec![ident("X")])];
    assert_eq!(kind(not_lit, vec![]), ErrorKind::ExpectedStringLiteral);
    assert_eq!(kind(env_tokens("42"), vec![]), ErrorKind::ExpectedStringLiteral);
    let extra = vec![
        ident("env"),
        punct('!'),
        group(Delimiter::Parenthesis, vec![lit("\"X\""), punct(',')]),
    ];
    assert_eq!(kind(extra, vec![]), ErrorKind::UnexpectedTokenInEnv);
}

#[test]
fn env_without_bang_is_text() {
    assert_eq!(text(vec![ident("env"), ident("x")]), "envx");
}

#[test]
fn raw_marker_first() {
    let r = run(vec![punct('#'), ident("type")], vec![]).unwrap();
    assert!(r.raw);
    assert_eq!(r.text, "type");
}

#[test]
fn raw_marker_later_fails() {
    let e = run(vec![ident("a"), punct('#')], vec![]).unwrap_err();
    assert_eq!(e.kind, ErrorKind::MisplacedRawMarker);
}

#[test]
fn lifetime_marker() {
    let r = run(vec![punct('\''), ident("a"), ident("b")], vec![]).unwrap();
    assert!(r.lifetime);
    assert_eq!(r.text, "'ab");
    assert_eq!(kind(vec![punct('\''), ident("a"), punct('\'')], vec![]), ErrorKind::UnexpectedLifetime);
}

#[test]
fn transform_first_fails() {
    assert_eq!(kind(modifier("lower"), vec![]), ErrorKind::UnexpectedModifier);
    let rep = vec![
        punct(':'),
        ident("replace"),
        group(Delimiter::Parenthesis, vec![ident("a"), punct(','), ident("b")]),
    ];
    assert_eq!(kind(rep, vec![]), ErrorKind::ReplaceNeedsValue);
}

#[test]
fn unsupported_modifier() {
    let mut tokens = vec![ident("a")];
    tokens.extend(modifier("kebab"));
    let e = run(tokens, vec![]).unwrap_err();
    assert_eq!(e.kind, ErrorKind::UnsupportedModifier);
    assert!(e.end.is_some());
}

#[test]
fn colon_without_identifier() {
    assert_eq!(kind(vec![ident("a"), punct(':')], vec![]), ErrorKind::ExpectedIdentAfterColon);
    assert_eq!(kind(vec![ident("a"), punct(':'), lit("1")], vec![]), ErrorKind::ExpectedIdentAfterColon);
}

#[test]
fn raw_identifier_prefix_is_stripped() {
    assert_eq!(text(vec![ident("r#match"), ident("_x")]), "match_x");
}

#[test]
fn parse_stops_at_terminator() {
    let tokens = vec![ident("a"), ident("b"), punct('>'), ident("c")];
    let (segs, stop) = parse(&tokens).unwrap();
    assert_eq!(stop, 2);
    assert_eq!(segs.len(), 2);
}

#[test]
fn transparent_group_is_spliced() {
    let tokens = vec![
        ident("a"),
        group(Delimiter::Transparent, vec![ident("B"), group(Delimiter::Transparent, vec![ident("c")])]),
        punct(':'),
        ident("upper"),
    ];
    assert_eq!(text(tokens), "aBC");
}

#[test]
fn unexpected_tokens() {
    assert_eq!(kind(vec![ident("a"), punct('+')], vec![]), ErrorKind::UnexpectedPunct);
    assert_eq!(kind(vec![group(Delimiter::Bracket, vec![])], vec![]), ErrorKind::UnexpectedToken);
    let leftover = vec![group(Delimiter::Transparent, vec![ident("a"), punct('>')])];
    assert_eq!(kind(leftover, vec![]), ErrorKind::UnexpectedToken);
}

#[test]
fn error_locations() {
    let tokens = vec![
        Token::Ident { text: "a".to_string(), span: sp(1) },
        Token::Punct { ch: '+', span: sp(4) },
    ];
    let e = run(tokens, vec![]).unwrap_err();
    assert_eq!(e, PasteError { kind: ErrorKind::UnexpectedPunct, span: sp(4), end: None, name: String::new() });
}

#[test]
fn empty_expression() {
    let r = run(vec![], vec![]).unwrap();
    assert_eq!(r.text, "");
}

#[test]
fn error_messages() {
    assert_eq!(ErrorKind::UnexpectedModifier.message(), "unexpected modifier");
    assert_eq!(ErrorKind::NoSuchEnvVar.message(), "no such env var");
}

#[test]
fn defined_variable_first_of_several() {
    let env = vec![
        EnvVar { name: "A".to_string(), value: "x-y-z".to_string() },
        EnvVar { name: "A".to_string(), value: "other".to_string() },
    ];
    assert_eq!(run(env_tokens("\"A\""), env).unwrap().text, "x_y_z");
}

#[test]
fn modifier_applies_to_last_fragment_only() {
    let mut tokens = vec![ident("Foo"), ident("BarBaz")];
    tokens.extend(modifier("snake"));
    assert_eq!(text(tokens), "Foobar_baz");
}

fn nested(depth: usize) -> Vec<Token> {
    let mut t = vec![ident("x")];
    for _ in 0..depth {
        t = vec![group(Delimiter::Transparent, t)];
    }
    t
}

#[test]
fn nesting_limit() {
    assert_eq!(text(nested(128)), "x");
    assert_eq!(kind(nested(129), vec![]), ErrorKind::NestingTooDeep);
}

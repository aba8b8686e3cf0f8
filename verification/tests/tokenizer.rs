use pascal_lexer::regexes;
use pascal_lexer::Token;
use pascal_lexer::TokenType;

fn toks(src: &str) -> Vec<(TokenType, Option<String>)> {
    regexes(src).iter().map(|t: &Token| (t.get_type(), t.get_value())).collect()
}

fn kinds(src: &str) -> Vec<TokenType> {
    regexes(src).iter().map(|t: &Token| t.get_type()).collect()
}

#[test]
fn composite_spellings_are_one_token() {
    let table: Vec<(&str, TokenType)> = vec![
        (":=", TokenType::Assignment),
        ("+=", TokenType::PlusEquals),
        ("-=", TokenType::MinusEquals),
        ("*=", TokenType::TimesEquals),
        ("/=", TokenType::DivEquals),
        ("<=", TokenType::LessEqual),
        (">=", TokenType::GreaterEqual),
        ("<>", TokenType::NotEqual),
        ("><", TokenType::SymmetricDifference),
        ("**", TokenType::Exponentiation),
        ("<<", TokenType::Shl),
        (">>", TokenType::Shr),
        ("(*", TokenType::OpenBrace),
        ("*)", TokenType::CloseBrace),
        ("(.", TokenType::OpenBracket),
        (".)", TokenType::CloseBracket),
    ];
    for (spelling, kind) in table {
        let ts = toks(spelling);
        assert_eq!(ts.len(), 1, "`{}` must be a single token", spelling);
        assert_eq!(ts[0], (kind, None));
    }
    // The line-comment opener is also cut out whole, as one error token.
    let ts = toks("//");
    assert_eq!(ts.len(), 1);
    assert_eq!(ts[0].0, TokenType::Error);
}

#[test]
fn assignment_is_not_colon_then_equal() {
    assert_eq!(kinds(":="), vec![TokenType::Assignment]);
    assert_ne!(kinds(":="), vec![TokenType::Colon, TokenType::Equal]);
}

#[test]
fn alphanumeric_runs() {
    assert_eq!(toks("x1"), vec![(TokenType::Identifier, Some("x1".to_string()))]);
    assert_eq!(toks("123"), vec![(TokenType::Number, Some("123".to_string()))]);
    assert_eq!(toks("12x"), vec![(TokenType::Identifier, Some("12x".to_string()))]);
}

#[test]
fn keywords_are_case_insensitive() {
    for spelling in ["BEGIN", "Begin", "begin", "bEgIn"] {
        let ts = toks(spelling);
        assert_eq!(ts, vec![(TokenType::Begin, None)], "`{}` must be the keyword", spelling);
    }
}

#[test]
fn identifier_keeps_its_casing() {
    assert_eq!(toks("FooBar"), vec![(TokenType::Identifier, Some("FooBar".to_string()))]);
}

#[test]
fn synonyms_classify_alike() {
    assert_eq!(kinds("shl"), kinds("<<"));
    assert_eq!(kinds("shl"), vec![TokenType::Shl]);
    assert_eq!(kinds("shr"), kinds(">>"));
    assert_eq!(kinds("shr"), vec![TokenType::Shr]);
    assert_eq!(kinds("mod"), kinds("%"));
    assert_eq!(kinds("mod"), vec![TokenType::Modulus]);
    assert_eq!(kinds("{"), kinds("(*"));
    assert_eq!(kinds("{"), vec![TokenType::OpenBrace]);
    assert_eq!(kinds("}"), kinds("*)"));
    assert_eq!(kinds("}"), vec![TokenType::CloseBrace]);
    assert_eq!(kinds("["), kinds("(."));
    assert_eq!(kinds("]"), kinds(".)"));
}

#[test]
fn separated_lexemes_concatenate() {
    let pairs = [("foo", "123"), (":=", "begin"), ("(", ")"), ("x1", "<="), ("div", "y")];
    for (a, b) in pairs {
        let mut separate = toks(a);
        separate.extend(toks(b));
        let joined = toks(&format!("{} {}", a, b));
        assert_eq!(joined, separate, "`{} {}` must tokenize to the pair's tokens", a, b);
    }
}

#[test]
fn unknown_lexemes_become_error_tokens() {
    for bad in ["~", "|", "!"] {
        let ts = regexes(bad);
        assert_eq!(ts.len(), 1);
        assert!(ts[0].is_error());
        assert_eq!(ts[0].get_value(), Some(bad.to_string()));
    }
}

#[test]
fn at_sign_is_a_valid_symbol() {
    assert_eq!(
        kinds("@@@"),
        vec![TokenType::AtSign, TokenType::AtSign, TokenType::AtSign]
    );
}

#[test]
fn expression_scenario() {
    let ts = toks("foo: x = 5 + 3 ** (y - 2);");
    let expected: Vec<(TokenType, Option<String>)> = vec![
        (TokenType::Identifier, Some("foo".to_string())),
        (TokenType::Colon, None),
        (TokenType::Identifier, Some("x".to_string())),
        (TokenType::Equal, None),
        (TokenType::Number, Some("5".to_string())),
        (TokenType::Addition, None),
        (TokenType::Number, Some("3".to_string())),
        (TokenType::Exponentiation, None),
        (TokenType::OpenParen, None),
        (TokenType::Identifier, Some("y".to_string())),
        (TokenType::Subtraction, None),
        (TokenType::Number, Some("2".to_string())),
        (TokenType::CloseParen, None),
        (TokenType::Semicolon, None),
    ];
    assert_eq!(ts, expected);
}

#[test]
fn line_comment_error_does_not_abort_the_pass() {
    let ts = toks("a // not yet");
    let expected: Vec<(TokenType, Option<String>)> = vec![
        (TokenType::Identifier, Some("a".to_string())),
        (
            TokenType::Error,
            Some("`//` is not yet a supported comment format.".to_string()),
        ),
        (TokenType::Not, None),
        (TokenType::Identifier, Some("yet".to_string())),
    ];
    assert_eq!(ts, expected);
}

#[test]
fn keyword_table_spot_checks() {
    assert_eq!(kinds("div"), vec![TokenType::IntegerDivision]);
    assert_eq!(kinds("in"), vec![TokenType::In]);
    assert_eq!(kinds("include"), vec![TokenType::Include]);
    assert_eq!(kinds("exclude"), vec![TokenType::Exclude]);
    assert_eq!(kinds("is"), vec![TokenType::Is]);
    assert_eq!(kinds("as"), vec![TokenType::As]);
    assert_eq!(kinds("self"), vec![TokenType::SelfKeyword]);
    assert_eq!(kinds("set"), vec![TokenType::SetKeyword]);
    assert_eq!(kinds("string"), vec![TokenType::StringKeyword]);
    assert_eq!(kinds("then"), vec![TokenType::Then]);
    assert_eq!(kinds("implementation"), vec![TokenType::Implementation]);
    assert_eq!(kinds("WHILE repeat Until"), vec![
        TokenType::While,
        TokenType::Repeat,
        TokenType::Until,
    ]);
}

#[test]
fn whitespace_and_empty_input() {
    assert_eq!(toks(""), vec![]);
    assert_eq!(toks("   \t \r\n "), vec![]);
}

#[test]
fn non_ascii_characters_are_inert() {
    assert_eq!(
        toks("a\u{e9}b"),
        vec![
            (TokenType::Identifier, Some("a".to_string())),
            (TokenType::Identifier, Some("b".to_string())),
        ]
    );
    assert_eq!(
        toks("1\u{2603}2"),
        vec![
            (TokenType::Number, Some("1".to_string())),
            (TokenType::Number, Some("2".to_string())),
        ]
    );
}

#[test]
fn getters_report_kind_value_and_error() {
    let ts = regexes("begin 42 ~");
    assert_eq!(ts.len(), 3);
    assert_eq!(ts[0].get_type(), TokenType::Begin);
    assert_eq!(ts[0].get_value(), None);
    assert!(!ts[0].is_error());
    assert_eq!(ts[1].get_type(), TokenType::Number);
    assert_eq!(ts[1].get_value(), Some("42".to_string()));
    assert!(!ts[1].is_error());
    assert_eq!(ts[2].get_type(), TokenType::Error);
    assert_eq!(ts[2].get_value(), Some("~".to_string()));
    assert!(ts[2].is_error());
}

#[test]
fn classifier_parses_single_lexemes() {
    let t = pascal_lexer::parse("Begin");
    assert_eq!(t.get_type(), TokenType::Begin);
    assert_eq!(t.get_value(), None);
    let t = pascal_lexer::parse("answer");
    assert_eq!(t.get_type(), TokenType::Identifier);
    assert_eq!(t.get_value(), Some("answer".to_string()));
}

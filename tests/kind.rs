use cab_text::kind::KIND_COUNT;
use cab_text::Kind;

#[test]
fn argument_tokens() {
    assert!(Kind::TOKEN_LEFT_PARENTHESIS.is_argument());
    assert!(!Kind::TOKEN_PLUS.is_argument());
    for k in [
        Kind::TOKEN_ERROR,
        Kind::TOKEN_LEFT_BRACKET,
        Kind::TOKEN_LEFT_CURLYBRACE,
        Kind::TOKEN_INTEGER,
        Kind::TOKEN_FLOAT,
        Kind::TOKEN_PATH,
        Kind::TOKEN_IDENTIFIER,
        Kind::TOKEN_IDENTIFIER_START,
        Kind::TOKEN_STRING_START,
        Kind::TOKEN_ISLAND_START,
    ] {
        assert!(k.is_argument(), "{k:?}");
    }
    for k in [
        Kind::TOKEN_RIGHT_PARENTHESIS,
        Kind::TOKEN_WHITESPACE,
        Kind::TOKEN_COMMENT,
        Kind::TOKEN_CONTENT,
        Kind::TOKEN_LITERAL_IF,
        Kind::NODE_APPLICATION,
        Kind::NODE_NUMBER,
    ] {
        assert!(!k.is_argument(), "{k:?}");
    }
}

#[test]
fn trivia_tokens() {
    assert!(Kind::TOKEN_WHITESPACE.is_trivia());
    assert!(Kind::TOKEN_COMMENT.is_trivia());
    assert!(!Kind::TOKEN_ERROR.is_trivia());
    assert!(!Kind::TOKEN_IDENTIFIER.is_trivia());
    assert!(!Kind::NODE_ROOT.is_trivia());
}

#[test]
fn ordinals_round_trip() {
    let mut count = 0u16;
    for raw in 0..=u16::MAX {
        match Kind::from_raw(raw) {
            Some(k) => {
                assert_eq!(k.raw(), raw);
                assert!(!(k.is_argument() && k.is_trivia()));
                count += 1;
            }
            None => assert!(raw >= KIND_COUNT),
        }
    }
    assert_eq!(count, KIND_COUNT);
    assert_eq!(KIND_COUNT, 78);
}

#[test]
fn ordinals_follow_declaration_order() {
    assert_eq!(Kind::TOKEN_ERROR.raw(), 0);
    assert_eq!(Kind::TOKEN_WHITESPACE.raw(), 1);
    assert_eq!(Kind::TOKEN_PATH.raw(), 44);
    assert_eq!(Kind::NODE_ROOT.raw(), 53);
    assert_eq!(Kind::NODE_IF_ELSE.raw(), 77);
    assert_eq!(Kind::from_raw(78), None);
    assert!(Kind::TOKEN_ERROR < Kind::NODE_ROOT);
    assert_eq!(Kind::NODE_NUMBER.raw(), Kind::NODE_NUMBER as u16);
}

#[test]
fn syntax_kind_is_ordinal() {
    assert_eq!(rowan::SyntaxKind::from(Kind::TOKEN_ERROR).0, 0);
    assert_eq!(rowan::SyntaxKind::from(Kind::TOKEN_COMMENT).0, 2);
    assert_eq!(rowan::SyntaxKind::from(Kind::NODE_IF_ELSE).0, 77);
}

#[test]
fn descriptions() {
    assert_eq!(Kind::TOKEN_ERROR.description(), "an unknown token sequence");
    assert_eq!(Kind::TOKEN_LEFT_CURLYBRACE.description(), "'{'");
    assert_eq!(Kind::TOKEN_INTERPOLATION_START.description(), r"'\('");
    assert_eq!(Kind::TOKEN_LITERAL_IF.description(), "the keyword 'if'");
    assert_eq!(Kind::NODE_APPLICATION.description(), "a function application");
    assert_eq!(Kind::NODE_IF_ELSE.description(), "an if else");
    assert_eq!(Kind::NODE_ISLAND.description(), "an island");
    assert_eq!(Kind::NODE_NUMBER.description(), "a number");
}

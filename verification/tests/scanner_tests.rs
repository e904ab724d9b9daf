use lox_syntax::error::LexError;
use lox_syntax::scanner::Scanner;
use lox_syntax::token::{Literal, Token};
use lox_syntax::token_type::TokenType;

fn scan(source: &str) -> (Vec<Token>, Vec<LexError>) {
    let mut scanner = Scanner::new(String::from(source));
    let tokens = scanner.scan_tokens();
    (tokens, scanner.errors().clone())
}

fn kinds(source: &str) -> Vec<TokenType> {
    scan(source).0.iter().map(|token| token.token_type).collect()
}

fn lexemes(source: &str) -> Vec<String> {
    scan(source).0.iter().map(|token| token.lexeme.clone()).collect()
}

fn lines(source: &str) -> Vec<usize> {
    scan(source).0.iter().map(|token| token.line()).collect()
}

fn number_text(token: &Token) -> String {
    match token.literal() {
        Some(Literal::Number(n)) => n.to_text(),
        _ => panic!("no number"),
    }
}

#[test]
fn source_with_single_token() {
    let source = String::from("(");
    let mut scanner = Scanner::new(source);
    let tokens = scanner.scan_tokens();
    let expected_token = Token::new(TokenType::LeftParen, String::from("("), None, 1);

    assert_eq!(tokens.len(), 2); // One token and one EOF
    assert_eq!(tokens[0].token_type, expected_token.token_type);
}

#[test]
fn source_with_multiple_tokens() {
    let source = String::from("() <=");

    let mut scanner = Scanner::new(source);

    let tokens = scanner.scan_tokens();

    let expected_tokens = vec![
        Token::new(TokenType::LeftParen, String::from("("), None, 1),
        Token::new(TokenType::RightParen, String::from(")"), None, 1),
        Token::new(TokenType::LessEqual, String::from("<="), None, 1),
        Token::new(TokenType::Eof, String::new(), None, 1),
    ];

    for (i, token) in tokens.iter().enumerate() {
        assert_eq!(token.token_type, expected_tokens[i].token_type);
    }
}

#[test]
fn source_with_string_literal() {
    let source = String::from("\"Hello, World!\"");
    let mut scanner = Scanner::new(source);
    let tokens = scanner.scan_tokens();
    let expected_token = Token::new(TokenType::String, String::from("Hello, World!"), None, 1);
    assert_eq!(tokens[0].token_type, expected_token.token_type);
}

#[test]
fn source_with_integer() {
    let source = String::from("12345");
    let mut scanner = Scanner::new(source);
    let tokens = scanner.scan_tokens();
    let expected = Token::new(TokenType::Number, String::from("12345"), None, 1);
    assert_eq!(tokens[0].token_type, expected.token_type);
}

#[test]
fn source_with_float() {
    let source = String::from("123.45");
    let mut scanner = Scanner::new(source);
    let tokens = scanner.scan_tokens();
    let expected = Token::new(TokenType::Number, String::from("123.45"), None, 1);
    assert_eq!(tokens[0].token_type, expected.token_type);
}

#[test]
fn source_with_keyowrd_and_literal() {
    let source = String::from("var x = 10;");
    let mut scanner = Scanner::new(source);

    let expected = vec![
        Token::new(TokenType::Var, String::from("var"), None, 1),
        Token::new(TokenType::Identifier, String::from("x"), None, 1),
        Token::new(TokenType::Equal, String::from("="), None, 1),
        Token::new(TokenType::Number, String::from("10"), None, 1),
        Token::new(TokenType::Semicolon, String::from(";"), None, 1),
        Token::new(TokenType::Eof, String::new(), None, 1),
    ];

    for (i, token) in scanner.scan_tokens().iter().enumerate() {
        assert_eq!(token.token_type, expected[i].token_type);
    }
}

#[test]
fn multiple_tokens_give_exactly_four_kinds() {
    assert_eq!(
        kinds("() <="),
        vec![TokenType::LeftParen, TokenType::RightParen, TokenType::LessEqual, TokenType::Eof]
    );
    assert_eq!(lexemes("() <="), vec!["(", ")", "<=", ""]);
}

#[test]
fn keyword_and_literal_give_exactly_six_kinds() {
    assert_eq!(
        kinds("var x = 10;"),
        vec![
            TokenType::Var,
            TokenType::Identifier,
            TokenType::Equal,
            TokenType::Number,
            TokenType::Semicolon,
            TokenType::Eof
        ]
    );
    assert_eq!(lexemes("var x = 10;"), vec!["var", "x", "=", "10", ";", ""]);
}

#[test]
fn each_punctuation_mark_alone_is_one_token_and_eof() {
    let marks = [
        ("(", TokenType::LeftParen),
        (")", TokenType::RightParen),
        ("{", TokenType::LeftBrace),
        ("}", TokenType::RightBrace),
        (",", TokenType::Comma),
        (".", TokenType::Dot),
        ("-", TokenType::Minus),
        ("+", TokenType::Plus),
        (";", TokenType::Semicolon),
        ("*", TokenType::Star),
        ("/", TokenType::Slash),
    ];
    for (text, kind) in marks {
        let (tokens, errors) = scan(text);
        assert_eq!(tokens.len(), 2);
        assert_eq!(tokens[0].token_type, kind);
        assert_eq!(tokens[0].lexeme, text);
        assert_eq!(tokens[0].line(), 1);
        assert!(tokens[0].literal().is_none());
        assert_eq!(tokens[1].token_type, TokenType::Eof);
        assert!(errors.is_empty());
    }
}

#[test]
fn operators_take_a_following_equal_sign() {
    assert_eq!(
        kinds("! != = == > >= < <="),
        vec![
            TokenType::Bang,
            TokenType::BangEqual,
            TokenType::Equal,
            TokenType::EqualEqual,
            TokenType::Greater,
            TokenType::GreaterEqual,
            TokenType::Less,
            TokenType::LessEqual,
            TokenType::Eof
        ]
    );
    assert_eq!(kinds("==="), vec![TokenType::EqualEqual, TokenType::Equal, TokenType::Eof]);
    assert_eq!(kinds("!"), vec![TokenType::Bang, TokenType::Eof]);
    assert_eq!(lexemes("<=>"), vec!["<=", ">", ""]);
}

#[test]
fn string_literal_is_decoded_without_its_quotes() {
    let (tokens, errors) = scan("\"Hello, World!\"");
    assert_eq!(tokens.len(), 2);
    assert_eq!(tokens[0].token_type, TokenType::String);
    assert_eq!(tokens[0].lexeme, "\"Hello, World!\"");
    match tokens[0].literal() {
        Some(Literal::String(value)) => assert_eq!(value, "Hello, World!"),
        _ => panic!("no string value"),
    }
    assert!(errors.is_empty());
}

#[test]
fn string_literal_keeps_backslashes_as_they_are() {
    let (tokens, _) = scan("\"a\\nb\"");
    match tokens[0].literal() {
        Some(Literal::String(value)) => assert_eq!(value, "a\\nb"),
        _ => panic!("no string value"),
    }
}

#[test]
fn empty_string_literal() {
    let (tokens, errors) = scan("\"\"");
    assert_eq!(tokens.len(), 2);
    assert_eq!(tokens[0].lexeme, "\"\"");
    match tokens[0].literal() {
        Some(Literal::String(value)) => assert_eq!(value, ""),
        _ => panic!("no string value"),
    }
    assert!(errors.is_empty());
}

#[test]
fn string_over_several_lines_counts_them() {
    let (tokens, errors) = scan("\"a\nb\nc\" x");
    assert_eq!(tokens.len(), 3);
    assert_eq!(tokens[0].token_type, TokenType::String);
    assert_eq!(tokens[0].line(), 3);
    match tokens[0].literal() {
        Some(Literal::String(value)) => assert_eq!(value, "a\nb\nc"),
        _ => panic!("no string value"),
    }
    assert_eq!(tokens[1].token_type, TokenType::Identifier);
    assert_eq!(tokens[1].line(), 3);
    assert_eq!(tokens[2].line(), 3);
    assert!(errors.is_empty());
}

#[test]
fn integer_has_its_digits_as_lexeme() {
    let (tokens, _) = scan("12345");
    assert_eq!(tokens.len(), 2);
    assert_eq!(tokens[0].token_type, TokenType::Number);
    assert_eq!(tokens[0].lexeme, "12345");
    assert_eq!(number_text(&tokens[0]), "12345");
}

#[test]
fn decimal_point_before_a_digit_belongs_to_the_number() {
    let (tokens, _) = scan("123.45");
    assert_eq!(tokens.len(), 2);
    assert_eq!(tokens[0].token_type, TokenType::Number);
    assert_eq!(tokens[0].lexeme, "123.45");
    assert_eq!(number_text(&tokens[0]), "123.45");
    assert_eq!(number_text(&tokens[0]).parse::<f64>().unwrap(), 123.45);
}

#[test]
fn point_without_a_digit_after_it_is_a_dot() {
    assert_eq!(kinds("123."), vec![TokenType::Number, TokenType::Dot, TokenType::Eof]);
    assert_eq!(lexemes("123."), vec!["123", ".", ""]);
    assert_eq!(
        kinds("1.x"),
        vec![TokenType::Number, TokenType::Dot, TokenType::Identifier, TokenType::Eof]
    );
    assert_eq!(
        kinds("1.2.3"),
        vec![TokenType::Number, TokenType::Dot, TokenType::Number, TokenType::Eof]
    );
    assert_eq!(lexemes("1.2.3"), vec!["1.2", ".", "3", ""]);
    assert_eq!(kinds(".5"), vec![TokenType::Dot, TokenType::Number, TokenType::Eof]);
}

#[test]
fn number_value_is_the_shortest_numeral() {
    let (tokens, _) = scan("007.500 0.0 10 1.0");
    assert_eq!(lexemes("007.500 0.0 10 1.0"), vec!["007.500", "0.0", "10", "1.0", ""]);
    assert_eq!(number_text(&tokens[0]), "7.5");
    assert_eq!(number_text(&tokens[1]), "0");
    assert_eq!(number_text(&tokens[2]), "10");
    assert_eq!(number_text(&tokens[3]), "1");
}

#[test]
fn every_reserved_word_has_its_own_kind() {
    let words = [
        ("and", TokenType::And),
        ("class", TokenType::Class),
        ("else", TokenType::Else),
        ("false", TokenType::False),
        ("for", TokenType::For),
        ("fun", TokenType::Fun),
        ("if", TokenType::If),
        ("nil", TokenType::Nil),
        ("or", TokenType::Or),
        ("print", TokenType::Print),
        ("return", TokenType::Return),
        ("super", TokenType::Super),
        ("this", TokenType::This),
        ("true", TokenType::True),
        ("var", TokenType::Var),
        ("while", TokenType::While),
    ];
    for (word, kind) in words {
        let (tokens, errors) = scan(word);
        assert_eq!(tokens.len(), 2);
        assert_eq!(tokens[0].token_type, kind);
        assert_eq!(tokens[0].lexeme, word);
        assert!(tokens[0].literal().is_none());
        assert_eq!(tokens[1].token_type, TokenType::Eof);
        assert!(errors.is_empty());
    }
}

#[test]
fn other_words_are_identifiers() {
    for word in ["x", "orchid", "And", "vars", "fo", "classy", "a1b2", "nil0", "While"] {
        let (tokens, errors) = scan(word);
        assert_eq!(tokens.len(), 2);
        assert_eq!(tokens[0].token_type, TokenType::Identifier);
        assert_eq!(tokens[0].lexeme, word);
        assert!(errors.is_empty());
    }
}

#[test]
fn underscore_is_no_part_of_a_word() {
    let (tokens, errors) = scan("a_b");
    assert_eq!(
        tokens.iter().map(|t| t.token_type).collect::<Vec<_>>(),
        vec![TokenType::Identifier, TokenType::Identifier, TokenType::Eof]
    );
    assert_eq!(errors, vec![LexError::UnexpectedCharacter { ch: '_', line: 1 }]);
}

#[test]
fn word_ends_where_the_letters_and_digits_end() {
    assert_eq!(
        kinds("or1 or("),
        vec![TokenType::Identifier, TokenType::Or, TokenType::LeftParen, TokenType::Eof]
    );
    assert_eq!(kinds("12ab"), vec![TokenType::Number, TokenType::Identifier, TokenType::Eof]);
}

#[test]
fn unterminated_string_gives_no_token() {
    let (tokens, errors) = scan("\"abc");
    assert_eq!(tokens.len(), 1);
    assert_eq!(tokens[0].token_type, TokenType::Eof);
    assert_eq!(errors, vec![LexError::UnterminatedString { line: 1 }]);
}

#[test]
fn unterminated_string_keeps_the_tokens_before_it() {
    let (tokens, errors) = scan("x = \"abc\ndef");
    assert_eq!(
        tokens.iter().map(|t| t.token_type).collect::<Vec<_>>(),
        vec![TokenType::Identifier, TokenType::Equal, TokenType::Eof]
    );
    assert_eq!(tokens[2].line(), 2);
    assert_eq!(errors, vec![LexError::UnterminatedString { line: 2 }]);
}

#[test]
fn comment_gives_no_token() {
    assert_eq!(kinds("// nothing here"), vec![TokenType::Eof]);
    assert_eq!(kinds("//"), vec![TokenType::Eof]);
    assert_eq!(
        kinds("a // b c d\ne"),
        vec![TokenType::Identifier, TokenType::Identifier, TokenType::Eof]
    );
    assert_eq!(lexemes("a // b c d\ne"), vec!["a", "e", ""]);
    assert_eq!(lines("a // b c d\ne"), vec![1, 2, 2]);
    assert_eq!(kinds("1 / 2 // half"), vec![
        TokenType::Number,
        TokenType::Slash,
        TokenType::Number,
        TokenType::Eof
    ]);
}

#[test]
fn comment_may_hold_anything_but_a_line_feed() {
    let (tokens, errors) = scan("// \" @ # \t\n+");
    assert_eq!(tokens.len(), 2);
    assert_eq!(tokens[0].token_type, TokenType::Plus);
    assert_eq!(tokens[0].line(), 2);
    assert!(errors.is_empty());
}

#[test]
fn empty_source_gives_eof_alone() {
    let (tokens, errors) = scan("");
    assert_eq!(tokens.len(), 1);
    assert_eq!(tokens[0].token_type, TokenType::Eof);
    assert_eq!(tokens[0].lexeme, "");
    assert_eq!(tokens[0].line(), 1);
    assert!(tokens[0].literal().is_none());
    assert!(errors.is_empty());
}

#[test]
fn blanks_give_no_token() {
    assert_eq!(kinds(" \r\t "), vec![TokenType::Eof]);
    assert_eq!(
        kinds(" ( \t) \r"),
        vec![TokenType::LeftParen, TokenType::RightParen, TokenType::Eof]
    );
}

#[test]
fn line_feeds_count_lines() {
    assert_eq!(lines("a\nb\n\nc"), vec![1, 2, 4, 4]);
    assert_eq!(lines("\n\n"), vec![3]);
    assert_eq!(lines("a\r\nb"), vec![1, 2, 2]);
}

#[test]
fn eof_stands_on_the_last_line_reached() {
    let (tokens, _) = scan("x\ny\n");
    assert_eq!(tokens.last().unwrap().token_type, TokenType::Eof);
    assert_eq!(tokens.last().unwrap().line(), 3);
    assert_eq!(tokens.last().unwrap().lexeme, "");
}

#[test]
fn unexpected_character_is_reported_and_scanning_goes_on() {
    let (tokens, errors) = scan("a @ b\n# c");
    assert_eq!(
        tokens.iter().map(|t| t.token_type).collect::<Vec<_>>(),
        vec![
            TokenType::Identifier,
            TokenType::Identifier,
            TokenType::Identifier,
            TokenType::Eof
        ]
    );
    assert_eq!(
        errors,
        vec![
            LexError::UnexpectedCharacter { ch: '@', line: 1 },
            LexError::UnexpectedCharacter { ch: '#', line: 2 },
        ]
    );
}

#[test]
fn characters_outside_ascii_are_unexpected() {
    let (tokens, errors) = scan("é1");
    assert_eq!(
        tokens.iter().map(|t| t.token_type).collect::<Vec<_>>(),
        vec![TokenType::Number, TokenType::Eof]
    );
    assert_eq!(errors, vec![LexError::UnexpectedCharacter { ch: 'é', line: 1 }]);
    let (tokens, _) = scan("\"é\"");
    assert_eq!(tokens[0].lexeme, "\"é\"");
}

#[test]
fn errors_of_both_kinds_come_in_the_order_of_the_text() {
    let (tokens, errors) = scan("$ \"open");
    assert_eq!(tokens.len(), 1);
    assert_eq!(
        errors,
        vec![
            LexError::UnexpectedCharacter { ch: '$', line: 1 },
            LexError::UnterminatedString { line: 1 },
        ]
    );
}

#[test]
fn exactly_one_eof_and_it_is_last() {
    for source in ["", "(", "var x = 10;", "\"open", "a // b\nc", "@"] {
        let found = kinds(source);
        assert_eq!(found.iter().filter(|k| **k == TokenType::Eof).count(), 1);
        assert_eq!(*found.last().unwrap(), TokenType::Eof);
    }
}

#[test]
fn returned_tokens_are_those_of_a_whole_statement() {
    let (tokens, errors) = scan("print \"hi\" + 4.50; // done");
    assert_eq!(
        tokens.iter().map(|t| t.token_type).collect::<Vec<_>>(),
        vec![
            TokenType::Print,
            TokenType::String,
            TokenType::Plus,
            TokenType::Number,
            TokenType::Semicolon,
            TokenType::Eof
        ]
    );
    assert_eq!(
        tokens.iter().map(|t| t.lexeme.clone()).collect::<Vec<_>>(),
        vec!["print", "\"hi\"", "+", "4.50", ";", ""]
    );
    assert_eq!(number_text(&tokens[3]), "4.5");
    assert!(errors.is_empty());
}

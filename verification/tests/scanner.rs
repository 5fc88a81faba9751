use rlox::error::{Diagnostic, Problem, RloxError};
use rlox::grammar::Lead;
use rlox::scanner::{classify, punctuation_kind, word_continues, Scanner};
use rlox::token::{Token, TokenType};

fn scan(source: &str) -> (Vec<Token>, Vec<Diagnostic>) {
    let mut scanner = Scanner::new(source);
    let tokens = scanner.scan_tokens().expect("the scan succeeds");
    (tokens, scanner.diagnostics().clone())
}

fn kinds(tokens: &[Token]) -> Vec<TokenType> {
    tokens.iter().map(|t| t.kind().clone()).collect()
}

fn token(t: TokenType, lexeme: &str, line: usize) -> Token {
    Token::new(t, lexeme.to_string(), line)
}

#[test]
fn empty_text_yields_only_the_sentinel() {
    let (tokens, problems) = scan("");
    assert_eq!(tokens, vec![token(TokenType::EOF, "", 1)]);
    assert!(problems.is_empty());
}

#[test]
fn sentinel_is_last_and_only() {
    for source in ["", "1+1", "var x = 1;\n", "a\n\"b\nc\" // d\n)", "12.", "@#\"open"] {
        let mut scanner = Scanner::new(source);
        if let Ok(tokens) = scanner.scan_tokens() {
            let (last, rest) = tokens.split_last().expect("at least the sentinel");
            assert_eq!(last.kind(), &TokenType::EOF);
            assert_eq!(last.lexeme(), "");
            assert!(rest.iter().all(|t| t.kind() != &TokenType::EOF));
            assert!(rest.iter().all(|t| !t.lexeme().is_empty() && source.contains(t.lexeme().as_str())));
        }
    }
}

#[test]
fn fresh_scanners_agree() {
    for source in ["", "1+1", "for (;;) { print \"x\"; }", "12.", "! x", "é_1 >= 2.50"] {
        let mut first = Scanner::new(source);
        let mut second = Scanner::new(source);
        assert_eq!(first.scan_tokens(), second.scan_tokens());
        assert_eq!(first.diagnostics(), second.diagnostics());
    }
}

#[test]
fn one_plus_one() {
    let (tokens, problems) = scan("1+1");
    assert_eq!(
        tokens,
        vec![
            token(TokenType::Number("1".to_string()), "1", 1),
            token(TokenType::Plus, "+", 1),
            token(TokenType::Number("1".to_string()), "1", 1),
            token(TokenType::EOF, "", 1),
        ]
    );
    assert!(problems.is_empty());
    let value: f64 = tokens[0].literal().expect("a number has a payload").parse().expect("decimal");
    assert_eq!(value, 1.0);
}

#[test]
fn string_spanning_a_line_break() {
    let (tokens, problems) = scan("\"hello\nworld\"");
    assert_eq!(
        tokens,
        vec![
            token(TokenType::String("hello\nworld".to_string()), "\"hello\nworld\"", 2),
            token(TokenType::EOF, "", 2),
        ]
    );
    assert_eq!(tokens[0].literal(), Some("hello\nworld".to_string()));
    assert!(problems.is_empty());
}

#[test]
fn string_has_no_escape_processing() {
    let (tokens, _) = scan("\"a\\n\" \"\"");
    assert_eq!(
        kinds(&tokens),
        vec![TokenType::String("a\\n".to_string()), TokenType::String(String::new()), TokenType::EOF]
    );
    assert_eq!(tokens[1].lexeme(), "\"\"");
}

#[test]
fn trailing_dot_number_is_dropped() {
    let (tokens, problems) = scan("12.");
    assert_eq!(tokens, vec![token(TokenType::Dot, ".", 1), token(TokenType::EOF, "", 1)]);
    assert_eq!(problems, vec![Diagnostic { problem: Problem::InvalidNumberFormat, line: 1 }]);
    assert!(tokens.iter().all(|t| !matches!(t.kind(), TokenType::Number(_))));
}

#[test]
fn trailing_dot_number_then_more() {
    let (tokens, problems) = scan("12.x\n1.5.");
    assert_eq!(
        tokens,
        vec![
            token(TokenType::Dot, ".", 1),
            token(TokenType::Identifier("x".to_string()), "x", 1),
            token(TokenType::Dot, ".", 2),
            token(TokenType::EOF, "", 2),
        ]
    );
    assert_eq!(
        problems,
        vec![
            Diagnostic { problem: Problem::InvalidNumberFormat, line: 1 },
            Diagnostic { problem: Problem::InvalidNumberFormat, line: 2 },
        ]
    );
}

#[test]
fn numbers_with_fraction() {
    let (tokens, problems) = scan("3.14 007 0.5");
    assert_eq!(
        tokens,
        vec![
            token(TokenType::Number("3.14".to_string()), "3.14", 1),
            token(TokenType::Number("007".to_string()), "007", 1),
            token(TokenType::Number("0.5".to_string()), "0.5", 1),
            token(TokenType::EOF, "", 1),
        ]
    );
    assert!(problems.is_empty());
    let values: Vec<f64> = tokens[..3].iter().map(|t| t.literal().unwrap().parse().unwrap()).collect();
    assert_eq!(values, vec![3.14, 7.0, 0.5]);
}

#[test]
fn keyword_and_longer_identifier() {
    let (tokens, _) = scan("for");
    assert_eq!(tokens, vec![token(TokenType::For, "for", 1), token(TokenType::EOF, "", 1)]);
    let (tokens, _) = scan("forest");
    assert_eq!(
        tokens,
        vec![token(TokenType::Identifier("forest".to_string()), "forest", 1), token(TokenType::EOF, "", 1)]
    );
}

#[test]
fn reserved_words_are_case_sensitive() {
    let (tokens, _) = scan("Var var");
    assert_eq!(
        kinds(&tokens),
        vec![TokenType::Identifier("Var".to_string()), TokenType::Var, TokenType::EOF]
    );
}

#[test]
fn every_reserved_word() {
    let (tokens, problems) =
        scan("and class else false for fun if nil or print return super this true var while break");
    assert_eq!(
        kinds(&tokens),
        vec![
            TokenType::And,
            TokenType::Class,
            TokenType::Else,
            TokenType::False,
            TokenType::For,
            TokenType::Fun,
            TokenType::If,
            TokenType::Nil,
            TokenType::Or,
            TokenType::Print,
            TokenType::Return,
            TokenType::Super,
            TokenType::This,
            TokenType::True,
            TokenType::Var,
            TokenType::While,
            TokenType::Break,
            TokenType::EOF,
        ]
    );
    assert!(tokens.iter().all(|t| t.literal().is_none()));
    assert!(problems.is_empty());
}

#[test]
fn bare_bang_is_fatal() {
    let mut scanner = Scanner::new("! x");
    let error = scanner.scan_tokens().expect_err("a bare `!` fails the scan");
    assert_eq!(error, RloxError::InvalidInput("Unexpected character ' ' after '!'".to_string()));
    assert_eq!(error.message(), "Unexpected character ' ' after '!'");
}

#[test]
fn bare_operators_are_fatal() {
    for (source, message) in [
        ("a = 1", "Unexpected character ' ' after '='"),
        ("1<2", "Unexpected character '2' after '<'"),
        ("(>)", "Unexpected character ')' after '>'"),
        ("x !", "Unexpected end of input after '!'"),
    ] {
        let mut scanner = Scanner::new(source);
        assert_eq!(scanner.scan_tokens(), Err(RloxError::InvalidInput(message.to_string())));
    }
}

#[test]
fn two_character_operators() {
    let (tokens, problems) = scan("!= == <= >=");
    assert_eq!(
        tokens,
        vec![
            token(TokenType::BangEqual, "!=", 1),
            token(TokenType::EqualEqual, "==", 1),
            token(TokenType::LessEqual, "<=", 1),
            token(TokenType::GreaterEqual, ">=", 1),
            token(TokenType::EOF, "", 1),
        ]
    );
    assert!(problems.is_empty());
}

#[test]
fn comment_line_is_discarded() {
    let (tokens, problems) = scan("// comment\n+");
    assert_eq!(tokens, vec![token(TokenType::Plus, "+", 2), token(TokenType::EOF, "", 2)]);
    assert!(problems.is_empty());
}

#[test]
fn comment_at_end_of_text() {
    let (tokens, _) = scan("/ // the rest");
    assert_eq!(tokens, vec![token(TokenType::Slash, "/", 1), token(TokenType::EOF, "", 1)]);
}

#[test]
fn punctuation() {
    let (tokens, _) = scan("(){},.-+;*/");
    assert_eq!(
        kinds(&tokens),
        vec![
            TokenType::LeftParen,
            TokenType::RightParen,
            TokenType::LeftBrace,
            TokenType::RightBrace,
            TokenType::Comma,
            TokenType::Dot,
            TokenType::Minus,
            TokenType::Plus,
            TokenType::Semicolon,
            TokenType::Star,
            TokenType::Slash,
            TokenType::EOF,
        ]
    );
}

#[test]
fn blanks_and_line_breaks() {
    let (tokens, problems) = scan(" \t\r\n\n;\n");
    assert_eq!(tokens, vec![token(TokenType::Semicolon, ";", 3), token(TokenType::EOF, "", 4)]);
    assert!(problems.is_empty());
}

#[test]
fn unterminated_string_is_reported() {
    let (tokens, problems) = scan("+ \"open\nstill open");
    assert_eq!(tokens, vec![token(TokenType::Plus, "+", 1), token(TokenType::EOF, "", 2)]);
    assert_eq!(problems, vec![Diagnostic { problem: Problem::UnterminatedString, line: 2 }]);
}

#[test]
fn unexpected_character_is_skipped() {
    let (tokens, problems) = scan("@1\n#");
    assert_eq!(
        tokens,
        vec![token(TokenType::Number("1".to_string()), "1", 1), token(TokenType::EOF, "", 2)]
    );
    assert_eq!(
        problems,
        vec![
            Diagnostic { problem: Problem::UnexpectedCharacter('@'), line: 1 },
            Diagnostic { problem: Problem::UnexpectedCharacter('#'), line: 2 },
        ]
    );
}

#[test]
fn identifiers_beyond_ascii() {
    let mut scanner = Scanner::new("été_2;\"ça\"λ٣");
    let tokens = scanner.scan_tokens().expect("the scan succeeds");
    assert_eq!(
        tokens,
        vec![
            token(TokenType::Identifier("été_2".to_string()), "été_2", 1),
            token(TokenType::Semicolon, ";", 1),
            token(TokenType::String("ça".to_string()), "\"ça\"", 1),
            token(TokenType::Identifier("λ٣".to_string()), "λ٣", 1),
            token(TokenType::EOF, "", 1),
        ]
    );
    assert!(scanner.diagnostics().is_empty());
}

#[test]
fn non_ascii_digit_starts_no_token() {
    let (tokens, problems) = scan("٣");
    assert_eq!(tokens, vec![token(TokenType::EOF, "", 1)]);
    assert_eq!(problems, vec![Diagnostic { problem: Problem::UnexpectedCharacter('٣'), line: 1 }]);
}

#[test]
fn second_call_goes_on_from_the_end() {
    let mut scanner = Scanner::new("+");
    let first = scanner.scan_tokens().expect("the scan succeeds");
    let second = scanner.scan_tokens().expect("the scan succeeds");
    assert_eq!(first, vec![token(TokenType::Plus, "+", 1), token(TokenType::EOF, "", 1)]);
    assert_eq!(
        second,
        vec![token(TokenType::Plus, "+", 1), token(TokenType::EOF, "", 1), token(TokenType::EOF, "", 1)]
    );
}

#[test]
fn token_accessors() {
    let t = Token::new(TokenType::Identifier("x".to_string()), "x".to_string(), 7);
    assert_eq!(t.kind(), &TokenType::Identifier("x".to_string()));
    assert_eq!(t.lexeme(), "x");
    assert_eq!(t.line(), 7);
    assert_eq!(t.literal(), Some("x".to_string()));
    assert_eq!(t.duplicate(), t);
    assert_eq!(Token::new(TokenType::Plus, "+".to_string(), 1).literal(), None);
}

#[test]
fn classification_of_the_first_code_point() {
    assert_eq!(classify('(', false), Lead::Punctuation);
    assert_eq!(classify('*', true), Lead::Punctuation);
    assert_eq!(classify(' ', false), Lead::Blank);
    assert_eq!(classify('\r', false), Lead::Blank);
    assert_eq!(classify('\t', false), Lead::Blank);
    assert_eq!(classify('\n', false), Lead::LineBreak);
    assert_eq!(classify('/', false), Lead::Slash);
    assert_eq!(classify('"', false), Lead::Quote);
    assert_eq!(classify('!', false), Lead::Operator);
    assert_eq!(classify('=', false), Lead::Operator);
    assert_eq!(classify('<', false), Lead::Operator);
    assert_eq!(classify('>', false), Lead::Operator);
    assert_eq!(classify('7', true), Lead::Digit);
    assert_eq!(classify('x', true), Lead::Word);
    assert_eq!(classify('_', false), Lead::Word);
    assert_eq!(classify('x', false), Lead::Unexpected);
    assert_eq!(classify('@', false), Lead::Unexpected);
    assert_eq!(punctuation_kind(';'), Some(TokenType::Semicolon));
    assert_eq!(punctuation_kind('/'), None);
    assert!(word_continues('_', false) && word_continues('a', true));
    assert!(!word_continues('-', false));
}

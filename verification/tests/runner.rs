use rlox::error::{operator_error, Diagnostic, Problem, RloxError};
use rlox::reserved::ReservedWords;
use rlox::runner::Runner;
use rlox::text::{code_points, decimal_string, digit, string_of};
use rlox::token::TokenType;

#[test]
fn new_runner_has_no_error() {
    let mut runner = Runner::new();
    assert!(!runner.had_error());
    runner.reset();
    assert!(!runner.had_error());
}

#[test]
fn run_scans_from_the_start() {
    let runner = Runner::new();
    let report = runner.run("print 1;\n@");
    let tokens = report.outcome.expect("the scan succeeds");
    let kinds: Vec<TokenType> = tokens.iter().map(|t| t.kind().clone()).collect();
    assert_eq!(
        kinds,
        vec![TokenType::Print, TokenType::Number("1".to_string()), TokenType::Semicolon, TokenType::EOF]
    );
    assert_eq!(report.diagnostics, vec![Diagnostic { problem: Problem::UnexpectedCharacter('@'), line: 2 }]);
}

#[test]
fn run_keeps_the_diagnostics_of_a_failed_scan() {
    let report = Runner::new().run("# < 1");
    assert_eq!(
        report.outcome,
        Err(RloxError::InvalidInput("Unexpected character ' ' after '<'".to_string()))
    );
    assert_eq!(report.diagnostics, vec![Diagnostic { problem: Problem::UnexpectedCharacter('#'), line: 1 }]);
}

#[test]
fn error_line_wording() {
    assert_eq!(Runner::error(12, "Unterminated string."), "[line 12] Error: Unterminated string.");
    assert_eq!(Runner::error(0, ""), "[line 0] Error: ");
}

#[test]
fn diagnostic_wording() {
    let d = Diagnostic { problem: Problem::UnexpectedCharacter('@'), line: 3 };
    assert_eq!(d.message(), "Unexpected character: @");
    assert_eq!(Diagnostic { problem: Problem::UnterminatedString, line: 1 }.message(), "Unterminated string.");
    assert_eq!(Diagnostic { problem: Problem::InvalidNumberFormat, line: 1 }.message(), "Invalid number format");
    assert_eq!(Runner::error(d.line, &d.message()), "[line 3] Error: Unexpected character: @");
}

#[test]
fn operator_error_wording() {
    assert_eq!(
        operator_error('!', Some('x')),
        RloxError::InvalidInput("Unexpected character 'x' after '!'".to_string())
    );
    assert_eq!(
        operator_error('=', None),
        RloxError::InvalidInput("Unexpected end of input after '='".to_string())
    );
}

#[test]
fn error_messages() {
    assert_eq!(RloxError::InvalidInput("a".to_string()).message(), "a");
    assert_eq!(RloxError::UnexpectedEof("b".to_string()).message(), "b");
    assert_eq!(RloxError::UnhandledError("c".to_string()).message(), "c");
}

#[test]
fn decimal_spelling() {
    assert_eq!(decimal_string(0), "0");
    assert_eq!(decimal_string(9), "9");
    assert_eq!(decimal_string(10), "10");
    assert_eq!(decimal_string(1234567890), "1234567890");
    assert_eq!(decimal_string(usize::MAX), usize::MAX.to_string());
}

#[test]
fn code_points_and_back() {
    let v = code_points("aé\n٣");
    assert_eq!(v, vec!['a', 'é', '\n', '٣']);
    assert_eq!(string_of(&v, 1, 3), "é\n");
    assert_eq!(string_of(&v, 2, 2), "");
    assert_eq!(string_of(&v, 0, 4), "aé\n٣");
}

#[test]
fn decimal_digits_only() {
    assert!(digit('0') && digit('5') && digit('9'));
    assert!(!digit('/') && !digit(':') && !digit('a') && !digit('٣'));
}

#[test]
fn reserved_word_lookup_is_exact() {
    let table = ReservedWords::new();
    assert_eq!(table.get(&"var".to_string()), Some(TokenType::Var));
    assert_eq!(table.get(&"break".to_string()), Some(TokenType::Break));
    assert_eq!(table.get(&"and".to_string()), Some(TokenType::And));
    assert_eq!(table.get(&"Var".to_string()), None);
    assert_eq!(table.get(&"va".to_string()), None);
    assert_eq!(table.get(&"vars".to_string()), None);
    assert_eq!(table.get(&"".to_string()), None);
}

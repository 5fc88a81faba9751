//! Fatal errors and recoverable diagnostics.
use vstd::prelude::*;
use vstd::string::*;

verus! {

/// A failure that ends a run.
#[derive(Debug, Clone, PartialEq, Eq)]
pub enum RloxError {
    /// The input cannot be tokenized.
    InvalidInput(String),
    /// The input ended where more was required.
    UnexpectedEof(String),
    /// Any other failure.
    UnhandledError(String),
}

/// The mathematical model of a [`RloxError`].
pub enum RloxErrorView {
    InvalidInput(Seq<char>),
    UnexpectedEof(Seq<char>),
    UnhandledError(Seq<char>),
}

impl View for RloxError {
    type V = RloxErrorView;

    open spec fn view(&self) -> RloxErrorView {
        match self {
            RloxError::InvalidInput(m) => RloxErrorView::InvalidInput(m@),
            RloxError::UnexpectedEof(m) => RloxErrorView::UnexpectedEof(m@),
            RloxError::UnhandledError(m) => RloxErrorView::UnhandledError(m@),
        }
    }
}

impl RloxErrorView {
    /// The text that describes the failure.
    pub open spec fn message(self) -> Seq<char> {
        match self {
            RloxErrorView::InvalidInput(m) => m,
            RloxErrorView::UnexpectedEof(m) => m,
            RloxErrorView::UnhandledError(m) => m,
        }
    }
}

impl RloxError {
    /// The text that describes the failure.
    pub fn message(&self) -> (m: &String)
        ensures
            m@ == self@.message(),
    {
        match self {
            RloxError::InvalidInput(m) => m,
            RloxError::UnexpectedEof(m) => m,
            RloxError::UnhandledError(m) => m,
        }
    }
}

/// What went wrong with one lexeme that the scanner dropped.
#[derive(Debug, Clone, Copy, PartialEq, Eq, Structural)]
pub enum Problem {
    /// A code point that starts no token.
    UnexpectedCharacter(char),
    /// A string literal whose closing quote is missing.
    UnterminatedString,
    /// A number followed by a decimal point with no digit behind it.
    InvalidNumberFormat,
}

/// A recoverable problem and the line on which it was noticed.
#[derive(Debug, Clone, Copy, PartialEq, Eq, Structural)]
pub struct Diagnostic {
    pub problem: Problem,
    pub line: usize,
}

/// The wording of a problem.
pub open spec fn problem_text(p: Problem) -> Seq<char> {
    match p {
        Problem::UnexpectedCharacter(c) => "Unexpected character: "@.push(c),
        Problem::UnterminatedString => "Unterminated string."@,
        Problem::InvalidNumberFormat => "Invalid number format"@,
    }
}

impl Diagnostic {
    /// The wording of the problem, without the line.
    pub fn message(&self) -> (m: String)
        ensures
            m@ == problem_text(self.problem),
    {
        match self.problem {
            Problem::UnexpectedCharacter(c) => {
                let mut m = String::from_str("Unexpected character: ");
                m.push(c);
                m
            },
            Problem::UnterminatedString => String::from_str("Unterminated string."),
            Problem::InvalidNumberFormat => String::from_str("Invalid number format"),
        }
    }
}

/// The wording of the fatal error raised when one of `!`, `=`, `<`, `>` is not
/// followed by `=`: it names the code point found instead, or the end of the
/// input.
pub open spec fn operator_error_text(op: char, found: Option<char>) -> Seq<char> {
    match found {
        Some(x) => ("Unexpected character '"@.push(x) + "' after '"@).push(op) + "'"@,
        None => "Unexpected end of input after '"@.push(op) + "'"@,
    }
}

/// Builds the fatal error for an operator start `op` followed by `found`.
pub fn operator_error(op: char, found: Option<char>) -> (e: RloxError)
    ensures
        e@ == RloxErrorView::InvalidInput(operator_error_text(op, found)),
{
    let mut m: String;
    match found {
        Some(x) => {
            m = String::from_str("Unexpected character '");
            m.push(x);
            m.append("' after '");
        },
        None => {
            m = String::from_str("Unexpected end of input after '");
        },
    }
    m.push(op);
    m.append("'");
    RloxError::InvalidInput(m)
}

} // verus!

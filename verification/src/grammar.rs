//! The lexical grammar as a mathematical model: what one dispatch of the
//! scanner does to a scanner state, and what a whole scan yields.
use vstd::prelude::*;
use crate::error::{operator_error_text, Diagnostic, Problem};
use crate::reserved::reserved_word;
use crate::text::{is_digit, unicode_alphabetic, unicode_alphanumeric};
use crate::token::{TokenKind, TokenView};

verus! {

/// The classes of code points of which the scanner consumes maximal runs.
pub enum CharClass {
    /// Decimal digits.
    Digit,
    /// What may continue an identifier: alphanumeric code points and `_`.
    Word,
    /// What a line comment holds: anything but a line break.
    CommentBody,
    /// What a string literal holds: anything but a double quote.
    StringBody,
}

impl CharClass {
    /// Whether `c` belongs to the class.
    pub open spec fn holds(self, c: char) -> bool {
        match self {
            CharClass::Digit => is_digit(c),
            CharClass::Word => continues_word(c, unicode_alphanumeric(c)),
            CharClass::CommentBody => c != '\n',
            CharClass::StringBody => c != '"',
        }
    }
}

/// Where the maximal run of code points of `class` that starts at `i` ends:
/// the first index from `i` on that is past the text or holds a code point
/// outside the class.
pub open spec fn run_end(s: Seq<char>, i: int, class: CharClass) -> int
    decreases s.len() - i,
{
    if 0 <= i < s.len() && class.holds(s[i]) {
        run_end(s, i + 1, class)
    } else {
        i
    }
}

/// The number of line breaks in `s[from..to]`.
pub open spec fn newlines(s: Seq<char>, from: int, to: int) -> nat
    decreases to - from,
{
    if from >= to {
        0
    } else {
        newlines(s, from, to - 1) + if s[to - 1] == '\n' {
            1nat
        } else {
            0nat
        }
    }
}

/// The kind of a token that is one punctuation mark.
pub open spec fn punctuation(c: char) -> Option<TokenKind> {
    if c == '(' {
        Some(TokenKind::LeftParen)
    } else if c == ')' {
        Some(TokenKind::RightParen)
    } else if c == '{' {
        Some(TokenKind::LeftBrace)
    } else if c == '}' {
        Some(TokenKind::RightBrace)
    } else if c == ',' {
        Some(TokenKind::Comma)
    } else if c == '.' {
        Some(TokenKind::Dot)
    } else if c == '-' {
        Some(TokenKind::Minus)
    } else if c == '+' {
        Some(TokenKind::Plus)
    } else if c == ';' {
        Some(TokenKind::Semicolon)
    } else if c == '*' {
        Some(TokenKind::Star)
    } else {
        None
    }
}

/// Space, carriage return and tab.
pub open spec fn is_blank(c: char) -> bool {
    c == ' ' || c == '\r' || c == '\t'
}

/// The code points that start a relational or equality operator.
pub open spec fn starts_operator(c: char) -> bool {
    c == '!' || c == '=' || c == '<' || c == '>'
}

/// The kind of the operator made of `c` and a following `=`.
pub open spec fn operator_with_equal(c: char) -> TokenKind {
    if c == '!' {
        TokenKind::BangEqual
    } else if c == '=' {
        TokenKind::EqualEqual
    } else if c == '<' {
        TokenKind::LessEqual
    } else {
        TokenKind::GreaterEqual
    }
}

/// What the first code point of a lexeme announces.
#[derive(Debug, Clone, Copy, PartialEq, Eq, Structural)]
pub enum Lead {
    /// A punctuation mark, a token by itself.
    Punctuation,
    /// Space, carriage return or tab.
    Blank,
    /// A line break.
    LineBreak,
    /// `/`: a line comment or the token `/`.
    Slash,
    /// `"`: a string literal.
    Quote,
    /// One of `!`, `=`, `<`, `>`: a two-character operator.
    Operator,
    /// A decimal digit: a number.
    Digit,
    /// An alphabetic code point or `_`: an identifier or a reserved word.
    Word,
    /// Anything else.
    Unexpected,
}

/// What the code point `c` announces at the start of a lexeme, given whether
/// it is alphabetic. The classes are tried in the order of [`Lead`].
pub open spec fn lead(c: char, alphabetic: bool) -> Lead {
    if punctuation(c).is_some() {
        Lead::Punctuation
    } else if is_blank(c) {
        Lead::Blank
    } else if c == '\n' {
        Lead::LineBreak
    } else if c == '/' {
        Lead::Slash
    } else if c == '"' {
        Lead::Quote
    } else if starts_operator(c) {
        Lead::Operator
    } else if is_digit(c) {
        Lead::Digit
    } else if alphabetic || c == '_' {
        Lead::Word
    } else {
        Lead::Unexpected
    }
}

/// Whether `c` may continue an identifier, given whether it is alphanumeric.
pub open spec fn continues_word(c: char, alphanumeric: bool) -> bool {
    alphanumeric || c == '_'
}

/// The code point at `i`, or none past the end.
pub open spec fn char_at(s: Seq<char>, i: int) -> Option<char> {
    if 0 <= i < s.len() {
        Some(s[i])
    } else {
        None
    }
}

/// What one dispatch produces.
pub enum Outcome {
    /// A token of this kind.
    Token(TokenKind),
    /// Nothing: blanks, line breaks and comments.
    Nothing,
    /// A diagnostic; the lexeme is dropped.
    Problem(Problem),
    /// The scan fails with this message.
    Fatal(Seq<char>),
}

/// One dispatch: where the cursor and the line counter stand after it, and
/// what it produced.
pub struct Step {
    pub next: int,
    pub line: nat,
    pub outcome: Outcome,
}

/// After a `/` at `pos`: a line comment up to the end of the line, or the
/// token `/`.
pub open spec fn slash_step(s: Seq<char>, pos: int, line: nat) -> Step {
    if char_at(s, pos + 1) == Some('/') {
        Step { next: run_end(s, pos + 2, CharClass::CommentBody), line, outcome: Outcome::Nothing }
    } else {
        Step { next: pos + 1, line, outcome: Outcome::Token(TokenKind::Slash) }
    }
}

/// After one of `!`, `=`, `<`, `>` at `pos`: the two-character operator if a
/// `=` follows; otherwise one more code point is consumed and the scan fails.
pub open spec fn operator_step(s: Seq<char>, pos: int, line: nat) -> Step {
    if char_at(s, pos + 1) == Some('=') {
        Step { next: pos + 2, line, outcome: Outcome::Token(operator_with_equal(s[pos])) }
    } else {
        Step {
            next: if pos + 1 < s.len() {
                pos + 2
            } else {
                pos + 1
            },
            line,
            outcome: Outcome::Fatal(operator_error_text(s[pos], char_at(s, pos + 1))),
        }
    }
}

/// After a `"` at `pos`: the literal up to the next `"`, line breaks
/// included and counted, or a diagnostic where the text ends first.
pub open spec fn string_step(s: Seq<char>, pos: int, line: nat) -> Step {
    let close = run_end(s, pos + 1, CharClass::StringBody);
    let line_after = line + newlines(s, pos + 1, close);
    if close >= s.len() {
        Step { next: close, line: line_after, outcome: Outcome::Problem(Problem::UnterminatedString) }
    } else {
        Step {
            next: close + 1,
            line: line_after,
            outcome: Outcome::Token(TokenKind::String(s.subrange(pos + 1, close))),
        }
    }
}

/// Where the number that starts at `pos` ends: after its digits, and after a
/// fractional part where a `.` and at least one digit follow them.
pub open spec fn number_end(s: Seq<char>, pos: int) -> int {
    let whole = run_end(s, pos + 1, CharClass::Digit);
    if char_at(s, whole) == Some('.') && char_at(s, whole + 1).is_some() && is_digit(s[whole + 1]) {
        run_end(s, whole + 2, CharClass::Digit)
    } else {
        whole
    }
}

/// After a digit at `pos`: the number, or a diagnostic where a `.` stands
/// right behind it.
pub open spec fn number_step(s: Seq<char>, pos: int, line: nat) -> Step {
    let end = number_end(s, pos);
    if char_at(s, end) == Some('.') {
        Step { next: end, line, outcome: Outcome::Problem(Problem::InvalidNumberFormat) }
    } else {
        Step { next: end, line, outcome: Outcome::Token(TokenKind::Number(s.subrange(pos, end))) }
    }
}

/// The kind of a word: the keyword that it spells, or an identifier.
pub open spec fn word_kind(text: Seq<char>) -> TokenKind {
    match reserved_word(text) {
        Some(k) => k,
        None => TokenKind::Identifier(text),
    }
}

/// After an alphabetic code point or `_` at `pos`: the longest word.
pub open spec fn word_step(s: Seq<char>, pos: int, line: nat) -> Step {
    let end = run_end(s, pos + 1, CharClass::Word);
    Step { next: end, line, outcome: Outcome::Token(word_kind(s.subrange(pos, end))) }
}

/// One dispatch at `pos`, with the line counter at `line`.
pub open spec fn step(s: Seq<char>, pos: int, line: nat) -> Step
    recommends
        0 <= pos < s.len(),
{
    let c = s[pos];
    match lead(c, unicode_alphabetic(c)) {
        Lead::Punctuation => Step {
            next: pos + 1,
            line,
            outcome: Outcome::Token(punctuation(c).unwrap()),
        },
        Lead::Blank => Step { next: pos + 1, line, outcome: Outcome::Nothing },
        Lead::LineBreak => Step { next: pos + 1, line: line + 1, outcome: Outcome::Nothing },
        Lead::Slash => slash_step(s, pos, line),
        Lead::Quote => string_step(s, pos, line),
        Lead::Operator => operator_step(s, pos, line),
        Lead::Digit => number_step(s, pos, line),
        Lead::Word => word_step(s, pos, line),
        Lead::Unexpected => Step {
            next: pos + 1,
            line,
            outcome: Outcome::Problem(Problem::UnexpectedCharacter(c)),
        },
    }
}

/// The state of a scanner.
pub struct State {
    pub source: Seq<char>,
    /// Where the lexeme being recognized starts.
    pub start: int,
    /// The next code point to consume.
    pub current: int,
    /// The line counter, from 1.
    pub line: nat,
    /// The tokens emitted so far.
    pub tokens: Seq<TokenView>,
    /// The diagnostics reported so far.
    pub problems: Seq<Diagnostic>,
}

/// How a scan ends: the state it leaves and, where it failed, the message.
pub struct Finish {
    pub state: State,
    pub failure: Option<Seq<char>>,
}

/// The state of a scanner that has not consumed anything of `source`.
pub open spec fn initial(source: Seq<char>) -> State {
    State { source, start: 0, current: 0, line: 1, tokens: Seq::empty(), problems: Seq::empty() }
}

/// The cursor is inside the text, the line counter is at least 1 and has not
/// counted more line breaks than code points were consumed.
pub open spec fn valid(st: State) -> bool {
    &&& 0 <= st.start <= st.current <= st.source.len()
    &&& 1 <= st.line <= st.current + 1
}

/// The sentinel token for a scan that ends on `line`.
pub open spec fn sentinel(line: nat) -> TokenView {
    TokenView { kind: TokenKind::EndOfInput, lexeme: Seq::empty(), line }
}

/// The state after one dispatch, without what it produced.
pub open spec fn moved(st: State, sp: Step) -> State {
    State { start: st.current, current: sp.next, line: sp.line, ..st }
}

/// What a dispatch that began in `st` leaves once `sp` is known: the cursor
/// and line counter of `sp`, and what `sp` produced put where it belongs. A
/// token takes the text that was consumed as its lexeme, and the line counter
/// as it stands after the dispatch.
pub open spec fn conclude(st: State, sp: Step) -> Finish {
    let after = moved(st, sp);
    match sp.outcome {
        Outcome::Token(kind) => Finish {
            state: State {
                tokens: st.tokens.push(
                    TokenView { kind, lexeme: st.source.subrange(st.current, sp.next), line: sp.line },
                ),
                ..after
            },
            failure: None,
        },
        Outcome::Nothing => Finish { state: after, failure: None },
        Outcome::Problem(problem) => Finish {
            state: State {
                problems: st.problems.push(Diagnostic { problem, line: sp.line as usize }),
                ..after
            },
            failure: None,
        },
        Outcome::Fatal(message) => Finish { state: after, failure: Some(message) },
    }
}

/// The state after one dispatch from `st`, and the failure if it is fatal.
pub open spec fn dispatch(st: State) -> Finish
    recommends
        0 <= st.current < st.source.len(),
{
    conclude(st, step(st.source, st.current, st.line))
}

/// A whole scan from `st`: dispatch until the text is consumed or a dispatch
/// fails, then, unless it failed, append the sentinel.
pub open spec fn scan(st: State) -> Finish
    decreases st.source.len() - st.current,
    via scan_decreases
{
    if !(0 <= st.current < st.source.len()) {
        Finish { state: State { tokens: st.tokens.push(sentinel(st.line)), ..st }, failure: None }
    } else {
        let d = dispatch(st);
        if d.failure.is_some() {
            d
        } else {
            scan(d.state)
        }
    }
}

#[via_fn]
proof fn scan_decreases(st: State) {
    if 0 <= st.current < st.source.len() {
        lemma_step_advances(st.source, st.current, st.line);
    }
}

/// A run that starts inside the text ends inside it, not before its start.
pub proof fn lemma_run_end_bounds(s: Seq<char>, i: int, class: CharClass)
    requires
        0 <= i <= s.len(),
    ensures
        i <= run_end(s, i, class) <= s.len(),
        run_end(s, i, class) < s.len() ==> !class.holds(s[run_end(s, i, class)]),
        forall|j: int| i <= j < run_end(s, i, class) ==> class.holds(#[trigger] s[j]),
    decreases s.len() - i,
{
    if i < s.len() && class.holds(s[i]) {
        lemma_run_end_bounds(s, i + 1, class);
    }
}

/// A stretch of text holds no more line breaks than code points.
pub proof fn lemma_newlines_bound(s: Seq<char>, from: int, to: int)
    ensures
        newlines(s, from, to) <= if from <= to {
            to - from
        } else {
            0
        },
    decreases to - from,
{
    if from < to {
        lemma_newlines_bound(s, from, to - 1);
    }
}

/// Every dispatch consumes at least one code point, stays inside the text,
/// and counts no more line breaks than it consumes code points.
pub proof fn lemma_step_advances(s: Seq<char>, pos: int, line: nat)
    requires
        0 <= pos < s.len(),
    ensures
        pos < step(s, pos, line).next <= s.len(),
        line <= step(s, pos, line).line <= line + (step(s, pos, line).next - pos),
{
    lemma_run_end_bounds(s, pos + 1, CharClass::Digit);
    lemma_run_end_bounds(s, pos + 1, CharClass::Word);
    lemma_run_end_bounds(s, pos + 1, CharClass::StringBody);
    let close = run_end(s, pos + 1, CharClass::StringBody);
    lemma_newlines_bound(s, pos + 1, close);
    if pos + 2 <= s.len() {
        lemma_run_end_bounds(s, pos + 2, CharClass::CommentBody);
    }
    let whole = run_end(s, pos + 1, CharClass::Digit);
    if whole + 2 <= s.len() {
        lemma_run_end_bounds(s, whole + 2, CharClass::Digit);
    }
}

} // verus!

//! The scanner: a single pass over the source text that yields its tokens.
use vstd::prelude::*;
use crate::error::{operator_error, Diagnostic, Problem, RloxError, RloxErrorView};
use crate::grammar::{
    char_at, conclude, continues_word, dispatch, initial, lead, lemma_step_advances, newlines,
    number_end, number_step, punctuation, run_end, scan, sentinel, string_step, valid, word_step,
    CharClass, Lead, State,
};
use crate::reserved::{reserved_table, ReservedWords};
use crate::text::{code_points, digit, is_digit, string_of};
use crate::token::{duplicate_tokens, token_views, Token, TokenType, TokenView};

verus! {

/// A scanner over one source text. It owns the text, a cursor into it, and
/// what it has produced so far.
#[derive(Debug)]
pub struct Scanner {
    source: Vec<char>,
    reserved: ReservedWords,
    tokens: Vec<Token>,
    diagnostics: Vec<Diagnostic>,
    start: usize,
    current: usize,
    line: usize,
}

impl View for Scanner {
    type V = State;

    closed spec fn view(&self) -> State {
        State {
            source: self.source@,
            start: self.start as int,
            current: self.current as int,
            line: self.line as nat,
            tokens: token_views(self.tokens@),
            problems: self.diagnostics@,
        }
    }
}

/// The token kind of a punctuation mark.
pub fn punctuation_kind(c: char) -> (r: Option<TokenType>)
    ensures
        r.is_some() == punctuation(c).is_some(),
        r.is_some() ==> r.unwrap()@ == punctuation(c).unwrap(),
{
    if c == '(' {
        Some(TokenType::LeftParen)
    } else if c == ')' {
        Some(TokenType::RightParen)
    } else if c == '{' {
        Some(TokenType::LeftBrace)
    } else if c == '}' {
        Some(TokenType::RightBrace)
    } else if c == ',' {
        Some(TokenType::Comma)
    } else if c == '.' {
        Some(TokenType::Dot)
    } else if c == '-' {
        Some(TokenType::Minus)
    } else if c == '+' {
        Some(TokenType::Plus)
    } else if c == ';' {
        Some(TokenType::Semicolon)
    } else if c == '*' {
        Some(TokenType::Star)
    } else {
        None
    }
}

/// What `c` announces at the start of a lexeme, given whether it is
/// alphabetic.
pub fn classify(c: char, alphabetic: bool) -> (r: Lead)
    ensures
        r == lead(c, alphabetic),
{
    if punctuation_kind(c).is_some() {
        Lead::Punctuation
    } else if c == ' ' || c == '\r' || c == '\t' {
        Lead::Blank
    } else if c == '\n' {
        Lead::LineBreak
    } else if c == '/' {
        Lead::Slash
    } else if c == '"' {
        Lead::Quote
    } else if c == '!' || c == '=' || c == '<' || c == '>' {
        Lead::Operator
    } else if digit(c) {
        Lead::Digit
    } else if alphabetic || c == '_' {
        Lead::Word
    } else {
        Lead::Unexpected
    }
}

/// Whether `c` may continue an identifier, given whether it is alphanumeric.
pub fn word_continues(c: char, alphanumeric: bool) -> (b: bool)
    ensures
        b == continues_word(c, alphanumeric),
{
    alphanumeric || c == '_'
}

impl Scanner {
    /// The state is valid, the text leaves room for the line counter, and the
    /// reserved words are those of the language.
    pub closed spec fn wf(&self) -> bool {
        &&& valid(self@)
        &&& self.source@.len() < usize::MAX
        &&& self.reserved@ == reserved_table()
    }

    /// A scanner at the start of `source`, on line 1, with nothing produced.
    pub fn new(source: &str) -> (scanner: Scanner)
        requires
            source@.len() < usize::MAX,
        ensures
            scanner.wf(),
            scanner@ == initial(source@),
    {
        let scanner = Scanner {
            source: code_points(source),
            reserved: ReservedWords::new(),
            tokens: Vec::new(),
            diagnostics: Vec::new(),
            start: 0,
            current: 0,
            line: 1,
        };
        assert(scanner@.tokens =~= Seq::empty());
        scanner
    }

    /// Scans what is left of the text. On success the tokens produced so far
    /// are returned, the sentinel last; a fatal error ends the scan where it
    /// arose. Either way the scanner is left in the state in which the scan
    /// ended, so a second call does not start over.
    pub fn scan_tokens(&mut self) -> (r: Result<Vec<Token>, RloxError>)
        requires
            old(self).wf(),
        ensures
            final(self).wf(),
            final(self)@ == scan(old(self)@).state,
            match r {
                Ok(tokens) => scan(old(self)@).failure.is_none() && token_views(tokens@) == scan(
                    old(self)@,
                ).state.tokens,
                Err(e) => scan(old(self)@).failure.is_some() && e@ == RloxErrorView::InvalidInput(
                    scan(old(self)@).failure.unwrap(),
                ),
            },
    {
        while !self.is_at_end()
            invariant
                self.wf(),
                scan(self@) == scan(old(self)@),
            decreases self@.source.len() - self@.current,
        {
            self.start = self.current;
            proof {
                lemma_step_advances(self@.source, self@.current, self@.line);
            }
            match self.scan_token() {
                Ok(()) => {},
                Err(e) => {
                    return Err(e);
                },
            }
        }
        let ghost before = self@;
        self.tokens.push(Token::new(TokenType::EOF, String::new(), self.line));
        assert(self@.tokens =~= before.tokens.push(sentinel(before.line)));
        Ok(duplicate_tokens(&self.tokens))
    }

    /// The diagnostics reported so far, in the order in which they arose.
    pub fn diagnostics(&self) -> (r: &Vec<Diagnostic>)
        ensures
            r@ == self@.problems,
    {
        &self.diagnostics
    }

    /// One dispatch: consumes one lexeme and emits its token, reports it, or
    /// fails.
    fn scan_token(&mut self) -> (r: Result<(), RloxError>)
        requires
            old(self).wf(),
            old(self)@.start == old(self)@.current < old(self)@.source.len(),
        ensures
            final(self).wf(),
            final(self)@ == dispatch(old(self)@).state,
            match r {
                Ok(()) => dispatch(old(self)@).failure.is_none(),
                Err(e) => dispatch(old(self)@).failure.is_some() && e@ == RloxErrorView::InvalidInput(
                    dispatch(old(self)@).failure.unwrap(),
                ),
            },
    {
        proof {
            lemma_step_advances(self@.source, self@.current, self@.line);
        }
        let c = self.advance();
        match classify(c, c.is_alphabetic()) {
            Lead::Punctuation => {
                if let Some(kind) = punctuation_kind(c) {
                    self.add_token(kind);
                }
            },
            Lead::Blank => {},
            Lead::LineBreak => {
                self.line = self.line + 1;
            },
            Lead::Slash => {
                if self.advance_on_match('/') {
                    while self.peek() != '\n' && !self.is_at_end()
                        invariant
                            self.wf(),
                            self@ == (State { current: self@.current, ..old(self)@ }),
                            self@.start + 2 <= self@.current,
                            run_end(self@.source, self@.start + 2, CharClass::CommentBody)
                                == run_end(self@.source, self@.current, CharClass::CommentBody),
                        decreases self@.source.len() - self@.current,
                    {
                        self.advance();
                    }
                } else {
                    self.add_token(TokenType::Slash);
                }
            },
            Lead::Quote => {
                self.handle_string();
            },
            Lead::Operator => {
                if self.advance_on_match('=') {
                    let kind = if c == '!' {
                        TokenType::BangEqual
                    } else if c == '=' {
                        TokenType::EqualEqual
                    } else if c == '<' {
                        TokenType::LessEqual
                    } else {
                        TokenType::GreaterEqual
                    };
                    self.add_token(kind);
                } else {
                    let found = if self.is_at_end() {
                        None
                    } else {
                        Some(self.advance())
                    };
                    return Err(operator_error(c, found));
                }
            },
            Lead::Digit => {
                self.handle_number();
            },
            Lead::Word => {
                self.handle_identifier();
            },
            Lead::Unexpected => {
                self.report(Problem::UnexpectedCharacter(c));
            },
        }
        Ok(())
    }

    /// The rest of a number whose first digit was consumed.
    fn handle_number(&mut self)
        requires
            old(self).wf(),
            old(self)@.current == old(self)@.start + 1,
            is_digit(old(self)@.source[old(self)@.start]),
        ensures
            final(self).wf(),
            final(self)@ == conclude(
                State { current: old(self)@.start, ..old(self)@ },
                number_step(old(self)@.source, old(self)@.start, old(self)@.line),
            ).state,
    {
        let ghost s = self@.source;
        let ghost pos = self@.start;
        while digit(self.peek())
            invariant
                self.wf(),
                self@ == (State { current: self@.current, ..old(self)@ }),
                s == self@.source,
                pos == self@.start,
                pos < self@.current,
                run_end(s, pos + 1, CharClass::Digit) == run_end(s, self@.current, CharClass::Digit),
            decreases s.len() - self@.current,
        {
            self.advance();
        }
        let ghost whole = self@.current;
        if self.peek() == '.' && digit(self.peek_next()) {
            self.advance();
            self.advance();
            while digit(self.peek())
                invariant
                    self.wf(),
                    self@ == (State { current: self@.current, ..old(self)@ }),
                    s == self@.source,
                    whole + 2 <= self@.current,
                    run_end(s, whole + 2, CharClass::Digit) == run_end(
                        s,
                        self@.current,
                        CharClass::Digit,
                    ),
                decreases s.len() - self@.current,
            {
                self.advance();
            }
        }
        assert(self@.current == number_end(s, pos));
        if self.peek() == '.' {
            self.report(Problem::InvalidNumberFormat);
            return ;
        }
        let literal = string_of(&self.source, self.start, self.current);
        self.add_token(TokenType::Number(literal));
    }

    /// The code point under the cursor, or `'\0'` at the end of the text.
    fn peek(&self) -> (c: char)
        requires
            self.wf(),
        ensures
            c == match char_at(self@.source, self@.current) {
                Some(x) => x,
                None => '\0',
            },
    {
        if self.current < self.source.len() {
            self.source[self.current]
        } else {
            '\0'
        }
    }

    /// The code point after the one under the cursor, or `'\0'` where the text
    /// ends before it.
    fn peek_next(&self) -> (c: char)
        requires
            self.wf(),
        ensures
            c == match char_at(self@.source, self@.current + 1) {
                Some(x) => x,
                None => '\0',
            },
    {
        if self.current + 1 < self.source.len() {
            self.source[self.current + 1]
        } else {
            '\0'
        }
    }

    /// The rest of a word whose first code point was consumed.
    fn handle_identifier(&mut self)
        requires
            old(self).wf(),
            old(self)@.current == old(self)@.start + 1,
        ensures
            final(self).wf(),
            final(self)@ == conclude(
                State { current: old(self)@.start, ..old(self)@ },
                word_step(old(self)@.source, old(self)@.start, old(self)@.line),
            ).state,
    {
        let ghost s = self@.source;
        let ghost pos = self@.start;
        while !self.is_at_end() && word_continues(self.peek(), self.peek().is_alphanumeric())
            invariant
                self.wf(),
                self@ == (State { current: self@.current, ..old(self)@ }),
                s == self@.source,
                pos == self@.start,
                pos < self@.current,
                run_end(s, pos + 1, CharClass::Word) == run_end(s, self@.current, CharClass::Word),
            decreases s.len() - self@.current,
        {
            self.advance();
        }
        let literal = string_of(&self.source, self.start, self.current);
        let kind = match self.reserved.get(&literal) {
            Some(keyword) => keyword,
            None => TokenType::Identifier(literal),
        };
        self.add_token(kind);
    }

    /// The rest of a string literal whose opening quote was consumed.
    fn handle_string(&mut self)
        requires
            old(self).wf(),
            old(self)@.current == old(self)@.start + 1,
        ensures
            final(self).wf(),
            final(self)@ == conclude(
                State { current: old(self)@.start, ..old(self)@ },
                string_step(old(self)@.source, old(self)@.start, old(self)@.line),
            ).state,
    {
        let ghost s = self@.source;
        let ghost pos = self@.start;
        let ghost line = self@.line;
        while self.peek() != '"' && !self.is_at_end()
            invariant
                self.wf(),
                self@ == (State { current: self@.current, line: self@.line, ..old(self)@ }),
                s == self@.source,
                pos == self@.start,
                pos < self@.current,
                run_end(s, pos + 1, CharClass::StringBody) == run_end(
                    s,
                    self@.current,
                    CharClass::StringBody,
                ),
                self@.line == line + newlines(s, pos + 1, self@.current),
                self@.line + (pos + 1) <= line + self@.current,
            decreases s.len() - self@.current,
        {
            let c = self.advance();
            if c == '\n' {
                self.line = self.line + 1;
            }
        }
        if self.is_at_end() {
            self.report(Problem::UnterminatedString);
            return ;
        }
        self.advance();
        let literal = string_of(&self.source, self.start + 1, self.current - 1);
        self.add_token(TokenType::String(literal));
    }

    /// Consumes the code point under the cursor and returns it.
    fn advance(&mut self) -> (c: char)
        requires
            old(self).wf(),
            old(self)@.current < old(self)@.source.len(),
        ensures
            final(self).wf(),
            final(self)@ == (State { current: old(self)@.current + 1, ..old(self)@ }),
            c == old(self)@.source[old(self)@.current],
    {
        let c = self.source[self.current];
        self.current = self.current + 1;
        c
    }

    /// Consumes the code point under the cursor if it is `expected`, and says
    /// whether it did.
    fn advance_on_match(&mut self, expected: char) -> (b: bool)
        requires
            old(self).wf(),
        ensures
            final(self).wf(),
            b == (char_at(old(self)@.source, old(self)@.current) == Some(expected)),
            final(self)@ == if b {
                State { current: old(self)@.current + 1, ..old(self)@ }
            } else {
                old(self)@
            },
    {
        if self.is_at_end() {
            return false;
        }
        if self.source[self.current] != expected {
            return false;
        }
        self.current = self.current + 1;
        true
    }

    /// Emits a token of the given kind for the lexeme between the start mark
    /// and the cursor, on the current line.
    fn add_token(&mut self, token_type: TokenType)
        requires
            old(self).wf(),
        ensures
            final(self).wf(),
            final(self)@ == (State {
                tokens: old(self)@.tokens.push(
                    TokenView {
                        kind: token_type@,
                        lexeme: old(self)@.source.subrange(old(self)@.start, old(self)@.current),
                        line: old(self)@.line,
                    },
                ),
                ..old(self)@
            }),
    {
        let lexeme = string_of(&self.source, self.start, self.current);
        let ghost before = self@.tokens;
        let token = Token::new(token_type, lexeme, self.line);
        self.tokens.push(token);
        assert(self@.tokens =~= before.push(token@));
    }

    /// Records a diagnostic on the current line.
    fn report(&mut self, problem: Problem)
        requires
            old(self).wf(),
        ensures
            final(self).wf(),
            final(self)@ == (State {
                problems: old(self)@.problems.push(Diagnostic { problem, line: old(self)@.line as usize }),
                ..old(self)@
            }),
    {
        self.diagnostics.push(Diagnostic { problem, line: self.line });
    }

    /// Whether the whole text has been consumed.
    fn is_at_end(&self) -> (b: bool)
        requires
            self.wf(),
        ensures
            b == (self@.current >= self@.source.len()),
    {
        self.current >= self.source.len()
    }
}

} // verus!

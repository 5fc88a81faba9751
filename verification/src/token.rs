//! Tokens: what the scanner produces.
use vstd::prelude::*;

verus! {

/// The kind of a token. A literal carries its decoded payload inside the kind.
#[derive(Debug, Clone, PartialEq, Eq)]
pub enum TokenType {
    /// `(`
    LeftParen,
    /// `)`
    RightParen,
    /// `{`
    LeftBrace,
    /// `}`
    RightBrace,
    /// `,`
    Comma,
    /// `.`
    Dot,
    /// `-`
    Minus,
    /// `+`
    Plus,
    /// `;`
    Semicolon,
    /// `/`
    Slash,
    /// `*`
    Star,
    /// `!`
    Bang,
    /// `!=`
    BangEqual,
    /// `=`
    Equal,
    /// `==`
    EqualEqual,
    /// `>`
    Greater,
    /// `>=`
    GreaterEqual,
    /// `<`
    Less,
    /// `<=`
    LessEqual,
    /// A name that is not a reserved word; the payload is its spelling.
    Identifier(String),
    /// A string literal; the payload is the text strictly between the quotes.
    String(String),
    /// A number literal; the payload is its decimal spelling, digits with an
    /// optional fractional part, from which a caller derives the numeric value.
    Number(String),
    /// The reserved word `and`.
    And,
    /// The reserved word `class`.
    Class,
    /// The reserved word `else`.
    Else,
    /// The reserved word `false`.
    False,
    /// The reserved word `fun`.
    Fun,
    /// The reserved word `for`.
    For,
    /// The reserved word `if`.
    If,
    /// The reserved word `nil`.
    Nil,
    /// The reserved word `or`.
    Or,
    /// The reserved word `print`.
    Print,
    /// The reserved word `return`.
    Return,
    /// The reserved word `super`.
    Super,
    /// The reserved word `this`.
    This,
    /// The reserved word `true`.
    True,
    /// The reserved word `var`.
    Var,
    /// The reserved word `while`.
    While,
    /// The reserved word `break`.
    Break,
    /// The sentinel that ends every successful scan.
    EOF,
}

/// The mathematical model of a [`TokenType`]: the same variants, with text as
/// a sequence of code points.
pub enum TokenKind {
    LeftParen,
    RightParen,
    LeftBrace,
    RightBrace,
    Comma,
    Dot,
    Minus,
    Plus,
    Semicolon,
    Slash,
    Star,
    Bang,
    BangEqual,
    Equal,
    EqualEqual,
    Greater,
    GreaterEqual,
    Less,
    LessEqual,
    Identifier(Seq<char>),
    String(Seq<char>),
    Number(Seq<char>),
    And,
    Class,
    Else,
    False,
    Fun,
    For,
    If,
    Nil,
    Or,
    Print,
    Return,
    Super,
    This,
    True,
    Var,
    While,
    Break,
    EndOfInput,
}

impl View for TokenType {
    type V = TokenKind;

    open spec fn view(&self) -> TokenKind {
        match self {
            TokenType::LeftParen => TokenKind::LeftParen,
            TokenType::RightParen => TokenKind::RightParen,
            TokenType::LeftBrace => TokenKind::LeftBrace,
            TokenType::RightBrace => TokenKind::RightBrace,
            TokenType::Comma => TokenKind::Comma,
            TokenType::Dot => TokenKind::Dot,
            TokenType::Minus => TokenKind::Minus,
            TokenType::Plus => TokenKind::Plus,
            TokenType::Semicolon => TokenKind::Semicolon,
            TokenType::Slash => TokenKind::Slash,
            TokenType::Star => TokenKind::Star,
            TokenType::Bang => TokenKind::Bang,
            TokenType::BangEqual => TokenKind::BangEqual,
            TokenType::Equal => TokenKind::Equal,
            TokenType::EqualEqual => TokenKind::EqualEqual,
            TokenType::Greater => TokenKind::Greater,
            TokenType::GreaterEqual => TokenKind::GreaterEqual,
            TokenType::Less => TokenKind::Less,
            TokenType::LessEqual => TokenKind::LessEqual,
            TokenType::And => TokenKind::And,
            TokenType::Class => TokenKind::Class,
            TokenType::Else => TokenKind::Else,
            TokenType::False => TokenKind::False,
            TokenType::Fun => TokenKind::Fun,
            TokenType::For => TokenKind::For,
            TokenType::If => TokenKind::If,
            TokenType::Nil => TokenKind::Nil,
            TokenType::Or => TokenKind::Or,
            TokenType::Print => TokenKind::Print,
            TokenType::Return => TokenKind::Return,
            TokenType::Super => TokenKind::Super,
            TokenType::This => TokenKind::This,
            TokenType::True => TokenKind::True,
            TokenType::Var => TokenKind::Var,
            TokenType::While => TokenKind::While,
            TokenType::Break => TokenKind::Break,
            TokenType::Identifier(s) => TokenKind::Identifier(s@),
            TokenType::String(s) => TokenKind::String(s@),
            TokenType::Number(s) => TokenKind::Number(s@),
            TokenType::EOF => TokenKind::EndOfInput,
        }
    }
}

impl TokenType {
    /// An independent copy of this kind, payload included.
    pub fn duplicate(&self) -> (r: TokenType)
        ensures
            r@ == self@,
    {
        match self {
            TokenType::LeftParen => TokenType::LeftParen,
            TokenType::RightParen => TokenType::RightParen,
            TokenType::LeftBrace => TokenType::LeftBrace,
            TokenType::RightBrace => TokenType::RightBrace,
            TokenType::Comma => TokenType::Comma,
            TokenType::Dot => TokenType::Dot,
            TokenType::Minus => TokenType::Minus,
            TokenType::Plus => TokenType::Plus,
            TokenType::Semicolon => TokenType::Semicolon,
            TokenType::Slash => TokenType::Slash,
            TokenType::Star => TokenType::Star,
            TokenType::Bang => TokenType::Bang,
            TokenType::BangEqual => TokenType::BangEqual,
            TokenType::Equal => TokenType::Equal,
            TokenType::EqualEqual => TokenType::EqualEqual,
            TokenType::Greater => TokenType::Greater,
            TokenType::GreaterEqual => TokenType::GreaterEqual,
            TokenType::Less => TokenType::Less,
            TokenType::LessEqual => TokenType::LessEqual,
            TokenType::And => TokenType::And,
            TokenType::Class => TokenType::Class,
            TokenType::Else => TokenType::Else,
            TokenType::False => TokenType::False,
            TokenType::Fun => TokenType::Fun,
            TokenType::For => TokenType::For,
            TokenType::If => TokenType::If,
            TokenType::Nil => TokenType::Nil,
            TokenType::Or => TokenType::Or,
            TokenType::Print => TokenType::Print,
            TokenType::Return => TokenType::Return,
            TokenType::Super => TokenType::Super,
            TokenType::This => TokenType::This,
            TokenType::True => TokenType::True,
            TokenType::Var => TokenType::Var,
            TokenType::While => TokenType::While,
            TokenType::Break => TokenType::Break,
            TokenType::Identifier(s) => TokenType::Identifier(s.clone()),
            TokenType::String(s) => TokenType::String(s.clone()),
            TokenType::Number(s) => TokenType::Number(s.clone()),
            TokenType::EOF => TokenType::EOF,
        }
    }

    /// The payload of a literal kind, and `None` for every other kind.
    pub fn literal(&self) -> (r: Option<String>)
        ensures
            r.is_some() == self@.payload().is_some(),
            r.is_some() ==> r.unwrap()@ == self@.payload().unwrap(),
    {
        match self {
            TokenType::Identifier(s) => Some(s.clone()),
            TokenType::String(s) => Some(s.clone()),
            TokenType::Number(s) => Some(s.clone()),
            _ => None,
        }
    }
}

impl TokenKind {
    /// The text carried by a literal kind.
    pub open spec fn payload(self) -> Option<Seq<char>> {
        match self {
            TokenKind::Identifier(s) => Some(s),
            TokenKind::String(s) => Some(s),
            TokenKind::Number(s) => Some(s),
            _ => None,
        }
    }
}

/// One token: its kind, the source text it was read from, and the line on
/// which it ended.
#[derive(Debug, Clone, PartialEq, Eq)]
pub struct Token {
    t: TokenType,
    lexeme: String,
    line: usize,
}

/// The mathematical model of a [`Token`].
pub struct TokenView {
    pub kind: TokenKind,
    pub lexeme: Seq<char>,
    pub line: nat,
}

impl View for Token {
    type V = TokenView;

    closed spec fn view(&self) -> TokenView {
        TokenView { kind: self.t@, lexeme: self.lexeme@, line: self.line as nat }
    }
}

impl Token {
    /// A token of kind `t` read from `lexeme`, ending on `line`.
    pub fn new(t: TokenType, lexeme: String, line: usize) -> (token: Token)
        ensures
            token@ == (TokenView { kind: t@, lexeme: lexeme@, line: line as nat }),
    {
        Token { t, lexeme, line }
    }

    /// An independent copy of this token.
    pub fn duplicate(&self) -> (r: Token)
        ensures
            r@ == self@,
    {
        Token { t: self.t.duplicate(), lexeme: self.lexeme.clone(), line: self.line }
    }

    /// The kind, with the payload of a literal.
    pub fn kind(&self) -> (r: &TokenType)
        ensures
            r@ == self@.kind,
    {
        &self.t
    }

    /// The source text that the token was read from.
    pub fn lexeme(&self) -> (r: &String)
        ensures
            r@ == self@.lexeme,
    {
        &self.lexeme
    }

    /// The decoded payload of a literal token, `None` for any other token.
    pub fn literal(&self) -> (r: Option<String>)
        ensures
            r.is_some() == self@.kind.payload().is_some(),
            r.is_some() ==> r.unwrap()@ == self@.kind.payload().unwrap(),
    {
        self.t.literal()
    }

    /// The line on which the token ended, from 1.
    pub fn line(&self) -> (r: usize)
        ensures
            r == self@.line,
    {
        self.line
    }
}

/// The models of a vector of tokens, in order.
pub open spec fn token_views(v: Seq<Token>) -> Seq<TokenView> {
    v.map_values(|t: Token| t@)
}

/// An independent copy of a vector of tokens.
pub fn duplicate_tokens(v: &Vec<Token>) -> (r: Vec<Token>)
    ensures
        token_views(r@) == token_views(v@),
{
    let mut r: Vec<Token> = Vec::new();
    let mut i: usize = 0;
    while i < v.len()
        invariant
            i <= v.len(),
            r@.len() == i,
            forall|j: int| 0 <= j < i ==> r@[j]@ == v@[j]@,
        decreases v.len() - i,
    {
        r.push(v[i].duplicate());
        i = i + 1;
    }
    assert(token_views(r@) =~= token_views(v@));
    r
}

} // verus!

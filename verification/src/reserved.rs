//! The reserved words of the language.
use vstd::prelude::*;
use vstd::string::*;
use crate::token::{TokenKind, TokenType};

verus! {

/// The reserved words, each spelling with the kind it stands for.
pub open spec fn reserved_table() -> Seq<(Seq<char>, TokenKind)> {
    seq![
        ("and"@, TokenKind::And),
        ("class"@, TokenKind::Class),
        ("else"@, TokenKind::Else),
        ("false"@, TokenKind::False),
        ("for"@, TokenKind::For),
        ("fun"@, TokenKind::Fun),
        ("if"@, TokenKind::If),
        ("nil"@, TokenKind::Nil),
        ("or"@, TokenKind::Or),
        ("print"@, TokenKind::Print),
        ("return"@, TokenKind::Return),
        ("super"@, TokenKind::Super),
        ("this"@, TokenKind::This),
        ("true"@, TokenKind::True),
        ("var"@, TokenKind::Var),
        ("while"@, TokenKind::While),
        ("break"@, TokenKind::Break),
    ]
}

/// The kind of the first entry of `table`, from index `from` on, whose
/// spelling is exactly `text`.
pub open spec fn lookup_from(table: Seq<(Seq<char>, TokenKind)>, from: int, text: Seq<char>) -> Option<TokenKind>
    decreases table.len() - from,
{
    if from < 0 || from >= table.len() {
        None
    } else if table[from].0 == text {
        Some(table[from].1)
    } else {
        lookup_from(table, from + 1, text)
    }
}

/// The keyword kind that `text` spells, if it is a reserved word.
pub open spec fn reserved_word(text: Seq<char>) -> Option<TokenKind> {
    lookup_from(reserved_table(), 0, text)
}

/// A lookup only ever answers with an entry of the table whose spelling is
/// the text that was asked for.
pub proof fn lemma_lookup_is_entry(table: Seq<(Seq<char>, TokenKind)>, from: int, text: Seq<char>)
    requires
        0 <= from,
    ensures
        match lookup_from(table, from, text) {
            Some(k) => exists|i: int| from <= i < table.len() && #[trigger] table[i] == (text, k),
            None => forall|i: int| from <= i < table.len() ==> (#[trigger] table[i]).0 != text,
        },
    decreases table.len() - from,
{
    if from < table.len() && table[from].0 != text {
        lemma_lookup_is_entry(table, from + 1, text);
    }
}

/// A reserved word is never the end-of-input sentinel nor a literal.
pub proof fn lemma_reserved_word_is_keyword(text: Seq<char>)
    ensures
        reserved_word(text) != Some(TokenKind::EndOfInput),
        reserved_word(text) is Some ==> reserved_word(text).unwrap().payload() is None,
{
    lemma_lookup_is_entry(reserved_table(), 0, text);
}

/// The table of reserved words, built once and owned by whoever scans.
#[derive(Debug, Clone)]
pub struct ReservedWords {
    entries: Vec<(String, TokenType)>,
}

impl View for ReservedWords {
    type V = Seq<(Seq<char>, TokenKind)>;

    closed spec fn view(&self) -> Seq<(Seq<char>, TokenKind)> {
        self.entries@.map_values(|e: (String, TokenType)| (e.0@, e.1@))
    }
}

impl ReservedWords {
    /// The table of the language's reserved words.
    pub fn new() -> (r: ReservedWords)
        ensures
            r@ == reserved_table(),
    {
        let mut entries: Vec<(String, TokenType)> = Vec::new();
        entries.push((String::from_str("and"), TokenType::And));
        entries.push((String::from_str("class"), TokenType::Class));
        entries.push((String::from_str("else"), TokenType::Else));
        entries.push((String::from_str("false"), TokenType::False));
        entries.push((String::from_str("for"), TokenType::For));
        entries.push((String::from_str("fun"), TokenType::Fun));
        entries.push((String::from_str("if"), TokenType::If));
        entries.push((String::from_str("nil"), TokenType::Nil));
        entries.push((String::from_str("or"), TokenType::Or));
        entries.push((String::from_str("print"), TokenType::Print));
        entries.push((String::from_str("return"), TokenType::Return));
        entries.push((String::from_str("super"), TokenType::Super));
        entries.push((String::from_str("this"), TokenType::This));
        entries.push((String::from_str("true"), TokenType::True));
        entries.push((String::from_str("var"), TokenType::Var));
        entries.push((String::from_str("while"), TokenType::While));
        entries.push((String::from_str("break"), TokenType::Break));
        let r = ReservedWords { entries };
        assert(r@ =~= reserved_table());
        r
    }

    /// The keyword kind that `text` spells exactly, or `None`.
    pub fn get(&self, text: &String) -> (r: Option<TokenType>)
        ensures
            r.is_some() == lookup_from(self@, 0, text@).is_some(),
            r.is_some() ==> r.unwrap()@ == lookup_from(self@, 0, text@).unwrap(),
    {
        let mut i: usize = 0;
        while i < self.entries.len()
            invariant
                i <= self.entries.len(),
                lookup_from(self@, 0, text@) == lookup_from(self@, i as int, text@),
            decreases self.entries.len() - i,
        {
            if self.entries[i].0 == *text {
                return Some(self.entries[i].1.duplicate());
            }
            i = i + 1;
        }
        None
    }
}

} // verus!

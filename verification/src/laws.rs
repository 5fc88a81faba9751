//! What holds of every scan, proved from the model of the grammar.
use vstd::prelude::*;
use crate::error::{operator_error_text, Diagnostic};
use crate::grammar::{
    char_at, dispatch, initial, lemma_run_end_bounds, lemma_step_advances, number_end, run_end,
    scan, sentinel, starts_operator, step, valid, word_kind, CharClass, Outcome, State,
};
use crate::text::is_digit;
use crate::reserved::{
    lemma_lookup_is_entry, lemma_reserved_word_is_keyword, reserved_table, reserved_word,
};
use crate::token::{TokenKind, TokenView};

verus! {

/// Every code point of `text` is a decimal digit.
pub open spec fn all_digits(text: Seq<char>) -> bool {
    forall|i: int| 0 <= i < text.len() ==> is_digit(#[trigger] text[i])
}

/// `text` spells a number: one or more digits, and optionally a `.` with
/// one or more digits behind it.
pub open spec fn is_decimal(text: Seq<char>) -> bool {
    ||| text.len() > 0 && all_digits(text)
    ||| exists|k: int|
        0 < k < text.len() - 1 && all_digits(#[trigger] text.subrange(0, k)) && text[k] == '.'
            && all_digits(text.subrange(k + 1, text.len() as int))
}

/// The payload of a literal token fits its lexeme: a number carries its
/// lexeme, which spells a number; a string carries what stands between the
/// two quotes of its lexeme, with no quote in it; an identifier carries its
/// lexeme, which is no reserved word.
pub open spec fn payload_fits(t: TokenView) -> bool {
    match t.kind {
        TokenKind::Number(p) => p == t.lexeme && is_decimal(p),
        TokenKind::String(p) => t.lexeme == seq!['"'] + p + seq!['"'] && !p.contains('"'),
        TokenKind::Identifier(p) => p == t.lexeme && reserved_word(p).is_none(),
        _ => true,
    }
}

/// `t` is a token read from `source`: it is not the sentinel, its lexeme is a
/// non-empty contiguous slice of the source, its payload fits its lexeme, and
/// its line is at least 1.
pub open spec fn read_from(source: Seq<char>, t: TokenView) -> bool {
    &&& t.kind != TokenKind::EndOfInput
    &&& t.lexeme.len() > 0
    &&& t.line >= 1
    &&& payload_fits(t)
    &&& exists|a: int, b: int| 0 <= a < b <= source.len() && t.lexeme == #[trigger] source.subrange(a, b)
}

/// No dispatch produces the sentinel.
pub proof fn lemma_step_never_sentinel(s: Seq<char>, pos: int, line: nat)
    requires
        0 <= pos < s.len(),
    ensures
        step(s, pos, line).outcome != Outcome::Token(TokenKind::EndOfInput),
{
    let sp = step(s, pos, line);
    if let Outcome::Token(kind) = sp.outcome {
        lemma_reserved_word_is_keyword(s.subrange(pos, sp.next));
    }
}

/// What the number sub-scan consumes from a digit on spells a number.
pub proof fn lemma_number_spelling(s: Seq<char>, pos: int)
    requires
        0 <= pos < s.len(),
        is_digit(s[pos]),
    ensures
        is_decimal(s.subrange(pos, number_end(s, pos))),
{
    let whole = run_end(s, pos + 1, CharClass::Digit);
    let end = number_end(s, pos);
    let text = s.subrange(pos, end);
    lemma_run_end_bounds(s, pos + 1, CharClass::Digit);
    if end == whole {
        assert(all_digits(text));
    } else {
        lemma_run_end_bounds(s, whole + 2, CharClass::Digit);
        let k = whole - pos;
        assert(all_digits(text.subrange(0, k)));
        assert(text[k] == '.');
        assert forall|i: int| 0 <= i < end - whole - 1 implies is_digit(
            #[trigger] text.subrange(k + 1, text.len() as int)[i],
        ) by {
            assert(text.subrange(k + 1, text.len() as int)[i] == s[whole + 1 + i]);
        }
        assert(all_digits(text.subrange(k + 1, text.len() as int)));
    }
}

/// The payload of the token that a dispatch produces fits the text that the
/// dispatch consumed.
pub proof fn lemma_step_payload(s: Seq<char>, pos: int, line: nat)
    requires
        0 <= pos < s.len(),
    ensures
        match step(s, pos, line).outcome {
            Outcome::Token(kind) => payload_fits(
                TokenView { kind, lexeme: s.subrange(pos, step(s, pos, line).next), line: step(s, pos, line).line },
            ),
            _ => true,
        },
{
    let sp = step(s, pos, line);
    lemma_step_advances(s, pos, line);
    lemma_reserved_word_is_keyword(s.subrange(pos, sp.next));
    match sp.outcome {
        Outcome::Token(TokenKind::Number(p)) => {
            lemma_number_spelling(s, pos);
        },
        Outcome::Token(TokenKind::String(p)) => {
            lemma_run_end_bounds(s, pos + 1, CharClass::StringBody);
            let close = run_end(s, pos + 1, CharClass::StringBody);
            assert(p == s.subrange(pos + 1, close));
            assert(s.subrange(pos, sp.next) =~= seq!['"'] + p + seq!['"']);
            assert forall|i: int| 0 <= i < p.len() implies p[i] != '"' by {
                assert(p[i] == s[pos + 1 + i]);
            }
        },
        _ => {},
    }
}

/// One dispatch from a valid state leaves a valid state over the same text,
/// keeps the tokens that were there, and adds at most one, read from the text.
pub proof fn lemma_dispatch_shape(st: State)
    requires
        valid(st),
        st.current < st.source.len(),
    ensures
        valid(dispatch(st).state),
        dispatch(st).state.source == st.source,
        st.current < dispatch(st).state.current,
        dispatch(st).state.tokens == st.tokens || (exists|t: TokenView|
            read_from(st.source, t) && dispatch(st).state.tokens == #[trigger] st.tokens.push(t)),
{
    let sp = step(st.source, st.current, st.line);
    lemma_step_advances(st.source, st.current, st.line);
    lemma_step_never_sentinel(st.source, st.current, st.line);
    lemma_step_payload(st.source, st.current, st.line);
    if let Outcome::Token(kind) = sp.outcome {
        let t = TokenView { kind, lexeme: st.source.subrange(st.current, sp.next), line: sp.line };
        assert(read_from(st.source, t));
        assert(dispatch(st).state.tokens == st.tokens.push(t));
    }
}

/// The shape of a scan from any valid state: the tokens that were there stay
/// in place, every token added but the last is read from the text, and a scan
/// that succeeds consumes the whole text and adds the sentinel last.
pub proof fn lemma_scan_shape(st: State)
    requires
        valid(st),
    ensures
        valid(scan(st).state),
        scan(st).state.source == st.source,
        st.tokens.len() <= scan(st).state.tokens.len(),
        forall|i: int| 0 <= i < st.tokens.len() ==> scan(st).state.tokens[i] == st.tokens[i],
        scan(st).failure.is_none() ==> {
            &&& scan(st).state.current == st.source.len()
            &&& st.tokens.len() < scan(st).state.tokens.len()
            &&& scan(st).state.tokens.last() == sentinel(scan(st).state.line)
            &&& forall|i: int|
                st.tokens.len() <= i < scan(st).state.tokens.len() - 1 ==> read_from(
                    st.source,
                    #[trigger] scan(st).state.tokens[i],
                )
        },
        scan(st).failure.is_some() ==> forall|i: int|
            st.tokens.len() <= i < scan(st).state.tokens.len() ==> read_from(
                st.source,
                #[trigger] scan(st).state.tokens[i],
            ),
    decreases st.source.len() - st.current,
{
    if st.current < st.source.len() {
        let d = dispatch(st);
        lemma_dispatch_shape(st);
        let n = st.tokens.len() as int;
        if d.failure.is_none() {
            lemma_scan_shape(d.state);
            let out = scan(st).state.tokens;
            assert(scan(st) == scan(d.state));
            if d.state.tokens != st.tokens {
                let t = choose|t: TokenView|
                    read_from(st.source, t) && d.state.tokens == #[trigger] st.tokens.push(t);
                assert(d.state.tokens.len() == n + 1);
                assert(out[n] == d.state.tokens[n]);
                assert(forall|i: int| 0 <= i < n ==> d.state.tokens[i] == st.tokens[i]);
            }
        } else {
            assert(scan(st) == d);
        }
    } else {
        let out = scan(st).state.tokens;
        assert(out == st.tokens.push(sentinel(st.line)));
        assert(out.last() == sentinel(st.line));
    }
}

/// Scanning the empty text yields exactly one token, the sentinel on line 1,
/// and no diagnostic.
pub proof fn law_empty_text()
    ensures
        scan(initial(Seq::empty())).failure.is_none(),
        scan(initial(Seq::empty())).state.tokens == seq![sentinel(1)],
        scan(initial(Seq::empty())).state.problems == Seq::<Diagnostic>::empty(),
{
    assert(scan(initial(Seq::empty())).state.tokens =~= seq![sentinel(1)]);
}

/// In a successful scan of a text from its start, the last token is the
/// sentinel, with an empty lexeme and the line counter at the end of the
/// text, and no other token is a sentinel.
pub proof fn law_sentinel_last_and_only(source: Seq<char>)
    requires
        scan(initial(source)).failure.is_none(),
    ensures
        scan(initial(source)).state.tokens.len() >= 1,
        scan(initial(source)).state.tokens.last() == sentinel(scan(initial(source)).state.line),
        forall|i: int|
            0 <= i < scan(initial(source)).state.tokens.len() - 1 ==> (#[trigger] scan(
                initial(source),
            ).state.tokens[i]).kind != TokenKind::EndOfInput,
{
    lemma_scan_shape(initial(source));
}

/// Two scans of the same text, each from its start, yield the same tokens,
/// the same diagnostics and the same failure.
pub proof fn law_rescan_identical(first: Seq<char>, second: Seq<char>)
    requires
        first == second,
    ensures
        scan(initial(first)) == scan(initial(second)),
{
}

/// Whether or not a scan of a text from its start succeeds, the cursor ends
/// inside the text with the line counter at least 1, and every token but the
/// sentinel has a non-empty lexeme that is a contiguous slice of the text and
/// a payload that fits it.
pub proof fn law_lexemes_are_slices(source: Seq<char>)
    ensures
        valid(scan(initial(source)).state),
        forall|i: int|
            0 <= i < scan(initial(source)).state.tokens.len() && (#[trigger] scan(
                initial(source),
            ).state.tokens[i]).kind != TokenKind::EndOfInput ==> read_from(
                source,
                scan(initial(source)).state.tokens[i],
            ),
{
    lemma_scan_shape(initial(source));
}

/// A scan fails only where one of `!`, `=`, `<`, `>` stands in the text
/// without a `=` behind it, and the message names that operator and what was
/// found behind it.
pub proof fn law_failure_is_bare_operator(st: State)
    requires
        valid(st),
        scan(st).failure.is_some(),
    ensures
        exists|pos: int|
            st.current <= pos < st.source.len() && starts_operator(#[trigger] st.source[pos])
                && char_at(st.source, pos + 1) != Some('=') && scan(st).failure == Some(
                operator_error_text(st.source[pos], char_at(st.source, pos + 1)),
            ),
    decreases st.source.len() - st.current,
{
    if st.current < st.source.len() {
        let d = dispatch(st);
        lemma_dispatch_shape(st);
        if d.failure.is_none() {
            law_failure_is_bare_operator(d.state);
        } else {
            assert(starts_operator(st.source[st.current]));
        }
    }
}

/// Reserved-word lookup is exact: a word is a keyword only if the table holds
/// its very spelling with that kind, and is otherwise an identifier that
/// carries the word itself.
pub proof fn law_reserved_lookup_exact(text: Seq<char>)
    ensures
        match reserved_word(text) {
            Some(k) => word_kind(text) == k && exists|i: int|
                0 <= i < reserved_table().len() && #[trigger] reserved_table()[i] == (text, k),
            None => word_kind(text) == TokenKind::Identifier(text) && forall|i: int|
                0 <= i < reserved_table().len() ==> (#[trigger] reserved_table()[i]).0 != text,
        },
{
    lemma_lookup_is_entry(reserved_table(), 0, text);
}

} // verus!

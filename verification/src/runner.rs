//! The driver's side of a run: scanning one unit of input and wording what
//! is shown for it.
use vstd::prelude::*;
use vstd::string::*;
use crate::error::{Diagnostic, RloxError, RloxErrorView};
use crate::grammar::{initial, scan};
use crate::scanner::Scanner;
use crate::text::{decimal, decimal_string};
use crate::token::{token_views, Token};

verus! {

/// Runs units of input, one fresh scanner each, and remembers whether an
/// error was flagged.
#[derive(Debug)]
pub struct Runner {
    had_error: bool,
}

/// What scanning one unit of input gave: the diagnostics, in order, and the
/// tokens or the fatal error.
#[derive(Debug)]
pub struct Report {
    pub diagnostics: Vec<Diagnostic>,
    pub outcome: Result<Vec<Token>, RloxError>,
}

/// The line shown for a problem: `[line N] Error: message`.
pub open spec fn error_line(line: nat, message: Seq<char>) -> Seq<char> {
    "[line "@ + decimal(line) + "] Error: "@ + message
}

/// An independent copy of a vector of diagnostics.
fn duplicate_diagnostics(v: &Vec<Diagnostic>) -> (r: Vec<Diagnostic>)
    ensures
        r@ == v@,
{
    let mut r: Vec<Diagnostic> = Vec::new();
    let mut i: usize = 0;
    while i < v.len()
        invariant
            i <= v.len(),
            r@ == v@.take(i as int),
        decreases v.len() - i,
    {
        r.push(v[i]);
        i = i + 1;
        assert(r@ =~= v@.take(i as int));
    }
    assert(r@ =~= v@);
    r
}

impl Runner {
    /// Whether an error is flagged.
    pub closed spec fn flagged(&self) -> bool {
        self.had_error
    }

    /// A runner with no error flagged.
    pub fn new() -> (runner: Runner)
        ensures
            !runner.flagged(),
    {
        Runner { had_error: false }
    }

    /// Whether an error is flagged.
    pub fn had_error(&self) -> (b: bool)
        ensures
            b == self.flagged(),
    {
        self.had_error
    }

    /// Clears the flag, as is done between two units of interactive input.
    pub fn reset(&mut self)
        ensures
            !final(self).flagged(),
    {
        self.had_error = false;
    }

    /// Scans `source` from its start with a fresh scanner.
    pub fn run(&self, source: &str) -> (report: Report)
        requires
            source@.len() < usize::MAX,
        ensures
            report.diagnostics@ == scan(initial(source@)).state.problems,
            match report.outcome {
                Ok(tokens) => scan(initial(source@)).failure.is_none() && token_views(tokens@)
                    == scan(initial(source@)).state.tokens,
                Err(e) => scan(initial(source@)).failure.is_some() && e@
                    == RloxErrorView::InvalidInput(scan(initial(source@)).failure.unwrap()),
            },
    {
        let mut scanner = Scanner::new(source);
        let outcome = scanner.scan_tokens();
        let diagnostics = duplicate_diagnostics(scanner.diagnostics());
        Report { diagnostics, outcome }
    }

    /// The line shown for a problem noticed on `line`.
    pub fn error(line: usize, message: &str) -> (text: String)
        ensures
            text@ == error_line(line as nat, message@),
    {
        let mut text = String::from_str("[line ");
        let number = decimal_string(line);
        text.append(number.as_str());
        text.append("] Error: ");
        text.append(message);
        text
    }
}

} // verus!

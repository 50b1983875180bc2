//! Diagnostics: every failure anywhere in the pipeline is reported as a
//! typed value carrying the offending span and, for syntax errors, the set
//! of continuations that would have been valid there.
//!
//! Spans are half-open `[start, end)` ranges counted in characters.  Errors
//! raised while parsing one section are relative to that section's body;
//! [`Diagnostic::rebase`] puts them onto the whole document.

use vstd::prelude::*;

verus! {

/// The one lexical failure: text matching no token and no skip pattern.
#[derive(Clone, Copy, Debug, PartialEq, Eq, Structural, Default)]
pub enum LexicalError {
    #[default]
    InvalidToken,
}

/// The failure taxonomy: lexical, syntax (unexpected token or end of
/// input), and range or keyword errors.
#[derive(Clone, Copy, Debug, PartialEq, Eq, Structural)]
pub enum DiagKind {
    /// An unrecognized character sequence.
    Lexical,
    /// The input ended where more tokens were required.
    UnexpectedEof,
    /// A valid token in an illegal grammar position.
    UnexpectedToken,
    /// A `#marker` that names no known schema.
    UnknownSection,
    /// A field keyword that the active schema does not declare.
    UnknownField,
    /// A value of the wrong kind for its field.
    BadValue,
    /// A numeric literal outside the field's declared width.
    OutOfRange,
}

/// Mathematical model of a diagnostic.
pub struct MDiag {
    pub kind: DiagKind,
    pub start: int,
    pub end: int,
    pub expected: Seq<Seq<char>>,
    pub found: Seq<char>,
}

/// A typed failure value: the span that failed and what was expected there.
#[derive(Clone, Debug, PartialEq)]
pub struct Diagnostic {
    pub kind: DiagKind,
    pub start: usize,
    pub end: usize,
    /// Names of the token kinds or keywords valid at the failure point.
    pub expected: Vec<String>,
    /// A short description of what stood there instead.
    pub found: String,
}

impl View for Diagnostic {
    type V = MDiag;

    open spec fn view(&self) -> MDiag {
        MDiag {
            kind: self.kind,
            start: self.start as int,
            end: self.end as int,
            expected: self.expected.deep_view(),
            found: self.found@,
        }
    }
}

impl Diagnostic {
    /// Rebases a section-relative diagnostic onto the whole document,
    /// clipping to the document's length.
    pub fn rebase(self, base: usize, limit: usize) -> (r: Diagnostic)
        requires
            base <= limit,
        ensures
            r@ == spec_rebase(self@, base as int, limit as int),
    {
        let start = if self.start <= limit - base {
            self.start + base
        } else {
            limit
        };
        let end = if self.end <= limit - base {
            self.end + base
        } else {
            limit
        };
        Diagnostic { kind: self.kind, start, end, expected: self.expected, found: self.found }
    }
}

/// An offset clipped into `[0, limit]`.
pub open spec fn clamp_at(x: int, limit: int) -> int {
    if x > limit {
        limit
    } else {
        x
    }
}

/// A diagnostic rebased by `base` and clipped to the document's length.
pub open spec fn spec_rebase(d: MDiag, base: int, limit: int) -> MDiag {
    MDiag {
        kind: d.kind,
        start: clamp_at(d.start + base, limit),
        end: clamp_at(d.end + base, limit),
        expected: d.expected,
        found: d.found,
    }
}

/// Model of a lexical error at character `off`.
pub open spec fn m_lexical(off: int) -> MDiag {
    MDiag {
        kind: DiagKind::Lexical,
        start: off,
        end: off + 1,
        expected: Seq::empty(),
        found: Seq::empty(),
    }
}

/// Builds the lexical-error diagnostic at character `off`.
pub fn lexical_at(off: usize) -> (r: Diagnostic)
    requires
        off < usize::MAX,
    ensures
        r@ == m_lexical(off as int),
{
    let r = Diagnostic {
        kind: DiagKind::Lexical,
        start: off,
        end: off + 1,
        expected: Vec::new(),
        found: String::new(),
    };
    proof {
        assert(r@.expected =~= Seq::<Seq<char>>::empty());
    }
    r
}

/// Line of the character offset `off`, starting from one.
pub open spec fn spec_line(s: Seq<char>, off: int) -> int
    decreases off,
{
    if off <= 0 {
        1
    } else {
        spec_line(s, off - 1) + if s[off - 1] == '\n' {
            1int
        } else {
            0int
        }
    }
}

/// Column of the character offset `off`, starting from one.
pub open spec fn spec_col(s: Seq<char>, off: int) -> int
    decreases off,
{
    if off <= 0 {
        1
    } else if s[off - 1] == '\n' {
        1
    } else {
        spec_col(s, off - 1) + 1
    }
}

/// Turns a character offset into a one-based line and column, the
/// human-readable location of the error reporter.
pub fn line_col(s: &str, off: usize) -> (r: (usize, usize))
    requires
        off <= s@.len(),
        s@.len() < usize::MAX,
    ensures
        r.0 == spec_line(s@, off as int),
        r.1 == spec_col(s@, off as int),
{
    let mut line: usize = 1;
    let mut col: usize = 1;
    let mut i: usize = 0;
    while i < off
        invariant
            i <= off,
            off <= s@.len(),
            s@.len() < usize::MAX,
            line == spec_line(s@, i as int),
            col == spec_col(s@, i as int),
            line <= i + 1,
            col <= i + 1,
        decreases off - i,
    {
        let c = s.get_char(i);
        if c == '\n' {
            line += 1;
            col = 1;
        } else {
            col += 1;
        }
        i += 1;
    }
    (line, col)
}

} // verus!

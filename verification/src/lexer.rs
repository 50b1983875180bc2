//! The lexical layer: text to a token list with character spans.
//!
//! One token alphabet serves every schema: punctuation, quoted string
//! literals (quotes stripped, no escapes), unsigned integer literals,
//! signed decimal literals, and identifiers, with whitespace and `//` line
//! comments skipped.  A literal containing a decimal point, or a sign, is a
//! decimal, never an integer.  Numeric literals are bounded to 18 written
//! digits, at most 9 of them fractional.  Any character sequence matching
//! no token and no skip pattern is a lexical error at the first offset past
//! the last consumed or skipped text, and lexing aborts there.

use vstd::prelude::*;

use crate::decimal::{pow10, Decimal, MANT_LIMIT};
use crate::diag::{lexical_at, m_lexical, Diagnostic};
use crate::text::push_char;

verus! {

/// A token's payload.
#[derive(Debug, PartialEq)]
pub enum TokKind {
    LCurly,
    RCurly,
    LSquare,
    RSquare,
    LParen,
    RParen,
    Assign,
    Colon,
    Comma,
    Amp,
    StrLit(String),
    IntLit(u64),
    DecLit(Decimal),
    Ident(String),
}

/// One token with its half-open character span.
#[derive(Debug, PartialEq)]
pub struct Tok {
    pub kind: TokKind,
    pub start: usize,
    pub end: usize,
}

/// Model of a token payload.
pub enum MTokKind {
    LCurly,
    RCurly,
    LSquare,
    RSquare,
    LParen,
    RParen,
    Assign,
    Colon,
    Comma,
    Amp,
    StrLit(Seq<char>),
    IntLit(u64),
    DecLit(Decimal),
    Ident(Seq<char>),
}

/// Model of a token.
pub struct MTok {
    pub kind: MTokKind,
    pub start: int,
    pub end: int,
}

impl View for TokKind {
    type V = MTokKind;

    open spec fn view(&self) -> MTokKind {
        match self {
            TokKind::LCurly => MTokKind::LCurly,
            TokKind::RCurly => MTokKind::RCurly,
            TokKind::LSquare => MTokKind::LSquare,
            TokKind::RSquare => MTokKind::RSquare,
            TokKind::LParen => MTokKind::LParen,
            TokKind::RParen => MTokKind::RParen,
            TokKind::Assign => MTokKind::Assign,
            TokKind::Colon => MTokKind::Colon,
            TokKind::Comma => MTokKind::Comma,
            TokKind::Amp => MTokKind::Amp,
            TokKind::StrLit(s) => MTokKind::StrLit(s@),
            TokKind::IntLit(n) => MTokKind::IntLit(*n),
            TokKind::DecLit(d) => MTokKind::DecLit(*d),
            TokKind::Ident(s) => MTokKind::Ident(s@),
        }
    }
}

impl View for Tok {
    type V = MTok;

    open spec fn view(&self) -> MTok {
        MTok { kind: self.kind@, start: self.start as int, end: self.end as int }
    }
}

/// The model of a token vector.
pub open spec fn toks_model(ts: Seq<Tok>) -> Seq<MTok> {
    ts.map_values(|t: Tok| t@)
}

/// Bounds that every token the lexer emits satisfies.
pub open spec fn mtok_wf(t: MTok) -> bool {
    &&& t.start <= t.end
    &&& match t.kind {
        MTokKind::IntLit(n) => n < MANT_LIMIT as u64,
        MTokKind::DecLit(d) => d.wf(),
        _ => true,
    }
}

/// All tokens of a model sequence are in bounds.
pub open spec fn mtoks_wf(ts: Seq<MTok>) -> bool {
    forall|j: int| 0 <= j < ts.len() ==> mtok_wf(#[trigger] ts[j])
}

pub open spec fn is_ws_char(c: char) -> bool {
    c == ' ' || c == '\t' || c == '\n' || c == '\r' || c == '\x0C'
}

pub open spec fn is_digit_char(c: char) -> bool {
    48 <= c as u32 <= 57
}

pub open spec fn digit_of(c: char) -> nat
    recommends
        is_digit_char(c),
{
    (c as u32 - 48) as nat
}

pub open spec fn is_ident_start_char(c: char) -> bool {
    (65 <= c as u32 <= 90) || (97 <= c as u32 <= 122) || c == '_'
}

pub open spec fn is_ident_char(c: char) -> bool {
    is_ident_start_char(c) || is_digit_char(c)
}

pub open spec fn punct_kind(c: char) -> Option<MTokKind> {
    if c == '{' {
        Some(MTokKind::LCurly)
    } else if c == '}' {
        Some(MTokKind::RCurly)
    } else if c == '[' {
        Some(MTokKind::LSquare)
    } else if c == ']' {
        Some(MTokKind::RSquare)
    } else if c == '(' {
        Some(MTokKind::LParen)
    } else if c == ')' {
        Some(MTokKind::RParen)
    } else if c == '=' {
        Some(MTokKind::Assign)
    } else if c == ':' {
        Some(MTokKind::Colon)
    } else if c == ',' {
        Some(MTokKind::Comma)
    } else if c == '&' {
        Some(MTokKind::Amp)
    } else {
        None
    }
}

/// Model of the scanner's state between characters.
pub enum MLexSt {
    Start,
    Slash { start: int },
    Comment,
    InStr { start: int, content: Seq<char> },
    InNum { start: int, neg: bool, acc: nat, ndig: nat, fdig: Option<nat> },
    InIdent { start: int, content: Seq<char> },
}

pub open spec fn st_rank(st: MLexSt) -> int {
    match st {
        MLexSt::Start => 0,
        _ => 1,
    }
}

/// The token a finished numeric literal denotes: a decimal when a sign or a
/// point was written, an integer otherwise.
pub open spec fn num_token(start: int, end: int, neg: bool, acc: nat, fdig: Option<nat>) -> MTok {
    if neg || fdig is Some {
        MTok {
            kind: MTokKind::DecLit(
                Decimal {
                    mant: (if neg {
                        -(acc as int)
                    } else {
                        acc as int
                    }) as i128,
                    scale: (match fdig {
                        Some(f) => f,
                        None => 0,
                    }) as u32,
                },
            ),
            start,
            end,
        }
    } else {
        MTok { kind: MTokKind::IntLit(acc as u64), start, end }
    }
}

pub open spec fn prepend(t: MTok, r: Result<Seq<MTok>, int>) -> Result<Seq<MTok>, int> {
    match r {
        Ok(ts) => Ok(seq![t] + ts),
        Err(e) => Err(e),
    }
}

/// The tokens produced from character `i` onward, starting in state `st`;
/// or the offset of the first unrecognizable character.
pub open spec fn lex_sm(s: Seq<char>, i: int, st: MLexSt) -> Result<Seq<MTok>, int>
    decreases s.len() - i, st_rank(st),
{
    if i < 0 || i > s.len() {
        Err(-1)
    } else if i == s.len() {
        match st {
            MLexSt::Start => Ok(Seq::empty()),
            MLexSt::Comment => Ok(Seq::empty()),
            MLexSt::Slash { start } => Err(start),
            MLexSt::InStr { start, content } => Err(start),
            MLexSt::InNum { start, neg, acc, ndig, fdig } => {
                if ndig == 0 {
                    Err(start)
                } else {
                    Ok(seq![num_token(start, i, neg, acc, fdig)])
                }
            },
            MLexSt::InIdent { start, content } => Ok(
                seq![MTok { kind: MTokKind::Ident(content), start, end: i }],
            ),
        }
    } else {
        let c = s[i];
        match st {
            MLexSt::Start => {
                if is_ws_char(c) {
                    lex_sm(s, i + 1, MLexSt::Start)
                } else if c == '/' {
                    lex_sm(s, i + 1, MLexSt::Slash { start: i })
                } else if c == '"' {
                    lex_sm(s, i + 1, MLexSt::InStr { start: i, content: Seq::empty() })
                } else if punct_kind(c) is Some {
                    prepend(
                        MTok { kind: punct_kind(c)->Some_0, start: i, end: i + 1 },
                        lex_sm(s, i + 1, MLexSt::Start),
                    )
                } else if is_digit_char(c) {
                    lex_sm(
                        s,
                        i + 1,
                        MLexSt::InNum { start: i, neg: false, acc: digit_of(c), ndig: 1, fdig: None },
                    )
                } else if c == '-' {
                    lex_sm(s, i + 1, MLexSt::InNum { start: i, neg: true, acc: 0, ndig: 0, fdig: None })
                } else if is_ident_start_char(c) {
                    lex_sm(s, i + 1, MLexSt::InIdent { start: i, content: seq![c] })
                } else {
                    Err(i)
                }
            },
            MLexSt::Slash { start } => {
                if c == '/' {
                    lex_sm(s, i + 1, MLexSt::Comment)
                } else {
                    Err(start)
                }
            },
            MLexSt::Comment => {
                if c == '\n' {
                    lex_sm(s, i + 1, MLexSt::Start)
                } else {
                    lex_sm(s, i + 1, MLexSt::Comment)
                }
            },
            MLexSt::InStr { start, content } => {
                if c == '"' {
                    prepend(
                        MTok { kind: MTokKind::StrLit(content), start, end: i + 1 },
                        lex_sm(s, i + 1, MLexSt::Start),
                    )
                } else {
                    lex_sm(s, i + 1, MLexSt::InStr { start, content: content.push(c) })
                }
            },
            MLexSt::InNum { start, neg, acc, ndig, fdig } => {
                if is_digit_char(c) {
                    if ndig >= 18 {
                        Err(i)
                    } else if (match fdig {
                        Some(f) => f >= 9,
                        None => false,
                    }) {
                        Err(i)
                    } else {
                        lex_sm(
                            s,
                            i + 1,
                            MLexSt::InNum {
                                start,
                                neg,
                                acc: acc * 10 + digit_of(c),
                                ndig: ndig + 1,
                                fdig: match fdig {
                                    Some(f) => Some(f + 1),
                                    None => None,
                                },
                            },
                        )
                    }
                } else if c == '.' && fdig is None && ndig > 0 {
                    lex_sm(s, i + 1, MLexSt::InNum { start, neg, acc, ndig, fdig: Some(0) })
                } else if ndig == 0 {
                    Err(start)
                } else {
                    prepend(num_token(start, i, neg, acc, fdig), lex_sm(s, i, MLexSt::Start))
                }
            },
            MLexSt::InIdent { start, content } => {
                if is_ident_char(c) {
                    lex_sm(s, i + 1, MLexSt::InIdent { start, content: content.push(c) })
                } else {
                    prepend(
                        MTok { kind: MTokKind::Ident(content), start, end: i },
                        lex_sm(s, i, MLexSt::Start),
                    )
                }
            },
        }
    }
}

/// The whole text's token list, or the offset of the lexical error.
pub open spec fn spec_lex(s: Seq<char>) -> Result<Seq<MTok>, int> {
    lex_sm(s, 0, MLexSt::Start)
}

pub open spec fn glue(pre: Seq<MTok>, r: Result<Seq<MTok>, int>) -> Result<Seq<MTok>, int> {
    match r {
        Ok(ts) => Ok(pre + ts),
        Err(e) => Err(e),
    }
}

proof fn lemma_glue_prepend(pre: Seq<MTok>, t: MTok, r: Result<Seq<MTok>, int>)
    ensures
        glue(pre, prepend(t, r)) == glue(pre.push(t), r),
{
    match r {
        Ok(ts) => {
            assert(pre + (seq![t] + ts) =~= pre.push(t) + ts);
        },
        Err(_) => {},
    }
}

proof fn lemma_model_push(ts: Seq<Tok>, t: Tok)
    ensures
        toks_model(ts.push(t)) == toks_model(ts).push(t@),
{
    assert(toks_model(ts.push(t)) =~= toks_model(ts).push(t@));
}

/// Executable state of the scanner.
enum LexSt {
    Start,
    Slash { start: usize },
    Comment,
    InStr { start: usize, content: String },
    InNum { start: usize, neg: bool, acc: u64, ndig: u32, fdig: Option<u32> },
    InIdent { start: usize, content: String },
}

spec fn st_model(st: &LexSt) -> MLexSt {
    {
        match st {
            LexSt::Start => MLexSt::Start,
            LexSt::Slash { start } => MLexSt::Slash { start: *start as int },
            LexSt::Comment => MLexSt::Comment,
            LexSt::InStr { start, content } => MLexSt::InStr { start: *start as int, content: content@ },
            LexSt::InNum { start, neg, acc, ndig, fdig } => MLexSt::InNum {
                start: *start as int,
                neg: *neg,
                acc: *acc as nat,
                ndig: *ndig as nat,
                fdig: match fdig {
                    Some(f) => Some(*f as nat),
                    None => None,
                },
            },
            LexSt::InIdent { start, content } => MLexSt::InIdent {
                start: *start as int,
                content: content@,
            },
        }
    }
}

/// Bounds the executable scanner maintains so that its arithmetic cannot
/// overflow.
spec fn st_bounds(st: MLexSt) -> bool {
    match st {
        MLexSt::InNum { acc, ndig, fdig, .. } => {
            &&& acc < pow10(ndig)
            &&& ndig <= 18
            &&& match fdig {
                Some(f) => f <= 9 && f <= ndig,
                None => true,
            }
        },
        _ => true,
    }
}

/// The start offset a state carries lies before the cursor.
spec fn st_start_ok(st: MLexSt, i: int) -> bool {
    match st {
        MLexSt::Start => true,
        MLexSt::Comment => true,
        MLexSt::Slash { start } => 0 <= start < i,
        MLexSt::InStr { start, .. } => 0 <= start < i,
        MLexSt::InNum { start, .. } => 0 <= start < i,
        MLexSt::InIdent { start, .. } => 0 <= start < i,
    }
}

proof fn lemma_wf_push(ts: Seq<MTok>, t: MTok)
    requires
        mtoks_wf(ts),
        mtok_wf(t),
    ensures
        mtoks_wf(ts.push(t)),
{
    assert forall|j: int| 0 <= j < ts.push(t).len() implies mtok_wf(#[trigger] ts.push(t)[j]) by {
        if j < ts.len() {
            assert(mtok_wf(ts[j]));
        } else {
            assert(ts.push(t)[j] == t);
        }
    }
}

proof fn lemma_pow10_18()
    ensures
        pow10(18) == MANT_LIMIT as int,
    decreases 0int,
{
    reveal_with_fuel(pow10, 19);
}

proof fn lemma_pow10_mono(a: nat, b: nat)
    requires
        a <= b,
    ensures
        pow10(a) <= pow10(b),
    decreases b,
{
    crate::decimal::lemma_pow10_pos(a);
    if a < b {
        lemma_pow10_mono(a, (b - 1) as nat);
    }
}

fn ws_char(c: char) -> (r: bool)
    ensures
        r == is_ws_char(c),
{
    c == ' ' || c == '\t' || c == '\n' || c == '\r' || c == '\x0C'
}

fn digit_char(c: char) -> (r: bool)
    ensures
        r == is_digit_char(c),
{
    let u = c as u32;
    48 <= u && u <= 57
}

fn ident_start_char(c: char) -> (r: bool)
    ensures
        r == is_ident_start_char(c),
{
    let u = c as u32;
    (65 <= u && u <= 90) || (97 <= u && u <= 122) || c == '_'
}

fn ident_char(c: char) -> (r: bool)
    ensures
        r == is_ident_char(c),
{
    ident_start_char(c) || digit_char(c)
}

fn punct_tok(c: char) -> (r: Option<TokKind>)
    ensures
        match r {
            Some(k) => punct_kind(c) == Some(k@),
            None => punct_kind(c) is None,
        },
{
    if c == '{' {
        Some(TokKind::LCurly)
    } else if c == '}' {
        Some(TokKind::RCurly)
    } else if c == '[' {
        Some(TokKind::LSquare)
    } else if c == ']' {
        Some(TokKind::RSquare)
    } else if c == '(' {
        Some(TokKind::LParen)
    } else if c == ')' {
        Some(TokKind::RParen)
    } else if c == '=' {
        Some(TokKind::Assign)
    } else if c == ':' {
        Some(TokKind::Colon)
    } else if c == ',' {
        Some(TokKind::Comma)
    } else if c == '&' {
        Some(TokKind::Amp)
    } else {
        None
    }
}

/// Builds the token of a finished numeric literal.
fn make_num_tok(start: usize, end: usize, neg: bool, acc: u64, fdig: Option<u32>) -> (t: Tok)
    requires
        (acc as int) < MANT_LIMIT as int,
        match fdig {
            Some(f) => f <= 9,
            None => true,
        },
    ensures
        t@ == num_token(
            start as int,
            end as int,
            neg,
            acc as nat,
            match fdig {
                Some(f) => Some(f as nat),
                None => None,
            },
        ),
        mtok_wf(t@) || end < start,
{
    let is_dec = neg || fdig.is_some();
    if is_dec {
        let scale: u32 = match fdig {
            Some(f) => f,
            None => 0,
        };
        let m: i128 = if neg {
            -(acc as i128)
        } else {
            acc as i128
        };
        Tok { kind: TokKind::DecLit(Decimal { mant: m, scale }), start, end }
    } else {
        Tok { kind: TokKind::IntLit(acc), start, end }
    }
}

/// Runs the scanner over the whole text.
pub fn lex(input: &str) -> (r: Result<Vec<Tok>, Diagnostic>)
    requires
        input@.len() < usize::MAX,
    ensures
        match (r, spec_lex(input@)) {
            (Ok(toks), Ok(mt)) => toks_model(toks@) == mt && mtoks_wf(mt),
            (Err(d), Err(off)) => d@ == m_lexical(off),
            _ => false,
        },
{
    let n = input.unicode_len();
    let mut out: Vec<Tok> = Vec::new();
    let mut st = LexSt::Start;
    let mut i: usize = 0;
    proof {
        assert(toks_model(out@) =~= Seq::<MTok>::empty());
        assert(glue(toks_model(out@), lex_sm(input@, 0, MLexSt::Start)) == spec_lex(input@));
        assert(st_model(&st) == MLexSt::Start);
    }
    while i < n
        invariant
            n == input@.len(),
            n < usize::MAX,
            i <= n,
            st_bounds(st_model(&st)),
            st_start_ok(st_model(&st), i as int),
            glue(toks_model(out@), lex_sm(input@, i as int, st_model(&st))) == spec_lex(input@),
            mtoks_wf(toks_model(out@)),
        decreases n - i, st_rank(st_model(&st)),
    {
        let ghost pre = toks_model(out@);
        let ghost st0 = st_model(&st);
        let c = input.get_char(i);
        match st {
            LexSt::Start => {
                st = LexSt::Start;
                if ws_char(c) {
                    i += 1;
                } else if c == '/' {
                    st = LexSt::Slash { start: i };
                    i += 1;
                } else if c == '"' {
                    let content = String::new();
                    proof {
                        assert(content@ =~= Seq::<char>::empty());
                    }
                    st = LexSt::InStr { start: i, content };
                    i += 1;
                } else {
                    let p = punct_tok(c);
                    match p {
                        Some(k) => {
                            let tok = Tok { kind: k, start: i, end: i + 1 };
                            proof {
                                lemma_glue_prepend(pre, tok@, lex_sm(input@, i + 1, MLexSt::Start));
                                lemma_model_push(out@, tok);
                                lemma_wf_push(pre, tok@);
                            }
                            out.push(tok);
                            i += 1;
                        },
                        None => {
                            if digit_char(c) {
                                let d: u64 = (c as u32 - 48) as u64;
                                proof {
                                    reveal_with_fuel(pow10, 3);
                                }
                                st = LexSt::InNum {
                                    start: i,
                                    neg: false,
                                    acc: d,
                                    ndig: 1,
                                    fdig: None,
                                };
                                i += 1;
                            } else if c == '-' {
                                st = LexSt::InNum {
                                    start: i,
                                    neg: true,
                                    acc: 0,
                                    ndig: 0,
                                    fdig: None,
                                };
                                i += 1;
                            } else if ident_start_char(c) {
                                let mut content = String::new();
                                proof {
                                    assert(content@ =~= Seq::<char>::empty());
                                }
                                push_char(&mut content, c);
                                proof {
                                    assert(content@ =~= seq![c]);
                                }
                                st = LexSt::InIdent { start: i, content };
                                i += 1;
                            } else {
                                return Err(lexical_at(i));
                            }
                        },
                    }
                }
            },
            LexSt::Slash { start } => {
                if c == '/' {
                    st = LexSt::Comment;
                    i += 1;
                } else {
                    return Err(lexical_at(start));
                }
            },
            LexSt::Comment => {
                st = LexSt::Comment;
                if c == '\n' {
                    st = LexSt::Start;
                }
                i += 1;
            },
            LexSt::InStr { start, mut content } => {
                if c == '"' {
                    let tok = Tok { kind: TokKind::StrLit(content), start, end: i + 1 };
                    proof {
                        lemma_glue_prepend(pre, tok@, lex_sm(input@, i + 1, MLexSt::Start));
                        lemma_model_push(out@, tok);
                        lemma_wf_push(pre, tok@);
                    }
                    out.push(tok);
                    st = LexSt::Start;
                    i += 1;
                } else {
                    push_char(&mut content, c);
                    st = LexSt::InStr { start, content };
                    i += 1;
                }
            },
            LexSt::InNum { start, neg, acc, ndig, fdig } => {
                if digit_char(c) {
                    if ndig >= 18 {
                        return Err(lexical_at(i));
                    }
                    let frac_full = match fdig {
                        Some(f) => f >= 9,
                        None => false,
                    };
                    if frac_full {
                        return Err(lexical_at(i));
                    }
                    let d: u64 = (c as u32 - 48) as u64;
                    proof {
                        lemma_pow10_18();
                        assert(pow10(ndig as nat + 1) == 10 * pow10(ndig as nat));
                        lemma_pow10_mono(ndig as nat + 1, 18);
                        assert(acc as nat * 10 + digit_of(c) < pow10(ndig as nat + 1));
                    }
                    let acc2: u64 = acc * 10 + d;
                    let fdig2: Option<u32> = match fdig {
                        Some(f) => Some(f + 1),
                        None => None,
                    };
                    st = LexSt::InNum { start, neg, acc: acc2, ndig: ndig + 1, fdig: fdig2 };
                    i += 1;
                } else if c == '.' && fdig.is_none() && ndig > 0 {
                    st = LexSt::InNum { start, neg, acc, ndig, fdig: Some(0) };
                    i += 1;
                } else if ndig == 0 {
                    return Err(lexical_at(start));
                } else {
                    proof {
                        lemma_pow10_mono(ndig as nat, 18);
                        lemma_pow10_18();
                    }
                    let tok = make_num_tok(start, i, neg, acc, fdig);
                    proof {
                        lemma_glue_prepend(pre, tok@, lex_sm(input@, i as int, MLexSt::Start));
                        lemma_model_push(out@, tok);
                        lemma_wf_push(pre, tok@);
                    }
                    out.push(tok);
                    st = LexSt::Start;
                }
            },
            LexSt::InIdent { start, mut content } => {
                if ident_char(c) {
                    push_char(&mut content, c);
                    st = LexSt::InIdent { start, content };
                    i += 1;
                } else {
                    let tok = Tok { kind: TokKind::Ident(content), start, end: i };
                    proof {
                        lemma_glue_prepend(pre, tok@, lex_sm(input@, i as int, MLexSt::Start));
                        lemma_model_push(out@, tok);
                        lemma_wf_push(pre, tok@);
                    }
                    out.push(tok);
                    st = LexSt::Start;
                }
            },
        }
    }
    let ghost pre = toks_model(out@);
    let ghost stf = st_model(&st);
    match st {
        LexSt::Start => {
            proof {
                assert(pre + Seq::<MTok>::empty() =~= pre);
            }
            Ok(out)
        },
        LexSt::Comment => {
            proof {
                assert(pre + Seq::<MTok>::empty() =~= pre);
            }
            Ok(out)
        },
        LexSt::Slash { start } => Err(lexical_at(start)),
        LexSt::InStr { start, content: _ } => Err(lexical_at(start)),
        LexSt::InNum { start, neg, acc, ndig, fdig } => {
            if ndig == 0 {
                Err(lexical_at(start))
            } else {
                proof {
                    lemma_pow10_mono(ndig as nat, 18);
                    lemma_pow10_18();
                }
                let tok = make_num_tok(start, n, neg, acc, fdig);
                proof {
                    lemma_model_push(out@, tok);
                    lemma_wf_push(pre, tok@);
                    assert(lex_sm(input@, n as int, stf) == Ok::<Seq<MTok>, int>(seq![tok@]));
                    assert(pre + seq![tok@] =~= pre.push(tok@));
                }
                out.push(tok);
                Ok(out)
            }
        },
        LexSt::InIdent { start, content } => {
            let tok = Tok { kind: TokKind::Ident(content), start, end: n };
            proof {
                lemma_model_push(out@, tok);
                lemma_wf_push(pre, tok@);
                assert(lex_sm(input@, n as int, stf) == Ok::<Seq<MTok>, int>(seq![tok@]));
                assert(pre + seq![tok@] =~= pre.push(tok@));
            }
            out.push(tok);
            Ok(out)
        },
    }
}

} // verus!

//! The generic value grammar shared by every schema:
//!
//! ```text
//! value  := string | integer | decimal | "true" | "false"
//!         | ident | ident '(' value* ')' | ident '{' field* '}'
//!         | '[' value* ']' | '{' field* '}'
//! field  := ident '=' value
//! ```
//!
//! `,` and `:` are accepted as optional separators between list items and
//! call arguments.  The parser builds an untyped tree with spans; the
//! schema layer interprets it against the field's declared kind.

use vstd::prelude::*;

use crate::decimal::{Decimal, MANT_LIMIT};
use crate::diag::{DiagKind, Diagnostic, MDiag};
use crate::lexer::{mtok_wf, mtoks_wf, toks_model, MTok, MTokKind, Tok, TokKind};
use crate::text::string_is;

verus! {

/// An untyped parsed value with its span.
#[derive(Debug)]
pub struct RawValue {
    pub node: RawNode,
    pub start: usize,
    pub end: usize,
}

/// The shapes a value can take.
#[derive(Debug)]
pub enum RawNode {
    Str(String),
    Int(u64),
    Dec(Decimal),
    Bool(bool),
    /// A bare identifier, e.g. an enum-like keyword.
    Tag(String),
    /// `name(arg ...)`.
    Call(String, Vec<RawValue>),
    /// `name { field ... }`.
    Block(String, Vec<RawField>),
    /// `[ value ... ]`.
    List(Vec<RawValue>),
    /// `{ field ... }`.
    Rec(Vec<RawField>),
}

/// One `key = value` pair inside a record.
#[derive(Debug)]
pub struct RawField {
    pub key: String,
    pub key_start: usize,
    pub key_end: usize,
    pub value: RawValue,
}

/// Model of a parsed value.
pub struct MRaw {
    pub node: MRawNode,
    pub start: int,
    pub end: int,
}

pub enum MRawNode {
    Str(Seq<char>),
    Int(u64),
    Dec(Decimal),
    Bool(bool),
    Tag(Seq<char>),
    Call(Seq<char>, Seq<MRaw>),
    Block(Seq<char>, Seq<MRawField>),
    List(Seq<MRaw>),
    Rec(Seq<MRawField>),
}

pub struct MRawField {
    pub key: Seq<char>,
    pub key_start: int,
    pub key_end: int,
    pub value: MRaw,
}

pub open spec fn raw_model(v: RawValue) -> MRaw
    decreases v,
{
    MRaw { node: node_model(v.node), start: v.start as int, end: v.end as int }
}

pub open spec fn node_model(n: RawNode) -> MRawNode
    decreases n,
{
    match n {
        RawNode::Str(s) => MRawNode::Str(s@),
        RawNode::Int(x) => MRawNode::Int(x),
        RawNode::Dec(d) => MRawNode::Dec(d),
        RawNode::Bool(b) => MRawNode::Bool(b),
        RawNode::Tag(s) => MRawNode::Tag(s@),
        RawNode::Call(s, args) => MRawNode::Call(s@, raws_model(args@)),
        RawNode::Block(s, fs) => MRawNode::Block(s@, fields_model(fs@)),
        RawNode::List(items) => MRawNode::List(raws_model(items@)),
        RawNode::Rec(fs) => MRawNode::Rec(fields_model(fs@)),
    }
}

pub open spec fn raws_model(vs: Seq<RawValue>) -> Seq<MRaw>
    decreases vs,
{
    if vs.len() == 0 {
        Seq::empty()
    } else {
        seq![raw_model(vs[0])] + raws_model(vs.drop_first())
    }
}

pub open spec fn fields_model(fs: Seq<RawField>) -> Seq<MRawField>
    decreases fs,
{
    if fs.len() == 0 {
        Seq::empty()
    } else {
        seq![field_model(fs[0])] + fields_model(fs.drop_first())
    }
}

pub open spec fn field_model(f: RawField) -> MRawField
    decreases f,
{
    MRawField {
        key: f.key@,
        key_start: f.key_start as int,
        key_end: f.key_end as int,
        value: raw_model(f.value),
    }
}

/// Every numeric leaf of the tree is in the lexer's bounds.
pub open spec fn raw_wf(v: MRaw) -> bool
    decreases v,
{
    node_wf(v.node)
}

pub open spec fn node_wf(n: MRawNode) -> bool
    decreases n,
{
    match n {
        MRawNode::Int(x) => x < MANT_LIMIT as u64,
        MRawNode::Dec(d) => d.wf(),
        MRawNode::Call(_, args) => raws_wf(args),
        MRawNode::Block(_, fs) => fields_wf(fs),
        MRawNode::List(items) => raws_wf(items),
        MRawNode::Rec(fs) => fields_wf(fs),
        _ => true,
    }
}

pub open spec fn raws_wf(vs: Seq<MRaw>) -> bool
    decreases vs,
{
    if vs.len() == 0 {
        true
    } else {
        raw_wf(vs[0]) && raws_wf(vs.drop_first())
    }
}

pub open spec fn fields_wf(fs: Seq<MRawField>) -> bool
    decreases fs,
{
    if fs.len() == 0 {
        true
    } else {
        raw_wf(fs[0].value) && fields_wf(fs.drop_first())
    }
}

/// Where an unexpected end of input is reported: just past the last token.
pub open spec fn eof_at(toks: Seq<MTok>) -> int {
    if toks.len() > 0 {
        toks.last().end
    } else {
        0
    }
}

/// A short name for each token shape, for "expected X, found Y" messages.
pub open spec fn tok_name(k: MTokKind) -> Seq<char> {
    match k {
        MTokKind::LCurly => "'{'"@,
        MTokKind::RCurly => "'}'"@,
        MTokKind::LSquare => "'['"@,
        MTokKind::RSquare => "']'"@,
        MTokKind::LParen => "'('"@,
        MTokKind::RParen => "')'"@,
        MTokKind::Assign => "'='"@,
        MTokKind::Colon => "':'"@,
        MTokKind::Comma => "','"@,
        MTokKind::Amp => "'&'"@,
        MTokKind::StrLit(_) => "string"@,
        MTokKind::IntLit(_) => "integer"@,
        MTokKind::DecLit(_) => "decimal"@,
        MTokKind::Ident(_) => "identifier"@,
    }
}

/// Model of an unexpected-token diagnostic.
pub open spec fn m_unexpected(t: MTok, exp: Seq<Seq<char>>) -> MDiag {
    MDiag {
        kind: DiagKind::UnexpectedToken,
        start: t.start,
        end: t.end,
        expected: exp,
        found: tok_name(t.kind),
    }
}

/// Model of an unexpected-end-of-input diagnostic.
pub open spec fn m_eof(at: int, exp: Seq<Seq<char>>) -> MDiag {
    MDiag {
        kind: DiagKind::UnexpectedEof,
        start: at,
        end: at,
        expected: exp,
        found: "end of input"@,
    }
}

pub open spec fn exp_value() -> Seq<Seq<char>> {
    seq!["string"@, "integer"@, "decimal"@, "identifier"@, "'['"@, "'{'"@]
}

pub open spec fn exp_item() -> Seq<Seq<char>> {
    seq!["value"@, "']'"@]
}

pub open spec fn exp_arg() -> Seq<Seq<char>> {
    seq!["value"@, "')'"@]
}

pub open spec fn exp_field() -> Seq<Seq<char>> {
    seq!["keyword"@, "'}'"@]
}

pub open spec fn exp_assign() -> Seq<Seq<char>> {
    seq!["'='"@]
}

/// Clips a continuation position into `(i, n]`, so that the grammar's
/// recursion visibly terminates; on the positions the parsers really
/// return it is the identity.
pub open spec fn adv(i: int, j: int, n: int) -> int {
    if j <= i {
        i + 1
    } else if j > n {
        n
    } else {
        j
    }
}

/// Parses one value at token `i`.
pub open spec fn spec_value(toks: Seq<MTok>, i: int) -> Result<(MRaw, int), MDiag>
    decreases toks.len() - i, 2int,
{
    if i < 0 || i >= toks.len() {
        Err(m_eof(eof_at(toks), exp_value()))
    } else {
        let t = toks[i];
        match t.kind {
            MTokKind::StrLit(s) => Ok((MRaw { node: MRawNode::Str(s), start: t.start, end: t.end }, i + 1)),
            MTokKind::IntLit(x) => Ok((MRaw { node: MRawNode::Int(x), start: t.start, end: t.end }, i + 1)),
            MTokKind::DecLit(d) => Ok((MRaw { node: MRawNode::Dec(d), start: t.start, end: t.end }, i + 1)),
            MTokKind::Ident(w) => {
                if w == "true"@ {
                    Ok((MRaw { node: MRawNode::Bool(true), start: t.start, end: t.end }, i + 1))
                } else if w == "false"@ {
                    Ok((MRaw { node: MRawNode::Bool(false), start: t.start, end: t.end }, i + 1))
                } else if i + 1 < toks.len() && toks[i + 1].kind is LParen {
                    match spec_args(toks, i + 2) {
                        Ok((args, e, j)) => Ok(
                            (MRaw { node: MRawNode::Call(w, args), start: t.start, end: e }, j),
                        ),
                        Err(d) => Err(d),
                    }
                } else if i + 1 < toks.len() && toks[i + 1].kind is LCurly {
                    match spec_fieldlist(toks, i + 2) {
                        Ok((fs, e, j)) => Ok(
                            (MRaw { node: MRawNode::Block(w, fs), start: t.start, end: e }, j),
                        ),
                        Err(d) => Err(d),
                    }
                } else {
                    Ok((MRaw { node: MRawNode::Tag(w), start: t.start, end: t.end }, i + 1))
                }
            },
            MTokKind::LSquare => {
                match spec_items(toks, i + 1) {
                    Ok((items, e, j)) => Ok(
                        (MRaw { node: MRawNode::List(items), start: t.start, end: e }, j),
                    ),
                    Err(d) => Err(d),
                }
            },
            MTokKind::LCurly => {
                match spec_fieldlist(toks, i + 1) {
                    Ok((fs, e, j)) => Ok((MRaw { node: MRawNode::Rec(fs), start: t.start, end: e }, j)),
                    Err(d) => Err(d),
                }
            },
            _ => Err(m_unexpected(t, exp_value())),
        }
    }
}

/// Parses list items up to the closing `]`; returns the items, the end
/// offset of the `]`, and the next position.
pub open spec fn spec_items(toks: Seq<MTok>, i: int) -> Result<(Seq<MRaw>, int, int), MDiag>
    decreases toks.len() - i, 3int,
{
    if i < 0 || i >= toks.len() {
        Err(m_eof(eof_at(toks), exp_item()))
    } else {
        let t = toks[i];
        match t.kind {
            MTokKind::RSquare => Ok((Seq::empty(), t.end, i + 1)),
            MTokKind::Colon => spec_items(toks, i + 1),
            MTokKind::Comma => spec_items(toks, i + 1),
            _ => match spec_value(toks, i) {
                Ok((v, j)) => match spec_items(toks, adv(i, j, toks.len() as int)) {
                    Ok((rest, e, k)) => Ok((seq![v] + rest, e, k)),
                    Err(d) => Err(d),
                },
                Err(d) => Err(d),
            },
        }
    }
}

/// Parses call arguments up to the closing `)`.
pub open spec fn spec_args(toks: Seq<MTok>, i: int) -> Result<(Seq<MRaw>, int, int), MDiag>
    decreases toks.len() - i, 3int,
{
    if i < 0 || i >= toks.len() {
        Err(m_eof(eof_at(toks), exp_arg()))
    } else {
        let t = toks[i];
        match t.kind {
            MTokKind::RParen => Ok((Seq::empty(), t.end, i + 1)),
            MTokKind::Colon => spec_args(toks, i + 1),
            MTokKind::Comma => spec_args(toks, i + 1),
            _ => match spec_value(toks, i) {
                Ok((v, j)) => match spec_args(toks, adv(i, j, toks.len() as int)) {
                    Ok((rest, e, k)) => Ok((seq![v] + rest, e, k)),
                    Err(d) => Err(d),
                },
                Err(d) => Err(d),
            },
        }
    }
}

/// Parses `key = value` pairs up to the closing `}`.
pub open spec fn spec_fieldlist(toks: Seq<MTok>, i: int) -> Result<(Seq<MRawField>, int, int), MDiag>
    decreases toks.len() - i, 3int,
{
    if i < 0 || i >= toks.len() {
        Err(m_eof(eof_at(toks), exp_field()))
    } else {
        let t = toks[i];
        match t.kind {
            MTokKind::RCurly => Ok((Seq::empty(), t.end, i + 1)),
            MTokKind::Ident(w) => {
                if i + 1 >= toks.len() {
                    Err(m_eof(eof_at(toks), exp_assign()))
                } else if !(toks[i + 1].kind is Assign) {
                    Err(m_unexpected(toks[i + 1], exp_assign()))
                } else {
                    match spec_value(toks, i + 2) {
                        Ok((v, j)) => match spec_fieldlist(toks, adv(i, j, toks.len() as int)) {
                            Ok((rest, e, k)) => Ok(
                                (
                                    seq![
                                        MRawField {
                                            key: w,
                                            key_start: t.start,
                                            key_end: t.end,
                                            value: v,
                                        },
                                    ] + rest,
                                    e,
                                    k,
                                ),
                            ),
                            Err(d) => Err(d),
                        },
                        Err(d) => Err(d),
                    }
                }
            },
            _ => Err(m_unexpected(t, exp_field())),
        }
    }
}

pub proof fn lemma_raws_model_len(s: Seq<RawValue>)
    ensures
        raws_model(s).len() == s.len(),
    decreases s,
{
    if s.len() > 0 {
        lemma_raws_model_len(s.drop_first());
    }
}

pub proof fn lemma_fields_model_len(s: Seq<RawField>)
    ensures
        fields_model(s).len() == s.len(),
    decreases s,
{
    if s.len() > 0 {
        lemma_fields_model_len(s.drop_first());
    }
}

proof fn lemma_raws_model_cons(v: RawValue, rest: Seq<RawValue>)
    ensures
        raws_model(seq![v] + rest) == seq![raw_model(v)] + raws_model(rest),
{
    assert((seq![v] + rest)[0] == v);
    assert((seq![v] + rest).drop_first() =~= rest);
}

proof fn lemma_fields_model_cons(f: RawField, rest: Seq<RawField>)
    ensures
        fields_model(seq![f] + rest) == seq![field_model(f)] + fields_model(rest),
{
    assert((seq![f] + rest)[0] == f);
    assert((seq![f] + rest).drop_first() =~= rest);
}

proof fn lemma_raws_wf_cons(m: MRaw, rest: Seq<MRaw>)
    ensures
        raws_wf(seq![m] + rest) == (raw_wf(m) && raws_wf(rest)),
{
    assert((seq![m] + rest)[0] == m);
    assert((seq![m] + rest).drop_first() =~= rest);
}

proof fn lemma_fields_wf_cons(m: MRawField, rest: Seq<MRawField>)
    ensures
        fields_wf(seq![m] + rest) == (raw_wf(m.value) && fields_wf(rest)),
{
    assert((seq![m] + rest)[0] == m);
    assert((seq![m] + rest).drop_first() =~= rest);
}

fn tok_found(k: &TokKind) -> (r: String)
    ensures
        r@ == tok_name(k@),
{
    match k {
        TokKind::LCurly => String::from_str("'{'"),
        TokKind::RCurly => String::from_str("'}'"),
        TokKind::LSquare => String::from_str("'['"),
        TokKind::RSquare => String::from_str("']'"),
        TokKind::LParen => String::from_str("'('"),
        TokKind::RParen => String::from_str("')'"),
        TokKind::Assign => String::from_str("'='"),
        TokKind::Colon => String::from_str("':'"),
        TokKind::Comma => String::from_str("','"),
        TokKind::Amp => String::from_str("'&'"),
        TokKind::StrLit(_) => String::from_str("string"),
        TokKind::IntLit(_) => String::from_str("integer"),
        TokKind::DecLit(_) => String::from_str("decimal"),
        TokKind::Ident(_) => String::from_str("identifier"),
    }
}

fn exp_value_vec() -> (r: Vec<String>)
    ensures
        r.deep_view() == exp_value(),
{
    let mut v: Vec<String> = Vec::new();
    v.push(String::from_str("string"));
    v.push(String::from_str("integer"));
    v.push(String::from_str("decimal"));
    v.push(String::from_str("identifier"));
    v.push(String::from_str("'['"));
    v.push(String::from_str("'{'"));
    proof {
        assert(v.deep_view() =~= exp_value());
    }
    v
}

fn exp_item_vec() -> (r: Vec<String>)
    ensures
        r.deep_view() == exp_item(),
{
    let mut v: Vec<String> = Vec::new();
    v.push(String::from_str("value"));
    v.push(String::from_str("']'"));
    proof {
        assert(v.deep_view() =~= exp_item());
    }
    v
}

fn exp_arg_vec() -> (r: Vec<String>)
    ensures
        r.deep_view() == exp_arg(),
{
    let mut v: Vec<String> = Vec::new();
    v.push(String::from_str("value"));
    v.push(String::from_str("')'"));
    proof {
        assert(v.deep_view() =~= exp_arg());
    }
    v
}

fn exp_field_vec() -> (r: Vec<String>)
    ensures
        r.deep_view() == exp_field(),
{
    let mut v: Vec<String> = Vec::new();
    v.push(String::from_str("keyword"));
    v.push(String::from_str("'}'"));
    proof {
        assert(v.deep_view() =~= exp_field());
    }
    v
}

fn exp_assign_vec() -> (r: Vec<String>)
    ensures
        r.deep_view() == exp_assign(),
{
    let mut v: Vec<String> = Vec::new();
    v.push(String::from_str("'='"));
    proof {
        assert(v.deep_view() =~= exp_assign());
    }
    v
}

/// Builds the unexpected-end-of-input diagnostic for this token list.
pub fn eof_diag(toks: &Vec<Tok>, exp: Vec<String>) -> (r: Diagnostic)
    ensures
        r@ == m_eof(eof_at(toks_model(toks@)), exp.deep_view()),
{
    let at = if toks.len() > 0 {
        let t = &toks[toks.len() - 1];
        proof {
            assert(toks_model(toks@).last() == toks@.last()@);
        }
        t.end
    } else {
        0
    };
    Diagnostic {
        kind: DiagKind::UnexpectedEof,
        start: at,
        end: at,
        expected: exp,
        found: String::from_str("end of input"),
    }
}

/// Builds the unexpected-token diagnostic for `t`.
pub fn unexpected(t: &Tok, exp: Vec<String>) -> (r: Diagnostic)
    ensures
        r@ == m_unexpected(t@, exp.deep_view()),
{
    Diagnostic {
        kind: DiagKind::UnexpectedToken,
        start: t.start,
        end: t.end,
        expected: exp,
        found: tok_found(&t.kind),
    }
}

/// Parses one value at token `i`, mirroring [`spec_value`].
pub fn p_value(toks: &Vec<Tok>, i: usize) -> (r: Result<(RawValue, usize), Diagnostic>)
    requires
        i <= toks@.len(),
        mtoks_wf(toks_model(toks@)),
    ensures
        match (r, spec_value(toks_model(toks@), i as int)) {
            (Ok((v, j)), Ok((mv, mj))) => raw_model(v) == mv && j as int == mj && i < j
                && j <= toks@.len() && raw_wf(mv),
            (Err(d), Err(md)) => d@ == md,
            _ => false,
        },
    decreases toks@.len() - i, 2int,
{
    let n = toks.len();
    if i >= n {
        return Err(eof_diag(toks, exp_value_vec()));
    }
    let t = &toks[i];
    proof {
        assert(toks_model(toks@)[i as int] == toks@[i as int]@);
        assert(mtok_wf(toks_model(toks@)[i as int]));
    }
    match &t.kind {
        TokKind::StrLit(s) => Ok(
            (RawValue { node: RawNode::Str(s.clone()), start: t.start, end: t.end }, i + 1),
        ),
        TokKind::IntLit(x) => Ok(
            (RawValue { node: RawNode::Int(*x), start: t.start, end: t.end }, i + 1),
        ),
        TokKind::DecLit(d) => Ok(
            (RawValue { node: RawNode::Dec(*d), start: t.start, end: t.end }, i + 1),
        ),
        TokKind::Ident(w) => {
            if string_is(w, "true") {
                Ok((RawValue { node: RawNode::Bool(true), start: t.start, end: t.end }, i + 1))
            } else if string_is(w, "false") {
                Ok((RawValue { node: RawNode::Bool(false), start: t.start, end: t.end }, i + 1))
            } else if i + 1 < n && matches!(&toks[i + 1].kind, TokKind::LParen) {
                proof {
                    assert(toks_model(toks@)[i + 1] == toks@[i + 1]@);
                }
                match p_args(toks, i + 2) {
                    Ok((args, e, j)) => Ok(
                        (RawValue { node: RawNode::Call(w.clone(), args), start: t.start, end: e }, j),
                    ),
                    Err(d) => Err(d),
                }
            } else if i + 1 < n && matches!(&toks[i + 1].kind, TokKind::LCurly) {
                proof {
                    assert(toks_model(toks@)[i + 1] == toks@[i + 1]@);
                }
                match p_fieldlist(toks, i + 2) {
                    Ok((fs, e, j)) => Ok(
                        (RawValue { node: RawNode::Block(w.clone(), fs), start: t.start, end: e }, j),
                    ),
                    Err(d) => Err(d),
                }
            } else {
                proof {
                    if i + 1 < toks@.len() {
                        assert(toks_model(toks@)[i + 1] == toks@[i + 1]@);
                    }
                }
                Ok((RawValue { node: RawNode::Tag(w.clone()), start: t.start, end: t.end }, i + 1))
            }
        },
        TokKind::LSquare => {
            match p_items(toks, i + 1) {
                Ok((items, e, j)) => Ok(
                    (RawValue { node: RawNode::List(items), start: t.start, end: e }, j),
                ),
                Err(d) => Err(d),
            }
        },
        TokKind::LCurly => {
            match p_fieldlist(toks, i + 1) {
                Ok((fs, e, j)) => Ok((RawValue { node: RawNode::Rec(fs), start: t.start, end: e }, j)),
                Err(d) => Err(d),
            }
        },
        _ => Err(unexpected(t, exp_value_vec())),
    }
}

/// Parses list items up to `]`, mirroring [`spec_items`].
pub fn p_items(toks: &Vec<Tok>, i: usize) -> (r: Result<(Vec<RawValue>, usize, usize), Diagnostic>)
    requires
        i <= toks@.len(),
        mtoks_wf(toks_model(toks@)),
    ensures
        match (r, spec_items(toks_model(toks@), i as int)) {
            (Ok((vs, e, j)), Ok((mvs, me, mj))) => raws_model(vs@) == mvs && e as int == me
                && j as int == mj && i < j && j <= toks@.len() && raws_wf(mvs),
            (Err(d), Err(md)) => d@ == md,
            _ => false,
        },
    decreases toks@.len() - i, 3int,
{
    let n = toks.len();
    if i >= n {
        return Err(eof_diag(toks, exp_item_vec()));
    }
    let t = &toks[i];
    proof {
        assert(toks_model(toks@)[i as int] == toks@[i as int]@);
    }
    match &t.kind {
        TokKind::RSquare => {
            let vs: Vec<RawValue> = Vec::new();
            proof {
                assert(raws_model(vs@) =~= Seq::<MRaw>::empty());
            }
            Ok((vs, t.end, i + 1))
        },
        TokKind::Colon => p_items(toks, i + 1),
        TokKind::Comma => p_items(toks, i + 1),
        _ => {
            match p_value(toks, i) {
                Ok((v, j)) => {
                    proof {
                        assert(adv(i as int, j as int, toks@.len() as int) == j as int);
                    }
                    match p_items(toks, j) {
                        Ok((mut rest, e, k)) => {
                            let ghost r0 = rest@;
                            rest.insert(0, v);
                            proof {
                                assert(rest@ =~= seq![v] + r0);
                                lemma_raws_model_cons(v, r0);
                                lemma_raws_wf_cons(raw_model(v), raws_model(r0));
                            }
                            Ok((rest, e, k))
                        },
                        Err(d) => Err(d),
                    }
                },
                Err(d) => Err(d),
            }
        },
    }
}

/// Parses call arguments up to `)`, mirroring [`spec_args`].
pub fn p_args(toks: &Vec<Tok>, i: usize) -> (r: Result<(Vec<RawValue>, usize, usize), Diagnostic>)
    requires
        i <= toks@.len(),
        mtoks_wf(toks_model(toks@)),
    ensures
        match (r, spec_args(toks_model(toks@), i as int)) {
            (Ok((vs, e, j)), Ok((mvs, me, mj))) => raws_model(vs@) == mvs && e as int == me
                && j as int == mj && i < j && j <= toks@.len() && raws_wf(mvs),
            (Err(d), Err(md)) => d@ == md,
            _ => false,
        },
    decreases toks@.len() - i, 3int,
{
    let n = toks.len();
    if i >= n {
        return Err(eof_diag(toks, exp_arg_vec()));
    }
    let t = &toks[i];
    proof {
        assert(toks_model(toks@)[i as int] == toks@[i as int]@);
    }
    match &t.kind {
        TokKind::RParen => {
            let vs: Vec<RawValue> = Vec::new();
            proof {
                assert(raws_model(vs@) =~= Seq::<MRaw>::empty());
            }
            Ok((vs, t.end, i + 1))
        },
        TokKind::Colon => p_args(toks, i + 1),
        TokKind::Comma => p_args(toks, i + 1),
        _ => {
            match p_value(toks, i) {
                Ok((v, j)) => {
                    proof {
                        assert(adv(i as int, j as int, toks@.len() as int) == j as int);
                    }
                    match p_args(toks, j) {
                        Ok((mut rest, e, k)) => {
                            let ghost r0 = rest@;
                            rest.insert(0, v);
                            proof {
                                assert(rest@ =~= seq![v] + r0);
                                lemma_raws_model_cons(v, r0);
                                lemma_raws_wf_cons(raw_model(v), raws_model(r0));
                            }
                            Ok((rest, e, k))
                        },
                        Err(d) => Err(d),
                    }
                },
                Err(d) => Err(d),
            }
        },
    }
}

/// Parses `key = value` pairs up to `}`, mirroring [`spec_fieldlist`].
pub fn p_fieldlist(toks: &Vec<Tok>, i: usize) -> (r: Result<
    (Vec<RawField>, usize, usize),
    Diagnostic,
>)
    requires
        i <= toks@.len(),
        mtoks_wf(toks_model(toks@)),
    ensures
        match (r, spec_fieldlist(toks_model(toks@), i as int)) {
            (Ok((fs, e, j)), Ok((mfs, me, mj))) => fields_model(fs@) == mfs && e as int == me
                && j as int == mj && i < j && j <= toks@.len() && fields_wf(mfs),
            (Err(d), Err(md)) => d@ == md,
            _ => false,
        },
    decreases toks@.len() - i, 3int,
{
    let n = toks.len();
    if i >= n {
        return Err(eof_diag(toks, exp_field_vec()));
    }
    let t = &toks[i];
    proof {
        assert(toks_model(toks@)[i as int] == toks@[i as int]@);
    }
    match &t.kind {
        TokKind::RCurly => {
            let fs: Vec<RawField> = Vec::new();
            proof {
                assert(fields_model(fs@) =~= Seq::<MRawField>::empty());
            }
            Ok((fs, t.end, i + 1))
        },
        TokKind::Ident(w) => {
            if i + 1 >= n {
                return Err(eof_diag(toks, exp_assign_vec()));
            }
            proof {
                assert(toks_model(toks@)[i + 1] == toks@[i + 1]@);
            }
            if !matches!(&toks[i + 1].kind, TokKind::Assign) {
                return Err(unexpected(&toks[i + 1], exp_assign_vec()));
            }
            match p_value(toks, i + 2) {
                Ok((v, j)) => {
                    proof {
                        assert(adv(i as int, j as int, toks@.len() as int) == j as int);
                    }
                    match p_fieldlist(toks, j) {
                        Ok((mut rest, e, k)) => {
                            let f = RawField {
                                key: w.clone(),
                                key_start: t.start,
                                key_end: t.end,
                                value: v,
                            };
                            let ghost r0 = rest@;
                            let ghost fm = field_model(f);
                            rest.insert(0, f);
                            proof {
                                assert(rest@ =~= seq![rest@[0]] + r0);
                                lemma_fields_model_cons(rest@[0], r0);
                                lemma_fields_wf_cons(fm, fields_model(r0));
                            }
                            Ok((rest, e, k))
                        },
                        Err(d) => Err(d),
                    }
                },
                Err(d) => Err(d),
            }
        },
        _ => Err(unexpected(t, exp_field_vec())),
    }
}

} // verus!

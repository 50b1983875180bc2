//! The generic schema engine: one record grammar for every schema.
//!
//! ```text
//! records := record*
//! record  := id '{' field* '}'
//! field   := keyword '=' value
//! ```
//!
//! The record id is a string literal, or an integer for the levelled
//! schemas.  Each keyword is looked up in the schema's field table; an
//! unknown keyword fails, naming the offending token and the keywords
//! valid there.  The parsed value is converted to the declared kind, and
//! the `(slot, value)` entries are handed in source order to the record
//! builders, which apply last-write-wins and defaults.

use vstd::prelude::*;

use crate::diag::{DiagKind, Diagnostic, MDiag};
use crate::lexer::{mtok_wf, mtoks_wf, toks_model, MTok, MTokKind, Tok, TokKind};
use crate::raw::{
    adv, eof_at, exp_field, m_eof, m_unexpected, raw_model, raw_wf, spec_value,
};
use crate::rules::{
    mbranch_wf, branches_wf, spec_branch, spec_branch_list,
};
use crate::schema::{
    field_of, lookup_field, schema_keywords, schema_kws, spec_convert, tv_model, FieldKind,
    MTypedValue, SchemaId, TypedValue,
};
use crate::text::string_is;

verus! {

/// A record's identity: a string, or a level number.
#[derive(Debug, PartialEq)]
pub enum RecId {
    S(String),
    N(u64),
}

pub enum MRecId {
    S(Seq<char>),
    N(u64),
}

impl View for RecId {
    type V = MRecId;

    open spec fn view(&self) -> MRecId {
        match self {
            RecId::S(s) => MRecId::S(s@),
            RecId::N(x) => MRecId::N(*x),
        }
    }
}

/// One parsed record before it is folded into its typed form.
#[derive(Debug)]
pub struct Rec {
    pub id: RecId,
    pub id_start: usize,
    pub id_end: usize,
    pub entries: Vec<(u32, TypedValue)>,
}

pub struct MRec {
    pub id: MRecId,
    pub id_start: int,
    pub id_end: int,
    pub entries: Seq<(u32, MTypedValue)>,
}

pub open spec fn entries_model(es: Seq<(u32, TypedValue)>) -> Seq<(u32, MTypedValue)>
    decreases es,
{
    if es.len() == 0 {
        Seq::empty()
    } else {
        seq![(es[0].0, tv_model(es[0].1))] + entries_model(es.drop_first())
    }
}

pub open spec fn rec_model(r: Rec) -> MRec
    decreases r,
{
    MRec {
        id: r.id@,
        id_start: r.id_start as int,
        id_end: r.id_end as int,
        entries: entries_model(r.entries@),
    }
}

pub open spec fn recs_model(rs: Seq<Rec>) -> Seq<MRec>
    decreases rs,
{
    if rs.len() == 0 {
        Seq::empty()
    } else {
        seq![rec_model(rs[0])] + recs_model(rs.drop_first())
    }
}

/// Whether the schema's records are named by an integer level.
pub open spec fn id_is_int(sid: SchemaId) -> bool {
    match sid {
        SchemaId::AsteroidMining => true,
        SchemaId::Orbitals => true,
        SchemaId::Shipyards => true,
        SchemaId::StapledonSwarms => true,
        SchemaId::Ranks => true,
        SchemaId::StellarSystems => true,
        _ => false,
    }
}

/// The value shape each field kind produces.
pub open spec fn tv_matches(kind: FieldKind, tv: MTypedValue) -> bool {
    match kind {
        FieldKind::KStr => tv is TStr,
        FieldKind::KBool => tv is TBool,
        FieldKind::KU8 => tv is TU8,
        FieldKind::KU16 => tv is TU16,
        FieldKind::KU64 => tv is TU64,
        FieldKind::KDec => tv is TDec,
        FieldKind::KTempC => tv is TTemp,
        FieldKind::KTempK => tv is TTemp,
        FieldKind::KGoods => tv is TGoods,
        FieldKind::KCGoods => tv is TCGoods,
        FieldKind::KAbundances => tv is TAbunds,
        FieldKind::KStations => tv is TStations,
        FieldKind::KFilters => tv is TFilters,
        FieldKind::KAugEffects => tv is TAugEffects,
        FieldKind::KTraitEffects => tv is TTraitEffects,
        FieldKind::KGoodType => tv is TGoodType,
        FieldKind::KConsumption => tv is TCons,
        FieldKind::KPlanetClass => tv is TPClass,
        FieldKind::KShipClass => tv is TSClass,
        FieldKind::KBuildingLimit => tv is TBLimit,
        FieldKind::KHousing => tv is THousing,
        FieldKind::KPrivateBuildings => tv is TPBuild,
        FieldKind::KPopImpact => tv is TPopImp,
        FieldKind::KImpact => tv is TImpact,
        FieldKind::KNatResources => tv is TNatRes,
        FieldKind::KStar => tv is TStar,
        FieldKind::KPlanetList => tv is TPlanets,
        FieldKind::KMoonList => tv is TMoons,
        FieldKind::KBranch => tv is TBranch && mbranch_wf(tv->TBranch_0),
        FieldKind::KBranchList => tv is TBranches && branches_wf(tv->TBranches_0),
    }
}

/// An entry the engine emits: its slot comes from the schema's table and
/// its value has the declared shape.
pub open spec fn entry_wf(sid: SchemaId, e: (u32, MTypedValue)) -> bool {
    exists|kw: Seq<char>|
        #![trigger field_of(sid, kw)]
        match field_of(sid, kw) {
            Some(p) => p.0 == e.0 && tv_matches(p.1, e.1),
            None => false,
        }
}

pub open spec fn entries_ok(sid: SchemaId, es: Seq<(u32, MTypedValue)>) -> bool {
    forall|j: int| 0 <= j < es.len() ==> entry_wf(sid, #[trigger] es[j])
}

/// The identity and entries of a record are well-formed for its schema.
pub open spec fn mrec_wf(sid: SchemaId, r: MRec) -> bool {
    &&& if id_is_int(sid) {
        r.id is N
    } else {
        r.id is S
    }
    &&& entries_ok(sid, r.entries)
}

pub open spec fn mrecs_wf(sid: SchemaId, rs: Seq<MRec>) -> bool {
    forall|j: int| 0 <= j < rs.len() ==> mrec_wf(sid, #[trigger] rs[j])
}

/// Conversion of a parsed value yields a value of the declared shape.
proof fn lemma_convert_matches(kind: FieldKind, v: crate::raw::MRaw)
    ensures
        match spec_convert(kind, v) {
            Ok(tv) => tv_matches(kind, tv),
            Err(_) => true,
        },
{
    reveal(spec_convert);
}

/// The unknown-field diagnostic for a keyword token.
pub open spec fn m_unknown_kw(t: MTok, w: Seq<char>, kws: Seq<Seq<char>>) -> MDiag {
    MDiag { kind: DiagKind::UnknownField, start: t.start, end: t.end, expected: kws, found: w }
}

pub open spec fn exp_assign2() -> Seq<Seq<char>> {
    seq!["'='"@]
}

/// Parses the fields of one record, up to the closing `}`.
pub open spec fn spec_rec_fields(sid: SchemaId, toks: Seq<MTok>, i: int) -> Result<
    (Seq<(u32, MTypedValue)>, int),
    MDiag,
>
    decreases toks.len() - i, 5int,
{
    let n = toks.len() as int;
    if i < 0 || i >= n {
        Err(m_eof(eof_at(toks), exp_field()))
    } else {
        let t = toks[i];
        match t.kind {
            MTokKind::RCurly => Ok((Seq::empty(), i + 1)),
            MTokKind::Ident(w) => match field_of(sid, w) {
                None => Err(m_unknown_kw(t, w, schema_keywords(sid))),
                Some((fid, kind)) => {
                    if i + 1 >= n {
                        Err(m_eof(eof_at(toks), exp_assign2()))
                    } else if !(toks[i + 1].kind is Assign) {
                        Err(m_unexpected(toks[i + 1], exp_assign2()))
                    } else if kind == FieldKind::KBranch {
                        match spec_branch(toks, i + 2) {
                            Ok((b, j)) => match spec_rec_fields(sid, toks, adv(i, j, n)) {
                                Ok((rest, k)) => Ok(
                                    (seq![(fid, MTypedValue::TBranch(b))] + rest, k),
                                ),
                                Err(d) => Err(d),
                            },
                            Err(d) => Err(d),
                        }
                    } else if kind == FieldKind::KBranchList {
                        match spec_branch_list(toks, i + 2) {
                            Ok((bs, j)) => match spec_rec_fields(sid, toks, adv(i, j, n)) {
                                Ok((rest, k)) => Ok(
                                    (seq![(fid, MTypedValue::TBranches(bs))] + rest, k),
                                ),
                                Err(d) => Err(d),
                            },
                            Err(d) => Err(d),
                        }
                    } else {
                        match spec_value(toks, i + 2) {
                            Ok((raw, j)) => match spec_convert(kind, raw) {
                                Ok(tv) => match spec_rec_fields(sid, toks, adv(i, j, n)) {
                                    Ok((rest, k)) => Ok((seq![(fid, tv)] + rest, k)),
                                    Err(d) => Err(d),
                                },
                                Err(d) => Err(d),
                            },
                            Err(d) => Err(d),
                        }
                    }
                },
            },
            _ => Err(m_unexpected(t, exp_field())),
        }
    }
}

pub open spec fn exp_id(sid: SchemaId) -> Seq<Seq<char>> {
    if id_is_int(sid) {
        seq!["integer"@]
    } else {
        seq!["string"@]
    }
}

pub open spec fn exp_lcurly2() -> Seq<Seq<char>> {
    seq!["'{'"@]
}

/// Parses records until the end of the token list.
pub open spec fn spec_records(sid: SchemaId, toks: Seq<MTok>, i: int) -> Result<Seq<MRec>, MDiag>
    decreases toks.len() - i, 6int,
{
    let n = toks.len() as int;
    if i < 0 || i >= n {
        Ok(Seq::empty())
    } else {
        let t = toks[i];
        let id = if id_is_int(sid) {
            match t.kind {
                MTokKind::IntLit(x) => Some(MRecId::N(x)),
                _ => None,
            }
        } else {
            match t.kind {
                MTokKind::StrLit(s) => Some(MRecId::S(s)),
                _ => None,
            }
        };
        match id {
            None => Err(m_unexpected(t, exp_id(sid))),
            Some(mid) => {
                if i + 1 >= n {
                    Err(m_eof(eof_at(toks), exp_lcurly2()))
                } else if !(toks[i + 1].kind is LCurly) {
                    Err(m_unexpected(toks[i + 1], exp_lcurly2()))
                } else {
                    match spec_rec_fields(sid, toks, i + 2) {
                        Ok((entries, j)) => {
                            let rec = MRec {
                                id: mid,
                                id_start: t.start,
                                id_end: t.end,
                                entries,
                            };
                            match spec_records(sid, toks, adv(i, j, n)) {
                                Ok(rest) => Ok(seq![rec] + rest),
                                Err(d) => Err(d),
                            }
                        },
                        Err(d) => Err(d),
                    }
                }
            },
        }
    }
}

proof fn lemma_entries_model_cons(e: (u32, TypedValue), rest: Seq<(u32, TypedValue)>)
    ensures
        entries_model(seq![e] + rest) == seq![(e.0, tv_model(e.1))] + entries_model(rest),
{
    assert((seq![e] + rest)[0] == e);
    assert((seq![e] + rest).drop_first() =~= rest);
}

proof fn lemma_recs_model_cons(r: Rec, rest: Seq<Rec>)
    ensures
        recs_model(seq![r] + rest) == seq![rec_model(r)] + recs_model(rest),
{
    assert((seq![r] + rest)[0] == r);
    assert((seq![r] + rest).drop_first() =~= rest);
}

proof fn lemma_entries_ok_cons(sid: SchemaId, e: (u32, MTypedValue), rest: Seq<(u32, MTypedValue)>)
    requires
        entry_wf(sid, e),
        entries_ok(sid, rest),
    ensures
        entries_ok(sid, seq![e] + rest),
{
    assert forall|j: int| 0 <= j < (seq![e] + rest).len() implies entry_wf(
        sid,
        #[trigger] (seq![e] + rest)[j],
    ) by {
        if j == 0 {
            assert((seq![e] + rest)[0] == e);
        } else {
            assert((seq![e] + rest)[j] == rest[j - 1]);
        }
    }
}

proof fn lemma_mrecs_wf_cons(sid: SchemaId, r: MRec, rest: Seq<MRec>)
    requires
        mrec_wf(sid, r),
        mrecs_wf(sid, rest),
    ensures
        mrecs_wf(sid, seq![r] + rest),
{
    assert forall|j: int| 0 <= j < (seq![r] + rest).len() implies mrec_wf(
        sid,
        #[trigger] (seq![r] + rest)[j],
    ) by {
        if j == 0 {
            assert((seq![r] + rest)[0] == r);
        } else {
            assert((seq![r] + rest)[j] == rest[j - 1]);
        }
    }
}

/// Parses one record's fields, mirroring [`spec_rec_fields`].
#[verifier::rlimit(100)]
#[verifier::spinoff_prover]
fn p_rec_fields(sid: SchemaId, toks: &Vec<Tok>, i: usize) -> (r: Result<
    (Vec<(u32, TypedValue)>, usize),
    Diagnostic,
>)
    requires
        i <= toks@.len(),
        mtoks_wf(toks_model(toks@)),
    ensures
        match (r, spec_rec_fields(sid, toks_model(toks@), i as int)) {
            (Ok((es, j)), Ok((mes, mj))) => entries_model(es@) == mes && j as int == mj && i < j
                && j <= toks@.len() && entries_ok(sid, mes),
            (Err(d), Err(md)) => d@ == md,
            _ => false,
        },
    decreases toks@.len() - i, 5int,
{
    let n = toks.len();
    if i >= n {
        return Err(crate::raw::eof_diag(toks, crate::engine::exp_field_vec()));
    }
    let t = &toks[i];
    proof {
        assert(toks_model(toks@)[i as int] == toks@[i as int]@);
    }
    match &t.kind {
        TokKind::RCurly => {
            let es: Vec<(u32, TypedValue)> = Vec::new();
            proof {
                assert(entries_model(es@) =~= Seq::<(u32, MTypedValue)>::empty());
            }
            Ok((es, i + 1))
        },
        TokKind::Ident(w) => {
            match lookup_field(sid, w) {
                None => Err(
                    Diagnostic {
                        kind: DiagKind::UnknownField,
                        start: t.start,
                        end: t.end,
                        expected: schema_kws(sid),
                        found: w.clone(),
                    },
                ),
                Some((fid, kind)) => {
                    if i + 1 >= n {
                        return Err(crate::raw::eof_diag(toks, exp_assign_vec2()));
                    }
                    proof {
                        assert(toks_model(toks@)[i + 1] == toks@[i + 1]@);
                    }
                    if !matches!(&toks[i + 1].kind, TokKind::Assign) {
                        return Err(crate::raw::unexpected(&toks[i + 1], exp_assign_vec2()));
                    }
                    if matches!(kind, FieldKind::KBranch) {
                        match crate::rules::p_branch(toks, i + 2) {
                            Ok((b, j)) => {
                                proof {
                                    assert(adv(i as int, j as int, toks@.len() as int)
                                        == j as int);
                                }
                                match p_rec_fields(sid, toks, j) {
                                    Ok((mut rest, k)) => {
                                        let e = (fid, TypedValue::TBranch(b));
                                        let ghost r0 = rest@;
                                        let ghost em = (fid, tv_model(e.1));
                                        rest.insert(0, e);
                                        proof {
                                            assert(rest@ =~= seq![rest@[0]] + r0);
                                            lemma_entries_model_cons(rest@[0], r0);
                                            assert(field_of(sid, w@) == Some((fid, kind)));
                                            assert(tv_matches(kind, em.1));
                                            assert(entry_wf(sid, em));
                                            lemma_entries_ok_cons(sid, em, entries_model(r0));
                                        }
                                        Ok((rest, k))
                    },
                                    Err(d) => Err(d),
                                }
                            },
                            Err(d) => Err(d),
                        }
                    } else if matches!(kind, FieldKind::KBranchList) {
                        match crate::rules::p_branch_list(toks, i + 2) {
                            Ok((bs, j)) => {
                                proof {
                                    assert(adv(i as int, j as int, toks@.len() as int)
                                        == j as int);
                                }
                                match p_rec_fields(sid, toks, j) {
                                    Ok((mut rest, k)) => {
                                        let e = (fid, TypedValue::TBranches(bs));
                                        let ghost r0 = rest@;
                                        let ghost em = (fid, tv_model(e.1));
                                        rest.insert(0, e);
                                        proof {
                                            assert(rest@ =~= seq![rest@[0]] + r0);
                                            lemma_entries_model_cons(rest@[0], r0);
                                            assert(field_of(sid, w@) == Some((fid, kind)));
                                            assert(tv_matches(kind, em.1));
                                            assert(entry_wf(sid, em));
                                            lemma_entries_ok_cons(sid, em, entries_model(r0));
                                        }
                                        Ok((rest, k))
                    },
                                    Err(d) => Err(d),
                                }
                            },
                            Err(d) => Err(d),
                        }
                    } else {
                        match crate::raw::p_value(toks, i + 2) {
                            Ok((raw, j)) => {
                                let ghost rm = raw_model(raw);
                                match crate::schema::convert(kind, raw) {
                                    Ok(tv) => {
                                        proof {
                                            assert(adv(i as int, j as int, toks@.len() as int)
                                                == j as int);
                                            lemma_convert_matches(kind, rm);
                                        }
                                        match p_rec_fields(sid, toks, j) {
                                            Ok((mut rest, k)) => {
                                                let ghost tvm = tv_model(tv);
                                                let e = (fid, tv);
                                                let ghost r0 = rest@;
                                                let ghost em = (fid, tvm);
                                                rest.insert(0, e);
                                                proof {
                                                    assert(rest@ =~= seq![rest@[0]] + r0);
                                                    lemma_entries_model_cons(rest@[0], r0);
                                                    assert(field_of(sid, w@) == Some(
                                                        (fid, kind),
                                                    ));
                                                    assert(tv_matches(kind, em.1));
                                                    assert(entry_wf(sid, em));
                                                    lemma_entries_ok_cons(
                                                        sid,
                                                        em,
                                                        entries_model(r0),
                                                    );
                                                }
                                                Ok((rest, k))
                                            },
                                            Err(d) => Err(d),
                                        }
                    },
                                    Err(d) => Err(d),
                                }
                            },
                            Err(d) => Err(d),
                        }
                    }
                },
            }
        },
        _ => Err(crate::raw::unexpected(t, crate::engine::exp_field_vec())),
    }
}

fn exp_field_vec() -> (r: Vec<String>)
    ensures
        r.deep_view() =~= exp_field(),
{
    let mut v: Vec<String> = Vec::new();
    v.push(String::from_str("keyword"));
    v.push(String::from_str("'}'"));
    proof {
        assert(v.deep_view() =~= exp_field());
    }
    v
}

fn exp_assign_vec2() -> (r: Vec<String>)
    ensures
        r.deep_view() =~= exp_assign2(),
{
    let mut v: Vec<String> = Vec::new();
    v.push(String::from_str("'='"));
    proof {
        assert(v.deep_view() =~= exp_assign2());
    }
    v
}

fn exp_id_vec(sid: SchemaId) -> (r: Vec<String>)
    ensures
        r.deep_view() =~= exp_id(sid),
{
    let mut v: Vec<String> = Vec::new();
    if matches!(sid, SchemaId::AsteroidMining) || matches!(sid, SchemaId::Orbitals) || matches!(
        sid,
        SchemaId::Shipyards,
    ) || matches!(sid, SchemaId::StapledonSwarms) || matches!(sid, SchemaId::Ranks) || matches!(
        sid,
        SchemaId::StellarSystems,
    ) {
        v.push(String::from_str("integer"));
    } else {
        v.push(String::from_str("string"));
    }
    proof {
        assert(v.deep_view() =~= exp_id(sid));
    }
    v
}

/// Parses records until the end of input, mirroring [`spec_records`].
#[verifier::rlimit(100)]
#[verifier::spinoff_prover]
pub fn p_records(sid: SchemaId, toks: &Vec<Tok>, i: usize) -> (r: Result<Vec<Rec>, Diagnostic>)
    requires
        i <= toks@.len(),
        mtoks_wf(toks_model(toks@)),
    ensures
        match (r, spec_records(sid, toks_model(toks@), i as int)) {
            (Ok(rs), Ok(mrs)) => recs_model(rs@) == mrs && mrecs_wf(sid, mrs),
            (Err(d), Err(md)) => d@ == md,
            _ => false,
        },
    decreases toks@.len() - i, 6int,
{
    let n = toks.len();
    if i >= n {
        let rs: Vec<Rec> = Vec::new();
        proof {
            assert(recs_model(rs@) =~= Seq::<MRec>::empty());
        }
        return Ok(rs);
    }
    let t = &toks[i];
    proof {
        assert(toks_model(toks@)[i as int] == toks@[i as int]@);
    }
    let int_id = matches!(sid, SchemaId::AsteroidMining) || matches!(sid, SchemaId::Orbitals)
        || matches!(sid, SchemaId::Shipyards) || matches!(sid, SchemaId::StapledonSwarms)
        || matches!(sid, SchemaId::Ranks) || matches!(sid, SchemaId::StellarSystems);
    proof {
        assert(int_id == id_is_int(sid));
    }
    let id: RecId = if int_id {
        match &t.kind {
            TokKind::IntLit(x) => RecId::N(*x),
            _ => {
                return Err(crate::raw::unexpected(t, exp_id_vec(sid)));
            },
        }
    } else {
        match &t.kind {
            TokKind::StrLit(s) => RecId::S(s.clone()),
            _ => {
                return Err(crate::raw::unexpected(t, exp_id_vec(sid)));
            },
        }
    };
    if i + 1 >= n {
        return Err(crate::raw::eof_diag(toks, exp_vec_lcurly()));
    }
    proof {
        assert(toks_model(toks@)[i + 1] == toks@[i + 1]@);
    }
    if !matches!(&toks[i + 1].kind, TokKind::LCurly) {
        return Err(crate::raw::unexpected(&toks[i + 1], exp_vec_lcurly()));
    }
    match p_rec_fields(sid, toks, i + 2) {
        Ok((entries, j)) => {
            proof {
                assert(adv(i as int, j as int, toks@.len() as int) == j as int);
            }
            let rec = Rec { id, id_start: t.start, id_end: t.end, entries };
            match p_records(sid, toks, j) {
                Ok(mut rest) => {
                    let ghost r0 = rest@;
                    let ghost rm = rec_model(rec);
                    rest.insert(0, rec);
                    proof {
                        assert(rest@ =~= seq![rest@[0]] + r0);
                        lemma_recs_model_cons(rest@[0], r0);
                        lemma_mrecs_wf_cons(sid, rm, recs_model(r0));
                    }
                    Ok(rest)
                },
                Err(d) => Err(d),
            }
        },
        Err(d) => Err(d),
    }
}

fn exp_vec_lcurly() -> (r: Vec<String>)
    ensures
        r.deep_view() =~= exp_lcurly2(),
{
    let mut v: Vec<String> = Vec::new();
    v.push(String::from_str("'{'"));
    proof {
        assert(v.deep_view() =~= exp_lcurly2());
    }
    v
}

/// Lexes and parses one section body into its records.
pub fn parse_section_records(sid: SchemaId, input: &str) -> (r: Result<Vec<Rec>, Diagnostic>)
    requires
        input@.len() < usize::MAX,
    ensures
        match (r, spec_section_records(sid, input@)) {
            (Ok(rs), Ok(mrs)) => recs_model(rs@) == mrs && mrecs_wf(sid, mrs),
            (Err(d), Err(md)) => d@ == md,
            _ => false,
        },
{
    match crate::lexer::lex(input) {
        Ok(toks) => p_records(sid, &toks, 0),
        Err(d) => Err(d),
    }
}

/// The records a section body denotes, or its first diagnostic.
pub open spec fn spec_section_records(sid: SchemaId, s: Seq<char>) -> Result<Seq<MRec>, MDiag> {
    match crate::lexer::spec_lex(s) {
        Ok(mtoks) => spec_records(sid, mtoks, 0),
        Err(off) => Err(crate::diag::m_lexical(off)),
    }
}

/// The value of the last occurrence of a slot in a record's entries:
/// duplicate field keywords inside one record resolve to their last
/// occurrence.
pub open spec fn last_entry(es: Seq<(u32, MTypedValue)>, fid: u32) -> Option<MTypedValue>
    decreases es,
{
    if es.len() == 0 {
        None
    } else if es.last().0 == fid {
        Some(es.last().1)
    } else {
        last_entry(es.drop_last(), fid)
    }
}

/// Extending the entries updates exactly the written slot.
pub proof fn lemma_last_entry_push(es: Seq<(u32, MTypedValue)>, e: (u32, MTypedValue), fid: u32)
    ensures
        last_entry(es.push(e), fid) == if e.0 == fid {
            Some(e.1)
        } else {
            last_entry(es, fid)
        },
{
    assert(es.push(e).last() == e);
    assert(es.push(e).drop_last() =~= es);
}

pub open spec fn last_str(es: Seq<(u32, MTypedValue)>, fid: u32, d: Seq<char>) -> Seq<char> {
    match last_entry(es, fid) {
        Some(MTypedValue::TStr(s)) => s,
        _ => d,
    }
}

pub open spec fn last_str_opt(es: Seq<(u32, MTypedValue)>, fid: u32) -> Option<Seq<char>> {
    match last_entry(es, fid) {
        Some(MTypedValue::TStr(s)) => Some(s),
        _ => None,
    }
}

pub open spec fn last_bool(es: Seq<(u32, MTypedValue)>, fid: u32, d: bool) -> bool {
    match last_entry(es, fid) {
        Some(MTypedValue::TBool(b)) => b,
        _ => d,
    }
}

pub open spec fn last_u8(es: Seq<(u32, MTypedValue)>, fid: u32, d: u8) -> u8 {
    match last_entry(es, fid) {
        Some(MTypedValue::TU8(x)) => x,
        _ => d,
    }
}

pub open spec fn last_u8_opt(es: Seq<(u32, MTypedValue)>, fid: u32) -> Option<u8> {
    match last_entry(es, fid) {
        Some(MTypedValue::TU8(x)) => Some(x),
        _ => None,
    }
}

pub open spec fn last_u16(es: Seq<(u32, MTypedValue)>, fid: u32, d: u16) -> u16 {
    match last_entry(es, fid) {
        Some(MTypedValue::TU16(x)) => x,
        _ => d,
    }
}

pub open spec fn last_u64(es: Seq<(u32, MTypedValue)>, fid: u32, d: u64) -> u64 {
    match last_entry(es, fid) {
        Some(MTypedValue::TU64(x)) => x,
        _ => d,
    }
}

pub open spec fn last_dec(
    es: Seq<(u32, MTypedValue)>,
    fid: u32,
    d: crate::decimal::Decimal,
) -> crate::decimal::Decimal {
    match last_entry(es, fid) {
        Some(MTypedValue::TDec(x)) => x,
        _ => d,
    }
}

pub open spec fn last_temp(es: Seq<(u32, MTypedValue)>, fid: u32) -> crate::common::Temperature {
    match last_entry(es, fid) {
        Some(MTypedValue::TTemp(t)) => t,
        _ => crate::common::Temperature { kelvin_exact: crate::decimal::Decimal { mant: 0, scale: 0 } },
    }
}

pub open spec fn last_goods(es: Seq<(u32, MTypedValue)>, fid: u32) -> Seq<
    crate::common::MGoodConsumes,
> {
    match last_entry(es, fid) {
        Some(MTypedValue::TGoods(v)) => v,
        _ => Seq::empty(),
    }
}

pub open spec fn last_cgoods(es: Seq<(u32, MTypedValue)>, fid: u32) -> Seq<
    crate::building::MCustomGood,
> {
    match last_entry(es, fid) {
        Some(MTypedValue::TCGoods(v)) => v,
        _ => Seq::empty(),
    }
}

pub open spec fn last_abunds(es: Seq<(u32, MTypedValue)>, fid: u32) -> Seq<
    crate::common::MGoodAbundance,
> {
    match last_entry(es, fid) {
        Some(MTypedValue::TAbunds(v)) => v,
        _ => Seq::empty(),
    }
}

pub open spec fn last_stations(es: Seq<(u32, MTypedValue)>, fid: u32) -> Seq<
    crate::building::MStation,
> {
    match last_entry(es, fid) {
        Some(MTypedValue::TStations(v)) => v,
        _ => Seq::empty(),
    }
}

pub open spec fn last_filters(es: Seq<(u32, MTypedValue)>, fid: u32) -> Seq<
    crate::building::MPlanetFilter,
> {
    match last_entry(es, fid) {
        Some(MTypedValue::TFilters(v)) => v,
        _ => Seq::empty(),
    }
}

pub open spec fn last_aug_effects(es: Seq<(u32, MTypedValue)>, fid: u32) -> Seq<
    crate::augmentations::MEffect,
> {
    match last_entry(es, fid) {
        Some(MTypedValue::TAugEffects(v)) => v,
        _ => Seq::empty(),
    }
}

pub open spec fn last_trait_effects(es: Seq<(u32, MTypedValue)>, fid: u32) -> Seq<
    crate::species_trait::Effect,
> {
    match last_entry(es, fid) {
        Some(MTypedValue::TTraitEffects(v)) => v,
        _ => Seq::empty(),
    }
}

pub open spec fn last_good_type(es: Seq<(u32, MTypedValue)>, fid: u32) -> crate::goods::GoodType {
    match last_entry(es, fid) {
        Some(MTypedValue::TGoodType(g)) => g,
        _ => crate::goods::GoodType::Public,
    }
}

pub open spec fn last_cons(es: Seq<(u32, MTypedValue)>, fid: u32) -> crate::goods::ConsumptionType {
    match last_entry(es, fid) {
        Some(MTypedValue::TCons(c)) => c,
        _ => crate::goods::ConsumptionType::NotConsumed,
    }
}

pub open spec fn last_pclass(es: Seq<(u32, MTypedValue)>, fid: u32) -> crate::planet_types::PlanetClass {
    match last_entry(es, fid) {
        Some(MTypedValue::TPClass(c)) => c,
        _ => crate::planet_types::PlanetClass::Rocky,
    }
}

pub open spec fn last_sclass(es: Seq<(u32, MTypedValue)>, fid: u32) -> crate::ship::ShipClass {
    match last_entry(es, fid) {
        Some(MTypedValue::TSClass(c)) => c,
        _ => crate::ship::ShipClass::Survey,
    }
}

pub open spec fn last_blimit(es: Seq<(u32, MTypedValue)>, fid: u32) -> crate::designation::BuildingLimit {
    match last_entry(es, fid) {
        Some(MTypedValue::TBLimit(b)) => b,
        _ => crate::designation::BuildingLimit::Unlimited,
    }
}

pub open spec fn last_housing(es: Seq<(u32, MTypedValue)>, fid: u32) -> crate::designation::Housing {
    match last_entry(es, fid) {
        Some(MTypedValue::THousing(h)) => h,
        _ => crate::designation::Housing::Managed,
    }
}

pub open spec fn last_pbuild(es: Seq<(u32, MTypedValue)>, fid: u32) -> crate::designation::PrivateBuildings {
    match last_entry(es, fid) {
        Some(MTypedValue::TPBuild(p)) => p,
        _ => crate::designation::PrivateBuildings::Never,
    }
}

pub open spec fn last_popimp(es: Seq<(u32, MTypedValue)>, fid: u32) -> crate::designation::PopulationImpact {
    match last_entry(es, fid) {
        Some(MTypedValue::TPopImp(p)) => p,
        _ => crate::designation::PopulationImpact {
            growth: crate::decimal::Decimal { mant: 0, scale: 0 },
            min_population: 0,
        },
    }
}

pub open spec fn last_impact(es: Seq<(u32, MTypedValue)>, fid: u32) -> (
    crate::decimal::Decimal,
    crate::decimal::Decimal,
) {
    match last_entry(es, fid) {
        Some(MTypedValue::TImpact(a, r)) => (a, r),
        _ => (crate::decimal::Decimal { mant: 0, scale: 0 }, crate::decimal::Decimal {
            mant: 0,
            scale: 0,
        }),
    }
}

pub open spec fn last_star(es: Seq<(u32, MTypedValue)>, fid: u32) -> crate::stellar_system::MStarData {
    match last_entry(es, fid) {
        Some(MTypedValue::TStar(s)) => s,
        _ => crate::stellar_system::star_default(),
    }
}

pub open spec fn last_planets(es: Seq<(u32, MTypedValue)>, fid: u32) -> Seq<
    crate::stellar_system::MPlanetData,
> {
    match last_entry(es, fid) {
        Some(MTypedValue::TPlanets(v)) => v,
        _ => Seq::empty(),
    }
}

/// Whether the slot was written at all (for the asteroid-belt object of a
/// stellar system, which exists only when the field was given).
pub open spec fn has_entry(es: Seq<(u32, MTypedValue)>, fid: u32) -> bool {
    last_entry(es, fid) is Some
}

pub open spec fn last_branch_seq(es: Seq<(u32, MTypedValue)>, fid: u32) -> Seq<
    crate::planet_types::MBranch,
> {
    match last_entry(es, fid) {
        Some(MTypedValue::TBranch(b)) => seq![b],
        _ => Seq::empty(),
    }
}

pub open spec fn last_branches(es: Seq<(u32, MTypedValue)>, fid: u32) -> Seq<
    crate::planet_types::MBranch,
> {
    match last_entry(es, fid) {
        Some(MTypedValue::TBranches(bs)) => bs,
        _ => Seq::empty(),
    }
}

/// Last-write-wins: when position `k` holds the last occurrence of a
/// slot, the record's field takes exactly that occurrence's value, so
/// `{name="A" name="B"}` yields the second write.
pub proof fn lemma_last_write_wins(es: Seq<(u32, MTypedValue)>, fid: u32, k: int)
    requires
        0 <= k < es.len(),
        es[k].0 == fid,
        forall|l: int| k < l < es.len() ==> (#[trigger] es[l]).0 != fid,
    ensures
        last_entry(es, fid) == Some(es[k].1),
    decreases es.len(),
{
    if k == es.len() - 1 {
        assert(es.last() == es[k]);
    } else {
        assert(es.last().0 != fid);
        assert(es.drop_last()[k] == es[k]);
        lemma_last_write_wins(es.drop_last(), fid, k);
    }
}

/// No slot is written twice.
pub open spec fn distinct_slots(es: Seq<(u32, MTypedValue)>) -> bool {
    forall|j: int, k: int|
        0 <= j < k < es.len() ==> (#[trigger] es[j]).0 != (#[trigger] es[k]).0
}

proof fn lemma_last_entry_contains(es: Seq<(u32, MTypedValue)>, fid: u32)
    ensures
        match last_entry(es, fid) {
            Some(v) => es.contains((fid, v)),
            None => forall|v: MTypedValue| !es.contains((fid, v)),
        },
    decreases es.len(),
{
    if es.len() > 0 {
        lemma_last_entry_contains(es.drop_last(), fid);
        if es.last().0 == fid {
            assert(es[es.len() - 1] == (fid, es.last().1));
        } else {
            match last_entry(es.drop_last(), fid) {
                Some(v) => {
                    let i = choose|i: int|
                        0 <= i < es.drop_last().len() && es.drop_last()[i] == (fid, v);
                    assert(es[i] == (fid, v));
                },
                None => {
                    assert forall|v: MTypedValue| !es.contains((fid, v)) by {
                        if es.contains((fid, v)) {
                            let i = choose|i: int| 0 <= i < es.len() && es[i] == (fid, v);
                            if i < es.len() - 1 {
                                assert(es.drop_last()[i] == (fid, v));
                                assert(es.drop_last().contains((fid, v)));
                            } else {
                                assert(es.last() == (fid, v));
                            }
                            assert(false);
                        }
                    }
                },
            }
        }
    }
}

/// Field order independence: two records that write the same set of
/// slot/value pairs, each slot once, resolve every slot to the same value,
/// whatever the order of the fields; `{a=1 b=2}` and `{b=2 a=1}` denote
/// identical records.
pub proof fn lemma_field_order_independence(
    es1: Seq<(u32, MTypedValue)>,
    es2: Seq<(u32, MTypedValue)>,
    fid: u32,
)
    requires
        distinct_slots(es1),
        distinct_slots(es2),
        es1.to_multiset() == es2.to_multiset(),
    ensures
        last_entry(es1, fid) == last_entry(es2, fid),
{
    broadcast use vstd::seq_lib::group_to_multiset_ensures;

    lemma_last_entry_contains(es1, fid);
    lemma_last_entry_contains(es2, fid);
    match last_entry(es1, fid) {
        Some(v) => {
            assert(es1.contains((fid, v)));
            assert(es1.to_multiset().count((fid, v)) > 0);
            assert(es2.contains((fid, v)));
            match last_entry(es2, fid) {
                Some(w) => {
                    if v != w {
                        let i = choose|i: int| 0 <= i < es2.len() && es2[i] == (fid, v);
                        let j = choose|j: int| 0 <= j < es2.len() && es2[j] == (fid, w);
                        assert(es2[i].0 == es2[j].0);
                        assert(false);
                    }
                },
                None => {
                    assert(!es2.contains((fid, v)));
                    assert(false);
                },
            }
        },
        None => {
            match last_entry(es2, fid) {
                Some(w) => {
                    assert(es2.contains((fid, w)));
                    assert(es2.to_multiset().count((fid, w)) > 0);
                    assert(es1.contains((fid, w)));
                    assert(false);
                },
                None => {},
            }
        },
    }
}

} // verus!

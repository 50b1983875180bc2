//! The rule sub-language of the planet-types schema.
//!
//! ```text
//! branch     := if_clause+ else_clause?
//! if_clause  := "if" '(' condition ('&' condition)* ')' '{' action* '}'
//! else_clause:= "else" '{' action* '}'
//! condition  := CMP '(' value ','? value ')'        CMP in EQ NE GT GE LT LE
//! value      := decimal | integer | string | accessor
//!             | "goods_base" '(' string ')' | "stored" '(' string ')'
//! action     := "set_asset" '(' string ')' | "set_planet_type" '(' string ')'
//!             | "stored" '(' string ','? string ')'
//!             | "rand_of_string" '(' string ','? '[' string* ']' ')'
//!             | branch
//! ```
//!
//! The parser only records which accessor or stored variable a value
//! refers to; resolution happens downstream.  [`selected_clause`] states
//! and proves the evaluation-order contract: clauses are tried top to
//! bottom, the first whose conjoined conditions all hold wins and
//! short-circuits the rest including the fallback; with no match the
//! fallback applies if present, else the branch is a no-op.

use vstd::prelude::*;

use crate::common::Temperature;
use crate::decimal::Decimal;
use crate::diag::{Diagnostic, MDiag};
use crate::lexer::{mtok_wf, mtoks_wf, toks_model, MTok, MTokKind, Tok, TokKind};
use crate::planet_types::{
    action_model, actions_model, branch_model, clause_model, clauses_model, Action, Branch,
    Condition, IfCondition, MAction, MBranch, MCondition, MIfCondition, MValue, Value,
};
use crate::raw::{adv, eof_at, m_eof, m_unexpected};
use crate::text::string_is;

verus! {

pub open spec fn exp_if() -> Seq<Seq<char>> {
    seq!["'if'"@]
}

pub open spec fn exp_cmp() -> Seq<Seq<char>> {
    seq!["EQ"@, "NE"@, "GT"@, "GE"@, "LT"@, "LE"@]
}

pub open spec fn exp_rvalue() -> Seq<Seq<char>> {
    seq!["decimal"@, "integer"@, "string"@, "accessor"@, "goods_base"@, "stored"@]
}

pub open spec fn exp_action() -> Seq<Seq<char>> {
    seq!["set_asset"@, "set_planet_type"@, "stored"@, "rand_of_string"@, "'if'"@, "'}'"@]
}

pub open spec fn exp_lparen() -> Seq<Seq<char>> {
    seq!["'('"@]
}

pub open spec fn exp_rparen() -> Seq<Seq<char>> {
    seq!["')'"@]
}

pub open spec fn exp_lcurly() -> Seq<Seq<char>> {
    seq!["'{'"@]
}

pub open spec fn exp_string() -> Seq<Seq<char>> {
    seq!["string"@]
}

pub open spec fn exp_str_item() -> Seq<Seq<char>> {
    seq!["string"@, "']'"@]
}

pub open spec fn exp_lsquare() -> Seq<Seq<char>> {
    seq!["'['"@]
}

/// Parses one rule value at token `i`.
pub open spec fn spec_rvalue(toks: Seq<MTok>, i: int) -> Result<(MValue, int), MDiag>
    decreases toks.len() - i, 0int,
{
    if i < 0 || i >= toks.len() {
        Err(m_eof(eof_at(toks), exp_rvalue()))
    } else {
        let t = toks[i];
        match t.kind {
            MTokKind::DecLit(d) => Ok((MValue::Decimal(d), i + 1)),
            MTokKind::IntLit(x) => Ok((MValue::Decimal(Decimal { mant: x as i128, scale: 0 }), i + 1)),
            MTokKind::StrLit(s) => Ok((MValue::String(s), i + 1)),
            MTokKind::Ident(w) => {
                if w == "oxygen_level"@ {
                    Ok((MValue::OxygenLevel, i + 1))
                } else if w == "temperature_celsius"@ {
                    Ok((MValue::TemperatureCelsius, i + 1))
                } else if w == "temperature_kelvin"@ {
                    Ok((MValue::TemperatureKelvin, i + 1))
                } else if w == "water_level"@ {
                    Ok((MValue::WaterLevel, i + 1))
                } else if w == "magnetosphere"@ {
                    Ok((MValue::Magnetosphere, i + 1))
                } else if w == "atmosphere"@ {
                    Ok((MValue::Atmosphere, i + 1))
                } else if w == "star_type"@ {
                    Ok((MValue::StarType, i + 1))
                } else if w == "goods_base"@ {
                    match spec_paren_str(toks, i + 1) {
                        Ok((s, j)) => Ok((MValue::GoodsAbundance(s), j)),
                        Err(d) => Err(d),
                    }
                } else if w == "stored"@ {
                    match spec_paren_str(toks, i + 1) {
                        Ok((s, j)) => Ok((MValue::StringLookup(s), j)),
                        Err(d) => Err(d),
                    }
                } else {
                    Err(m_unexpected(t, exp_rvalue()))
                }
            },
            _ => Err(m_unexpected(t, exp_rvalue())),
        }
    }
}

/// Parses `'(' string ')'` starting at the parenthesis.
pub open spec fn spec_paren_str(toks: Seq<MTok>, i: int) -> Result<(Seq<char>, int), MDiag>
    decreases toks.len() - i, 0int,
{
    if i < 0 || i + 2 >= toks.len() {
        Err(m_eof(eof_at(toks), exp_lparen()))
    } else if !(toks[i].kind is LParen) {
        Err(m_unexpected(toks[i], exp_lparen()))
    } else {
        match toks[i + 1].kind {
            MTokKind::StrLit(s) => {
                if toks[i + 2].kind is RParen {
                    Ok((s, i + 3))
                } else {
                    Err(m_unexpected(toks[i + 2], exp_rparen()))
                }
            },
            _ => Err(m_unexpected(toks[i + 1], exp_string())),
        }
    }
}

/// The comparator a condition applies, from its keyword.
pub open spec fn cmp_of(w: Seq<char>) -> Option<int> {
    if w == "EQ"@ {
        Some(0int)
    } else if w == "NE"@ {
        Some(1int)
    } else if w == "GT"@ {
        Some(2int)
    } else if w == "GE"@ {
        Some(3int)
    } else if w == "LT"@ {
        Some(4int)
    } else if w == "LE"@ {
        Some(5int)
    } else {
        None
    }
}

pub open spec fn make_cond(cmp: int, a: MValue, b: MValue) -> MCondition {
    if cmp == 0 {
        MCondition::Eq(a, b)
    } else if cmp == 1 {
        MCondition::Ne(a, b)
    } else if cmp == 2 {
        MCondition::Gt(a, b)
    } else if cmp == 3 {
        MCondition::Ge(a, b)
    } else if cmp == 4 {
        MCondition::Lt(a, b)
    } else {
        MCondition::Le(a, b)
    }
}

/// Parses one condition `CMP ( value ,? value )` at token `i`.
pub open spec fn spec_cond(toks: Seq<MTok>, i: int) -> Result<(MCondition, int), MDiag>
    decreases toks.len() - i, 1int,
{
    let n = toks.len() as int;
    if i < 0 || i >= n {
        Err(m_eof(eof_at(toks), exp_cmp()))
    } else {
        let t = toks[i];
        match t.kind {
            MTokKind::Ident(w) => match cmp_of(w) {
                Some(cmp) => {
                    if i + 1 >= n {
                        Err(m_eof(eof_at(toks), exp_lparen()))
                    } else if !(toks[i + 1].kind is LParen) {
                        Err(m_unexpected(toks[i + 1], exp_lparen()))
                    } else {
                        match spec_rvalue(toks, i + 2) {
                            Ok((a, j0)) => {
                                let j = adv(i + 2, j0, n);
                                let j1 = if j < n && (toks[j].kind is Comma || toks[j].kind
                                    is Colon) {
                                    j + 1
                                } else {
                                    j
                                };
                                match spec_rvalue(toks, j1) {
                                    Ok((b, k0)) => {
                                        let k = adv(j1, k0, n);
                                        if k < n && toks[k].kind is RParen {
                                            Ok((make_cond(cmp, a, b), k + 1))
                                        } else if k < n {
                                            Err(m_unexpected(toks[k], exp_rparen()))
                                        } else {
                                            Err(m_eof(eof_at(toks), exp_rparen()))
                                        }
                    },
                                    Err(d) => Err(d),
                                }
                            },
                            Err(d) => Err(d),
                        }
                    }
                },
                None => Err(m_unexpected(t, exp_cmp())),
            },
            _ => Err(m_unexpected(t, exp_cmp())),
        }
    }
}

/// Parses `condition ('&' condition)*` at token `i`.
pub open spec fn spec_conds(toks: Seq<MTok>, i: int) -> Result<(Seq<MCondition>, int), MDiag>
    decreases toks.len() - i, 2int,
{
    let n = toks.len() as int;
    if i < 0 || i >= n {
        Err(m_eof(eof_at(toks), exp_cmp()))
    } else {
        match spec_cond(toks, i) {
            Ok((c, j0)) => {
                let j = adv(i, j0, n);
                if j < n && toks[j].kind is Amp {
                    match spec_conds(toks, j + 1) {
                        Ok((rest, k)) => Ok((seq![c] + rest, k)),
                        Err(d) => Err(d),
                    }
                } else {
                    Ok((seq![c], j))
                }
            },
            Err(d) => Err(d),
        }
    }
}

/// Parses one action at token `i`.
pub open spec fn spec_action(toks: Seq<MTok>, i: int) -> Result<(MAction, int), MDiag>
    decreases toks.len() - i, 3int,
{
    let n = toks.len() as int;
    if i < 0 || i >= n {
        Err(m_eof(eof_at(toks), exp_action()))
    } else {
        let t = toks[i];
        match t.kind {
            MTokKind::Ident(w) => {
                if w == "if"@ {
                    match spec_branch(toks, i) {
                        Ok((b, j)) => Ok((MAction::Branch(b), j)),
                        Err(d) => Err(d),
                    }
                } else if w == "set_asset"@ {
                    match spec_paren_str(toks, i + 1) {
                        Ok((s, j)) => Ok((MAction::SetAsset(s), j)),
                        Err(d) => Err(d),
                    }
                } else if w == "set_planet_type"@ {
                    match spec_paren_str(toks, i + 1) {
                        Ok((s, j)) => Ok((MAction::SetPlanetType(s), j)),
                        Err(d) => Err(d),
                    }
                } else if w == "stored"@ {
                    match spec_stored_set(toks, i + 1) {
                        Ok((k, v, j)) => Ok((MAction::SetStored(k, v), j)),
                        Err(d) => Err(d),
                    }
                } else if w == "rand_of_string"@ {
                    match spec_rand_args(toks, i + 1) {
                        Ok((k, vs, j)) => Ok((MAction::SetStoredRandom(k, vs), j)),
                        Err(d) => Err(d),
                    }
                } else {
                    Err(m_unexpected(t, exp_action()))
                }
            },
            _ => Err(m_unexpected(t, exp_action())),
        }
    }
}

/// Parses `'(' string ','? string ')'` starting at the parenthesis.
pub open spec fn spec_stored_set(toks: Seq<MTok>, i: int) -> Result<
    (Seq<char>, Seq<char>, int),
    MDiag,
>
    decreases toks.len() - i, 0int,
{
    let n = toks.len() as int;
    if i < 0 || i >= n {
        Err(m_eof(eof_at(toks), exp_lparen()))
    } else if !(toks[i].kind is LParen) {
        Err(m_unexpected(toks[i], exp_lparen()))
    } else if i + 1 >= n {
        Err(m_eof(eof_at(toks), exp_string()))
    } else {
        match toks[i + 1].kind {
            MTokKind::StrLit(k) => {
                let j = if i + 2 < n && (toks[i + 2].kind is Comma || toks[i + 2].kind is Colon) {
                    i + 3
                } else {
                    i + 2
                };
                if j >= n {
                    Err(m_eof(eof_at(toks), exp_string()))
                } else {
                    match toks[j].kind {
                        MTokKind::StrLit(v) => {
                            if j + 1 < n && toks[j + 1].kind is RParen {
                                Ok((k, v, j + 2))
                            } else if j + 1 < n {
                                Err(m_unexpected(toks[j + 1], exp_rparen()))
                            } else {
                                Err(m_eof(eof_at(toks), exp_rparen()))
                            }
                        },
                        _ => Err(m_unexpected(toks[j], exp_string())),
                    }
                }
            },
            _ => Err(m_unexpected(toks[i + 1], exp_string())),
        }
    }
}

/// Parses `'(' string ','? '[' string* ']' ')'` starting at the
/// parenthesis.
pub open spec fn spec_rand_args(toks: Seq<MTok>, i: int) -> Result<
    (Seq<char>, Seq<Seq<char>>, int),
    MDiag,
>
    decreases toks.len() - i, 1int,
{
    let n = toks.len() as int;
    if i < 0 || i >= n {
        Err(m_eof(eof_at(toks), exp_lparen()))
    } else if !(toks[i].kind is LParen) {
        Err(m_unexpected(toks[i], exp_lparen()))
    } else if i + 1 >= n {
        Err(m_eof(eof_at(toks), exp_string()))
    } else {
        match toks[i + 1].kind {
            MTokKind::StrLit(k) => {
                let j = if i + 2 < n && (toks[i + 2].kind is Comma || toks[i + 2].kind is Colon) {
                    i + 3
                } else {
                    i + 2
                };
                if j >= n {
                    Err(m_eof(eof_at(toks), exp_lsquare()))
                } else if !(toks[j].kind is LSquare) {
                    Err(m_unexpected(toks[j], exp_lsquare()))
                } else {
                    match spec_str_items(toks, j + 1) {
                        Ok((vs, m)) => {
                            if m < n && toks[m].kind is RParen {
                                Ok((k, vs, m + 1))
                            } else if m < n {
                                Err(m_unexpected(toks[m], exp_rparen()))
                            } else {
                                Err(m_eof(eof_at(toks), exp_rparen()))
                            }
                        },
                        Err(d) => Err(d),
                    }
                }
            },
            _ => Err(m_unexpected(toks[i + 1], exp_string())),
        }
    }
}

/// Parses string-literal items up to `]`.
pub open spec fn spec_str_items(toks: Seq<MTok>, i: int) -> Result<(Seq<Seq<char>>, int), MDiag>
    decreases toks.len() - i, 0int,
{
    let n = toks.len() as int;
    if i < 0 || i >= n {
        Err(m_eof(eof_at(toks), exp_str_item()))
    } else {
        let t = toks[i];
        match t.kind {
            MTokKind::RSquare => Ok((Seq::empty(), i + 1)),
            MTokKind::Comma => spec_str_items(toks, i + 1),
            MTokKind::Colon => spec_str_items(toks, i + 1),
            MTokKind::StrLit(s) => match spec_str_items(toks, i + 1) {
                Ok((rest, j)) => Ok((seq![s] + rest, j)),
                Err(d) => Err(d),
            },
            _ => Err(m_unexpected(t, exp_str_item())),
        }
    }
}

/// Parses `action*` up to the closing `}` (consumed) at token `i`.
pub open spec fn spec_actions(toks: Seq<MTok>, i: int) -> Result<(Seq<MAction>, int), MDiag>
    decreases toks.len() - i, 4int,
{
    let n = toks.len() as int;
    if i < 0 || i >= n {
        Err(m_eof(eof_at(toks), exp_action()))
    } else if toks[i].kind is RCurly {
        Ok((Seq::empty(), i + 1))
    } else {
        match spec_action(toks, i) {
            Ok((a, j0)) => {
                let j = adv(i, j0, n);
                match spec_actions(toks, j) {
                    Ok((rest, k)) => Ok((seq![a] + rest, k)),
                    Err(d) => Err(d),
                }
            },
            Err(d) => Err(d),
        }
    }
}

/// Parses one `if (conds) { actions }` clause at token `i`.
pub open spec fn spec_if_clause(toks: Seq<MTok>, i: int) -> Result<(MIfCondition, int), MDiag>
    decreases toks.len() - i, 0int,
{
    let n = toks.len() as int;
    if i < 0 || i >= n {
        Err(m_eof(eof_at(toks), exp_if()))
    } else {
        let ok_if = match toks[i].kind {
            MTokKind::Ident(w) => w == "if"@,
            _ => false,
        };
        if !ok_if {
            Err(m_unexpected(toks[i], exp_if()))
        } else if i + 1 >= n {
            Err(m_eof(eof_at(toks), exp_lparen()))
        } else if !(toks[i + 1].kind is LParen) {
            Err(m_unexpected(toks[i + 1], exp_lparen()))
        } else {
            match spec_conds(toks, i + 2) {
                Ok((cs, j0)) => {
                    let j = adv(i + 2, j0, n);
                    if j >= n {
                        Err(m_eof(eof_at(toks), exp_rparen()))
                    } else if !(toks[j].kind is RParen) {
                        Err(m_unexpected(toks[j], exp_rparen()))
                    } else if j + 1 >= n {
                        Err(m_eof(eof_at(toks), exp_lcurly()))
                    } else if !(toks[j + 1].kind is LCurly) {
                        Err(m_unexpected(toks[j + 1], exp_lcurly()))
                    } else {
                        match spec_actions(toks, j + 2) {
                            Ok((acts, k)) => Ok(
                                (MIfCondition { conditions: cs, actions: acts }, k),
                            ),
                            Err(d) => Err(d),
                        }
                    }
                },
                Err(d) => Err(d),
            }
        }
    }
}

/// Parses `if_clause+` at token `i`.
pub open spec fn spec_if_list(toks: Seq<MTok>, i: int) -> Result<(Seq<MIfCondition>, int), MDiag>
    decreases toks.len() - i, 1int,
{
    let n = toks.len() as int;
    match spec_if_clause(toks, i) {
        Ok((c, j0)) => {
            let j = adv(i, j0, n);
            let more = j < n && match toks[j].kind {
                MTokKind::Ident(w) => w == "if"@,
                _ => false,
            };
            if more {
                match spec_if_list(toks, j) {
                    Ok((rest, k)) => Ok((seq![c] + rest, k)),
                    Err(d) => Err(d),
                }
            } else {
                Ok((seq![c], j))
            }
        },
        Err(d) => Err(d),
    }
}

/// Parses a whole branch at token `i`.
pub open spec fn spec_branch(toks: Seq<MTok>, i: int) -> Result<(MBranch, int), MDiag>
    decreases toks.len() - i, 2int,
{
    let n = toks.len() as int;
    match spec_if_list(toks, i) {
        Ok((cs, j0)) => {
            let j = adv(i, j0, n);
            let has_else = j < n && match toks[j].kind {
                MTokKind::Ident(w) => w == "else"@,
                _ => false,
            };
            if has_else {
                if j + 1 >= n {
                    Err(m_eof(eof_at(toks), exp_lcurly()))
                } else if !(toks[j + 1].kind is LCurly) {
                    Err(m_unexpected(toks[j + 1], exp_lcurly()))
                } else {
                    match spec_actions(toks, j + 2) {
                        Ok((acts, k)) => Ok(
                            (MBranch { if_conditions: cs, else_actions: acts }, k),
                        ),
                        Err(d) => Err(d),
                    }
                }
            } else {
                Ok((MBranch { if_conditions: cs, else_actions: Seq::empty() }, j))
            }
        },
        Err(d) => Err(d),
    }
}

/// Parses `'[' ('{' branch '}')* ']'` at token `i` (after the field's
/// `=`): the branch list of an `on_terraform` clause.
pub open spec fn spec_branch_list(toks: Seq<MTok>, i: int) -> Result<(Seq<MBranch>, int), MDiag>
    decreases toks.len() - i, 3int,
{
    let n = toks.len() as int;
    if i < 0 || i >= n {
        Err(m_eof(eof_at(toks), exp_lsquare()))
    } else if !(toks[i].kind is LSquare) {
        Err(m_unexpected(toks[i], exp_lsquare()))
    } else {
        spec_branch_items(toks, i + 1)
    }
}

pub open spec fn spec_branch_items(toks: Seq<MTok>, i: int) -> Result<(Seq<MBranch>, int), MDiag>
    decreases toks.len() - i, 4int,
{
    let n = toks.len() as int;
    if i < 0 || i >= n {
        Err(m_eof(eof_at(toks), seq!["'{'"@, "']'"@]))
    } else if toks[i].kind is RSquare {
        Ok((Seq::empty(), i + 1))
    } else if toks[i].kind is Comma || toks[i].kind is Colon {
        spec_branch_items(toks, i + 1)
    } else if !(toks[i].kind is LCurly) {
        Err(m_unexpected(toks[i], seq!["'{'"@, "']'"@]))
    } else {
        match spec_branch(toks, i + 1) {
            Ok((b, j0)) => {
                let j = adv(i + 1, j0, n);
                if j >= n {
                    Err(m_eof(eof_at(toks), seq!["'}'"@]))
                } else if !(toks[j].kind is RCurly) {
                    Err(m_unexpected(toks[j], seq!["'}'"@]))
                } else {
                    match spec_branch_items(toks, j + 1) {
                        Ok((rest, k)) => Ok((seq![b] + rest, k)),
                        Err(d) => Err(d),
                    }
                }
            },
            Err(d) => Err(d),
        }
    }
}

/// Every decimal literal in a rule value is within the lexer's bounds.
pub open spec fn value_wf(v: MValue) -> bool {
    match v {
        MValue::Decimal(d) => d.wf(),
        _ => true,
    }
}

pub open spec fn cond_wf(c: MCondition) -> bool {
    match c {
        MCondition::Eq(a, b) => value_wf(a) && value_wf(b),
        MCondition::Ne(a, b) => value_wf(a) && value_wf(b),
        MCondition::Gt(a, b) => value_wf(a) && value_wf(b),
        MCondition::Ge(a, b) => value_wf(a) && value_wf(b),
        MCondition::Lt(a, b) => value_wf(a) && value_wf(b),
        MCondition::Le(a, b) => value_wf(a) && value_wf(b),
    }
}

pub open spec fn conds_wf(s: Seq<MCondition>) -> bool {
    forall|j: int| 0 <= j < s.len() ==> cond_wf(#[trigger] s[j])
}

pub open spec fn action_wf(a: MAction) -> bool
    decreases a,
{
    match a {
        MAction::Branch(b) => mbranch_wf(b),
        _ => true,
    }
}

pub open spec fn actions_wf(s: Seq<MAction>) -> bool
    decreases s,
{
    if s.len() == 0 {
        true
    } else {
        action_wf(s[0]) && actions_wf(s.drop_first())
    }
}

pub open spec fn clause_wf(c: MIfCondition) -> bool
    decreases c,
{
    conds_wf(c.conditions) && actions_wf(c.actions)
}

pub open spec fn clauses_wf(s: Seq<MIfCondition>) -> bool
    decreases s,
{
    if s.len() == 0 {
        true
    } else {
        clause_wf(s[0]) && clauses_wf(s.drop_first())
    }
}

pub open spec fn mbranch_wf(b: MBranch) -> bool
    decreases b,
{
    clauses_wf(b.if_conditions) && actions_wf(b.else_actions)
}

pub open spec fn branches_wf(s: Seq<MBranch>) -> bool
    decreases s,
{
    if s.len() == 0 {
        true
    } else {
        mbranch_wf(s[0]) && branches_wf(s.drop_first())
    }
}

proof fn lemma_actions_model_cons(a: Action, rest: Seq<Action>)
    ensures
        actions_model(seq![a] + rest) == seq![action_model(a)] + actions_model(rest),
{
    assert((seq![a] + rest)[0] == a);
    assert((seq![a] + rest).drop_first() =~= rest);
}

proof fn lemma_clauses_model_cons(c: IfCondition, rest: Seq<IfCondition>)
    ensures
        clauses_model(seq![c] + rest) == seq![clause_model(c)] + clauses_model(rest),
{
    assert((seq![c] + rest)[0] == c);
    assert((seq![c] + rest).drop_first() =~= rest);
}

proof fn lemma_branches_model_cons(b: Branch, rest: Seq<Branch>)
    ensures
        crate::planet_types::branches_model(seq![b] + rest) == seq![branch_model(b)]
            + crate::planet_types::branches_model(rest),
{
    assert((seq![b] + rest)[0] == b);
    assert((seq![b] + rest).drop_first() =~= rest);
}

proof fn lemma_actions_wf_cons(a: MAction, rest: Seq<MAction>)
    ensures
        actions_wf(seq![a] + rest) == (action_wf(a) && actions_wf(rest)),
{
    assert((seq![a] + rest)[0] == a);
    assert((seq![a] + rest).drop_first() =~= rest);
}

proof fn lemma_clauses_wf_cons(c: MIfCondition, rest: Seq<MIfCondition>)
    ensures
        clauses_wf(seq![c] + rest) == (clause_wf(c) && clauses_wf(rest)),
{
    assert((seq![c] + rest)[0] == c);
    assert((seq![c] + rest).drop_first() =~= rest);
}

proof fn lemma_branches_wf_cons(b: MBranch, rest: Seq<MBranch>)
    ensures
        branches_wf(seq![b] + rest) == (mbranch_wf(b) && branches_wf(rest)),
{
    assert((seq![b] + rest)[0] == b);
    assert((seq![b] + rest).drop_first() =~= rest);
}

fn exp_vec1(a: &str) -> (r: Vec<String>)
    ensures
        r.deep_view() =~= seq![a@],
{
    let mut v: Vec<String> = Vec::new();
    v.push(String::from_str(a));
    proof {
        assert(v.deep_view() =~= seq![a@]);
    }
    v
}

fn exp_vec2(a: &str, b: &str) -> (r: Vec<String>)
    ensures
        r.deep_view() =~= seq![a@, b@],
{
    let mut v: Vec<String> = Vec::new();
    v.push(String::from_str(a));
    v.push(String::from_str(b));
    proof {
        assert(v.deep_view() =~= seq![a@, b@]);
    }
    v
}

fn exp_cmp_vec() -> (r: Vec<String>)
    ensures
        r.deep_view() =~= exp_cmp(),
{
    let mut v: Vec<String> = Vec::new();
    v.push(String::from_str("EQ"));
    v.push(String::from_str("NE"));
    v.push(String::from_str("GT"));
    v.push(String::from_str("GE"));
    v.push(String::from_str("LT"));
    v.push(String::from_str("LE"));
    proof {
        assert(v.deep_view() =~= exp_cmp());
    }
    v
}

fn exp_rvalue_vec() -> (r: Vec<String>)
    ensures
        r.deep_view() =~= exp_rvalue(),
{
    let mut v: Vec<String> = Vec::new();
    v.push(String::from_str("decimal"));
    v.push(String::from_str("integer"));
    v.push(String::from_str("string"));
    v.push(String::from_str("accessor"));
    v.push(String::from_str("goods_base"));
    v.push(String::from_str("stored"));
    proof {
        assert(v.deep_view() =~= exp_rvalue());
    }
    v
}

fn exp_action_vec() -> (r: Vec<String>)
    ensures
        r.deep_view() =~= exp_action(),
{
    let mut v: Vec<String> = Vec::new();
    v.push(String::from_str("set_asset"));
    v.push(String::from_str("set_planet_type"));
    v.push(String::from_str("stored"));
    v.push(String::from_str("rand_of_string"));
    v.push(String::from_str("'if'"));
    v.push(String::from_str("'}'"));
    proof {
        assert(v.deep_view() =~= exp_action());
    }
    v
}

/// Parses `'(' string ')'` at the parenthesis, mirroring
/// [`spec_paren_str`].
fn p_paren_str(toks: &Vec<Tok>, i: usize) -> (r: Result<(String, usize), Diagnostic>)
    requires
        i <= toks@.len(),
    ensures
        match (r, spec_paren_str(toks_model(toks@), i as int)) {
            (Ok((s, j)), Ok((ms, mj))) => s@ == ms && j as int == mj && i < j && j <= toks@.len(),
            (Err(d), Err(md)) => d@ == md,
            _ => false,
        },
{
    let n = toks.len();
    proof {
        if (i as int) < toks@.len() {
            assert(toks_model(toks@)[i as int] == toks@[i as int]@);
        }
        if i + 1 < toks@.len() {
            assert(toks_model(toks@)[i + 1] == toks@[i + 1]@);
        }
        if i + 2 < toks@.len() {
            assert(toks_model(toks@)[i + 2] == toks@[i + 2]@);
        }
    }
    if i >= n {
        return Err(crate::raw::eof_diag(toks, exp_vec1("'('")));
    }
    if i + 1 >= n {
        return Err(crate::raw::eof_diag(toks, exp_vec1("'('")));
    }
    if i + 2 >= n {
        return Err(crate::raw::eof_diag(toks, exp_vec1("'('")));
    }
    if !matches!(&toks[i].kind, TokKind::LParen) {
        return Err(crate::raw::unexpected(&toks[i], exp_vec1("'('")));
    }
    match &toks[i + 1].kind {
        TokKind::StrLit(s) => {
            if matches!(&toks[i + 2].kind, TokKind::RParen) {
                Ok((s.clone(), i + 3))
            } else {
                Err(crate::raw::unexpected(&toks[i + 2], exp_vec1("')'")))
            }
        },
        _ => Err(crate::raw::unexpected(&toks[i + 1], exp_vec1("string"))),
    }
}

/// Parses one rule value, mirroring [`spec_rvalue`].
fn p_rvalue(toks: &Vec<Tok>, i: usize) -> (r: Result<(Value, usize), Diagnostic>)
    requires
        i <= toks@.len(),
        mtoks_wf(toks_model(toks@)),
    ensures
        match (r, spec_rvalue(toks_model(toks@), i as int)) {
            (Ok((v, j)), Ok((mv, mj))) => v@ == mv && j as int == mj && i < j && j <= toks@.len()
                && value_wf(mv),
            (Err(d), Err(md)) => d@ == md,
            _ => false,
        },
{
    let n = toks.len();
    if i >= n {
        return Err(crate::raw::eof_diag(toks, exp_rvalue_vec()));
    }
    let t = &toks[i];
    proof {
        assert(toks_model(toks@)[i as int] == toks@[i as int]@);
        assert(mtok_wf(toks_model(toks@)[i as int]));
    }
    match &t.kind {
        TokKind::DecLit(d) => Ok((Value::Decimal(*d), i + 1)),
        TokKind::IntLit(x) => Ok((Value::Decimal(Decimal { mant: *x as i128, scale: 0 }), i + 1)),
        TokKind::StrLit(s) => Ok((Value::String(s.clone()), i + 1)),
        TokKind::Ident(w) => {
            if string_is(w, "oxygen_level") {
                Ok((Value::OxygenLevel, i + 1))
            } else if string_is(w, "temperature_celsius") {
                Ok((Value::TemperatureCelsius, i + 1))
            } else if string_is(w, "temperature_kelvin") {
                Ok((Value::TemperatureKelvin, i + 1))
            } else if string_is(w, "water_level") {
                Ok((Value::WaterLevel, i + 1))
            } else if string_is(w, "magnetosphere") {
                Ok((Value::Magnetosphere, i + 1))
            } else if string_is(w, "atmosphere") {
                Ok((Value::Atmosphere, i + 1))
            } else if string_is(w, "star_type") {
                Ok((Value::StarType, i + 1))
            } else if string_is(w, "goods_base") {
                match p_paren_str(toks, i + 1) {
                    Ok((s, j)) => Ok((Value::GoodsAbundance(s), j)),
                    Err(d) => Err(d),
                }
            } else if string_is(w, "stored") {
                match p_paren_str(toks, i + 1) {
                    Ok((s, j)) => Ok((Value::StringLookup(s), j)),
                    Err(d) => Err(d),
                }
            } else {
                Err(crate::raw::unexpected(t, exp_rvalue_vec()))
            }
        },
        _ => Err(crate::raw::unexpected(t, exp_rvalue_vec())),
    }
}

/// Parses one condition, mirroring [`spec_cond`].
fn p_cond(toks: &Vec<Tok>, i: usize) -> (r: Result<(Condition, usize), Diagnostic>)
    requires
        i <= toks@.len(),
        mtoks_wf(toks_model(toks@)),
    ensures
        match (r, spec_cond(toks_model(toks@), i as int)) {
            (Ok((c, j)), Ok((mc, mj))) => c@ == mc && j as int == mj && i < j && j <= toks@.len()
                && cond_wf(mc),
            (Err(d), Err(md)) => d@ == md,
            _ => false,
        },
{
    let n = toks.len();
    if i >= n {
        return Err(crate::raw::eof_diag(toks, exp_cmp_vec()));
    }
    let t = &toks[i];
    proof {
        assert(toks_model(toks@)[i as int] == toks@[i as int]@);
    }
    let cmp: u8 = match &t.kind {
        TokKind::Ident(w) => {
            if string_is(w, "EQ") {
                0
            } else if string_is(w, "NE") {
                1
            } else if string_is(w, "GT") {
                2
            } else if string_is(w, "GE") {
                3
            } else if string_is(w, "LT") {
                4
            } else if string_is(w, "LE") {
                5
            } else {
                return Err(crate::raw::unexpected(t, exp_cmp_vec()));
            }
        },
        _ => {
            return Err(crate::raw::unexpected(t, exp_cmp_vec()));
        },
    };
    if i + 1 >= n {
        return Err(crate::raw::eof_diag(toks, exp_vec1("'('")));
    }
    proof {
        assert(toks_model(toks@)[i + 1] == toks@[i + 1]@);
    }
    if !matches!(&toks[i + 1].kind, TokKind::LParen) {
        return Err(crate::raw::unexpected(&toks[i + 1], exp_vec1("'('")));
    }
    match p_rvalue(toks, i + 2) {
        Ok((a, j)) => {
            proof {
                assert(adv(i + 2, j as int, toks@.len() as int) == j as int);
                if (j as int) < toks@.len() {
                    assert(toks_model(toks@)[j as int] == toks@[j as int]@);
                }
            }
            let j1 = if j < n && (matches!(&toks[j].kind, TokKind::Comma) || matches!(
                &toks[j].kind,
                TokKind::Colon,
            )) {
                j + 1
            } else {
                j
            };
            match p_rvalue(toks, j1) {
                Ok((b, k)) => {
                    proof {
                        assert(adv(j1 as int, k as int, toks@.len() as int) == k as int);
                        if (k as int) < toks@.len() {
                            assert(toks_model(toks@)[k as int] == toks@[k as int]@);
                        }
                    }
                    if k < n && matches!(&toks[k].kind, TokKind::RParen) {
                        let c = if cmp == 0 {
                            Condition::Eq(a, b)
                        } else if cmp == 1 {
                            Condition::Ne(a, b)
                        } else if cmp == 2 {
                            Condition::Gt(a, b)
                        } else if cmp == 3 {
                            Condition::Ge(a, b)
                        } else if cmp == 4 {
                            Condition::Lt(a, b)
                        } else {
                            Condition::Le(a, b)
                        };
                        Ok((c, k + 1))
                    } else if k < n {
                        Err(crate::raw::unexpected(&toks[k], exp_vec1("')'")))
                    } else {
                        Err(crate::raw::eof_diag(toks, exp_vec1("')'")))
                    }
                },
                Err(d) => Err(d),
            }
        },
        Err(d) => Err(d),
    }
}

/// Parses a conjunction of conditions, mirroring [`spec_conds`].
fn p_conds(toks: &Vec<Tok>, i: usize) -> (r: Result<(Vec<Condition>, usize), Diagnostic>)
    requires
        i <= toks@.len(),
        mtoks_wf(toks_model(toks@)),
    ensures
        match (r, spec_conds(toks_model(toks@), i as int)) {
            (Ok((cs, j)), Ok((mcs, mj))) => crate::common::seq_view(cs@) == mcs && j as int == mj
                && i < j && j <= toks@.len() && conds_wf(mcs),
            (Err(d), Err(md)) => d@ == md,
            _ => false,
        },
    decreases toks@.len() - i,
{
    let n = toks.len();
    if i >= n {
        return Err(crate::raw::eof_diag(toks, exp_cmp_vec()));
    }
    match p_cond(toks, i) {
        Ok((c, j)) => {
            proof {
                assert(adv(i as int, j as int, toks@.len() as int) == j as int);
                if (j as int) < toks@.len() {
                    assert(toks_model(toks@)[j as int] == toks@[j as int]@);
                }
            }
            if j < n && matches!(&toks[j].kind, TokKind::Amp) {
                match p_conds(toks, j + 1) {
                    Ok((mut rest, k)) => {
                        let ghost r0 = rest@;
                        rest.insert(0, c);
                        proof {
                            assert(rest@ =~= seq![rest@[0]] + r0);
                            assert(crate::common::seq_view(rest@) =~= seq![rest@[0]@]
                                + crate::common::seq_view(r0));
                        }
                        Ok((rest, k))
                    },
                    Err(d) => Err(d),
                }
            } else {
                let mut cs: Vec<Condition> = Vec::new();
                cs.push(c);
                proof {
                    assert(crate::common::seq_view(cs@) =~= seq![cs@[0]@]);
                }
                Ok((cs, j))
            }
        },
        Err(d) => Err(d),
    }
}

/// Parses `'(' string ','? string ')'`, mirroring [`spec_stored_set`].
fn p_stored_set(toks: &Vec<Tok>, i: usize) -> (r: Result<(String, String, usize), Diagnostic>)
    requires
        i <= toks@.len(),
    ensures
        match (r, spec_stored_set(toks_model(toks@), i as int)) {
            (Ok((k, v, j)), Ok((mk, mv, mj))) => k@ == mk && v@ == mv && j as int == mj && i < j
                && j <= toks@.len(),
            (Err(d), Err(md)) => d@ == md,
            _ => false,
        },
{
    let n = toks.len();
    if i >= n {
        return Err(crate::raw::eof_diag(toks, exp_vec1("'('")));
    }
    proof {
        assert(toks_model(toks@)[i as int] == toks@[i as int]@);
    }
    if !matches!(&toks[i].kind, TokKind::LParen) {
        return Err(crate::raw::unexpected(&toks[i], exp_vec1("'('")));
    }
    if i + 1 >= n {
        return Err(crate::raw::eof_diag(toks, exp_vec1("string")));
    }
    proof {
        assert(toks_model(toks@)[i + 1] == toks@[i + 1]@);
        if i + 2 < toks@.len() {
            assert(toks_model(toks@)[i + 2] == toks@[i + 2]@);
        }
    }
    match &toks[i + 1].kind {
        TokKind::StrLit(k) => {
            let j = if i + 2 < n && (matches!(&toks[i + 2].kind, TokKind::Comma) || matches!(
                &toks[i + 2].kind,
                TokKind::Colon,
            )) {
                i + 3
            } else {
                i + 2
            };
            if j >= n {
                return Err(crate::raw::eof_diag(toks, exp_vec1("string")));
            }
            proof {
                assert(toks_model(toks@)[j as int] == toks@[j as int]@);
                if j + 1 < toks@.len() {
                    assert(toks_model(toks@)[j + 1] == toks@[j + 1]@);
                }
            }
            match &toks[j].kind {
                TokKind::StrLit(v) => {
                    if j + 1 < n && matches!(&toks[j + 1].kind, TokKind::RParen) {
                        Ok((k.clone(), v.clone(), j + 2))
                    } else if j + 1 < n {
                        Err(crate::raw::unexpected(&toks[j + 1], exp_vec1("')'")))
                    } else {
                        Err(crate::raw::eof_diag(toks, exp_vec1("')'")))
                    }
                },
                _ => Err(crate::raw::unexpected(&toks[j], exp_vec1("string"))),
            }
        },
        _ => Err(crate::raw::unexpected(&toks[i + 1], exp_vec1("string"))),
    }
}

/// Parses string items up to `]`, mirroring [`spec_str_items`].
fn p_str_items(toks: &Vec<Tok>, i: usize) -> (r: Result<(Vec<String>, usize), Diagnostic>)
    requires
        i <= toks@.len(),
    ensures
        match (r, spec_str_items(toks_model(toks@), i as int)) {
            (Ok((vs, j)), Ok((mvs, mj))) => vs.deep_view() == mvs && j as int == mj && i < j
                && j <= toks@.len(),
            (Err(d), Err(md)) => d@ == md,
            _ => false,
        },
    decreases toks@.len() - i,
{
    let n = toks.len();
    if i >= n {
        return Err(crate::raw::eof_diag(toks, exp_vec2("string", "']'")));
    }
    let t = &toks[i];
    proof {
        assert(toks_model(toks@)[i as int] == toks@[i as int]@);
    }
    match &t.kind {
        TokKind::RSquare => {
            let vs: Vec<String> = Vec::new();
            proof {
                assert(vs.deep_view() =~= Seq::<Seq<char>>::empty());
            }
            Ok((vs, i + 1))
        },
        TokKind::Comma => p_str_items(toks, i + 1),
        TokKind::Colon => p_str_items(toks, i + 1),
        TokKind::StrLit(s) => {
            match p_str_items(toks, i + 1) {
                Ok((mut rest, j)) => {
                    let ghost r0 = rest.deep_view();
                    rest.insert(0, s.clone());
                    proof {
                        assert(rest.deep_view() =~= seq![rest@[0]@] + r0);
                    }
                    Ok((rest, j))
                },
                Err(d) => Err(d),
            }
        },
        _ => Err(crate::raw::unexpected(t, exp_vec2("string", "']'"))),
    }
}

/// Parses the arguments of `rand_of_string`, mirroring [`spec_rand_args`].
fn p_rand_args(toks: &Vec<Tok>, i: usize) -> (r: Result<(String, Vec<String>, usize), Diagnostic>)
    requires
        i <= toks@.len(),
    ensures
        match (r, spec_rand_args(toks_model(toks@), i as int)) {
            (Ok((k, vs, j)), Ok((mk, mvs, mj))) => k@ == mk && vs.deep_view() == mvs && j as int
                == mj && i < j && j <= toks@.len(),
            (Err(d), Err(md)) => d@ == md,
            _ => false,
        },
{
    let n = toks.len();
    if i >= n {
        return Err(crate::raw::eof_diag(toks, exp_vec1("'('")));
    }
    proof {
        assert(toks_model(toks@)[i as int] == toks@[i as int]@);
    }
    if !matches!(&toks[i].kind, TokKind::LParen) {
        return Err(crate::raw::unexpected(&toks[i], exp_vec1("'('")));
    }
    if i + 1 >= n {
        return Err(crate::raw::eof_diag(toks, exp_vec1("string")));
    }
    proof {
        assert(toks_model(toks@)[i + 1] == toks@[i + 1]@);
        if i + 2 < toks@.len() {
            assert(toks_model(toks@)[i + 2] == toks@[i + 2]@);
        }
    }
    match &toks[i + 1].kind {
        TokKind::StrLit(k) => {
            let j = if i + 2 < n && (matches!(&toks[i + 2].kind, TokKind::Comma) || matches!(
                &toks[i + 2].kind,
                TokKind::Colon,
            )) {
                i + 3
            } else {
                i + 2
            };
            if j >= n {
                return Err(crate::raw::eof_diag(toks, exp_vec1("'['")));
            }
            proof {
                assert(toks_model(toks@)[j as int] == toks@[j as int]@);
            }
            if !matches!(&toks[j].kind, TokKind::LSquare) {
                return Err(crate::raw::unexpected(&toks[j], exp_vec1("'['")));
            }
            match p_str_items(toks, j + 1) {
                Ok((vs, m)) => {
                    proof {
                        if (m as int) < toks@.len() {
                            assert(toks_model(toks@)[m as int] == toks@[m as int]@);
                        }
                    }
                    if m < n && matches!(&toks[m].kind, TokKind::RParen) {
                        Ok((k.clone(), vs, m + 1))
                    } else if m < n {
                        Err(crate::raw::unexpected(&toks[m], exp_vec1("')'")))
                    } else {
                        Err(crate::raw::eof_diag(toks, exp_vec1("')'")))
                    }
                },
                Err(d) => Err(d),
            }
        },
        _ => Err(crate::raw::unexpected(&toks[i + 1], exp_vec1("string"))),
    }
}
/// Parses one action, mirroring [`spec_action`].
fn p_action(toks: &Vec<Tok>, i: usize) -> (r: Result<(Action, usize), Diagnostic>)
    requires
        i <= toks@.len(),
        mtoks_wf(toks_model(toks@)),
    ensures
        match (r, spec_action(toks_model(toks@), i as int)) {
            (Ok((a, j)), Ok((ma, mj))) => action_model(a) == ma && j as int == mj && i < j
                && j <= toks@.len() && action_wf(ma),
            (Err(d), Err(md)) => d@ == md,
            _ => false,
        },
    decreases toks@.len() - i, 3int,
{
    let n = toks.len();
    if i >= n {
        return Err(crate::raw::eof_diag(toks, exp_action_vec()));
    }
    let t = &toks[i];
    proof {
        assert(toks_model(toks@)[i as int] == toks@[i as int]@);
    }
    match &t.kind {
        TokKind::Ident(w) => {
            if string_is(w, "if") {
                match p_branch(toks, i) {
                    Ok((b, j)) => Ok((Action::Branch(b), j)),
                    Err(d) => Err(d),
                }
            } else if string_is(w, "set_asset") {
                match p_paren_str(toks, i + 1) {
                    Ok((s, j)) => Ok((Action::SetAsset(s), j)),
                    Err(d) => Err(d),
                }
            } else if string_is(w, "set_planet_type") {
                match p_paren_str(toks, i + 1) {
                    Ok((s, j)) => Ok((Action::SetPlanetType(s), j)),
                    Err(d) => Err(d),
                }
            } else if string_is(w, "stored") {
                match p_stored_set(toks, i + 1) {
                    Ok((k, v, j)) => Ok((Action::SetStored(k, v), j)),
                    Err(d) => Err(d),
                }
            } else if string_is(w, "rand_of_string") {
                match p_rand_args(toks, i + 1) {
                    Ok((k, vs, j)) => Ok((Action::SetStoredRandom(k, vs), j)),
                    Err(d) => Err(d),
                }
            } else {
                Err(crate::raw::unexpected(t, exp_action_vec()))
            }
        },
        _ => Err(crate::raw::unexpected(t, exp_action_vec())),
    }
}

/// Parses actions up to `}`, mirroring [`spec_actions`].
fn p_actions(toks: &Vec<Tok>, i: usize) -> (r: Result<(Vec<Action>, usize), Diagnostic>)
    requires
        i <= toks@.len(),
        mtoks_wf(toks_model(toks@)),
    ensures
        match (r, spec_actions(toks_model(toks@), i as int)) {
            (Ok((acts, j)), Ok((macts, mj))) => actions_model(acts@) == macts && j as int == mj
                && i < j && j <= toks@.len() && actions_wf(macts),
            (Err(d), Err(md)) => d@ == md,
            _ => false,
        },
    decreases toks@.len() - i, 4int,
{
    let n = toks.len();
    if i >= n {
        return Err(crate::raw::eof_diag(toks, exp_action_vec()));
    }
    proof {
        assert(toks_model(toks@)[i as int] == toks@[i as int]@);
    }
    if matches!(&toks[i].kind, TokKind::RCurly) {
        let acts: Vec<Action> = Vec::new();
        proof {
            assert(actions_model(acts@) =~= Seq::<MAction>::empty());
        }
        return Ok((acts, i + 1));
    }
    match p_action(toks, i) {
        Ok((a, j)) => {
            proof {
                assert(adv(i as int, j as int, toks@.len() as int) == j as int);
            }
            match p_actions(toks, j) {
                Ok((mut rest, k)) => {
                    let ghost r0 = rest@;
                    let ghost am = action_model(a);
                    rest.insert(0, a);
                    proof {
                        assert(rest@ =~= seq![rest@[0]] + r0);
                        lemma_actions_model_cons(rest@[0], r0);
                        lemma_actions_wf_cons(am, actions_model(r0));
                    }
                    Ok((rest, k))
                },
                Err(d) => Err(d),
            }
        },
        Err(d) => Err(d),
    }
}

/// Parses one `if` clause, mirroring [`spec_if_clause`].
fn p_if_clause(toks: &Vec<Tok>, i: usize) -> (r: Result<(IfCondition, usize), Diagnostic>)
    requires
        i <= toks@.len(),
        mtoks_wf(toks_model(toks@)),
    ensures
        match (r, spec_if_clause(toks_model(toks@), i as int)) {
            (Ok((c, j)), Ok((mc, mj))) => clause_model(c) == mc && j as int == mj && i < j
                && j <= toks@.len() && clause_wf(mc),
            (Err(d), Err(md)) => d@ == md,
            _ => false,
        },
    decreases toks@.len() - i, 0int,
{
    let n = toks.len();
    if i >= n {
        return Err(crate::raw::eof_diag(toks, exp_vec1("'if'")));
    }
    proof {
        assert(toks_model(toks@)[i as int] == toks@[i as int]@);
    }
    let ok_if = match &toks[i].kind {
        TokKind::Ident(w) => string_is(w, "if"),
        _ => false,
    };
    if !ok_if {
        return Err(crate::raw::unexpected(&toks[i], exp_vec1("'if'")));
    }
    if i + 1 >= n {
        return Err(crate::raw::eof_diag(toks, exp_vec1("'('")));
    }
    proof {
        assert(toks_model(toks@)[i + 1] == toks@[i + 1]@);
    }
    if !matches!(&toks[i + 1].kind, TokKind::LParen) {
        return Err(crate::raw::unexpected(&toks[i + 1], exp_vec1("'('")));
    }
    match p_conds(toks, i + 2) {
        Ok((cs, j)) => {
            proof {
                assert(adv(i + 2, j as int, toks@.len() as int) == j as int);
                if (j as int) < toks@.len() {
                    assert(toks_model(toks@)[j as int] == toks@[j as int]@);
                }
            }
            if j >= n {
                return Err(crate::raw::eof_diag(toks, exp_vec1("')'")));
            }
            if !matches!(&toks[j].kind, TokKind::RParen) {
                return Err(crate::raw::unexpected(&toks[j], exp_vec1("')'")));
            }
            if j + 1 >= n {
                return Err(crate::raw::eof_diag(toks, exp_vec1("'{'")));
            }
            proof {
                assert(toks_model(toks@)[j + 1] == toks@[j + 1]@);
            }
            if !matches!(&toks[j + 1].kind, TokKind::LCurly) {
                return Err(crate::raw::unexpected(&toks[j + 1], exp_vec1("'{'")));
            }
            match p_actions(toks, j + 2) {
                Ok((acts, k)) => Ok((IfCondition { conditions: cs, actions: acts }, k)),
                Err(d) => Err(d),
            }
        },
        Err(d) => Err(d),
    }
}

/// Parses `if_clause+`, mirroring [`spec_if_list`].
fn p_if_list(toks: &Vec<Tok>, i: usize) -> (r: Result<(Vec<IfCondition>, usize), Diagnostic>)
    requires
        i <= toks@.len(),
        mtoks_wf(toks_model(toks@)),
    ensures
        match (r, spec_if_list(toks_model(toks@), i as int)) {
            (Ok((cs, j)), Ok((mcs, mj))) => clauses_model(cs@) == mcs && j as int == mj && i < j
                && j <= toks@.len() && clauses_wf(mcs),
            (Err(d), Err(md)) => d@ == md,
            _ => false,
        },
    decreases toks@.len() - i, 1int,
{
    let n = toks.len();
    match p_if_clause(toks, i) {
        Ok((c, j)) => {
            proof {
                assert(adv(i as int, j as int, toks@.len() as int) == j as int);
                if (j as int) < toks@.len() {
                    assert(toks_model(toks@)[j as int] == toks@[j as int]@);
                }
            }
            let more = j < n && match &toks[j].kind {
                TokKind::Ident(w) => string_is(w, "if"),
                _ => false,
            };
            if more {
                match p_if_list(toks, j) {
                    Ok((mut rest, k)) => {
                        let ghost r0 = rest@;
                        let ghost cm = clause_model(c);
                        rest.insert(0, c);
                        proof {
                            assert(rest@ =~= seq![rest@[0]] + r0);
                            lemma_clauses_model_cons(rest@[0], r0);
                            lemma_clauses_wf_cons(cm, clauses_model(r0));
                        }
                        Ok((rest, k))
                    },
                    Err(d) => Err(d),
                }
            } else {
                let ghost cm = clause_model(c);
                let mut cs: Vec<IfCondition> = Vec::new();
                cs.push(c);
                proof {
                    assert(cs@ =~= seq![cs@[0]] + Seq::<IfCondition>::empty());
                    lemma_clauses_model_cons(cs@[0], Seq::empty());
                    assert(clauses_model(Seq::<IfCondition>::empty()) =~= Seq::<
                        MIfCondition,
                    >::empty());
                    assert(clauses_model(cs@) =~= seq![cm]);
                    lemma_clauses_wf_cons(cm, Seq::empty());
                }
                Ok((cs, j))
            }
        },
        Err(d) => Err(d),
    }
}

/// Parses one whole branch, mirroring [`spec_branch`].
pub fn p_branch(toks: &Vec<Tok>, i: usize) -> (r: Result<(Branch, usize), Diagnostic>)
    requires
        i <= toks@.len(),
        mtoks_wf(toks_model(toks@)),
    ensures
        match (r, spec_branch(toks_model(toks@), i as int)) {
            (Ok((b, j)), Ok((mb, mj))) => branch_model(b) == mb && j as int == mj && i < j
                && j <= toks@.len() && mbranch_wf(mb),
            (Err(d), Err(md)) => d@ == md,
            _ => false,
        },
    decreases toks@.len() - i, 2int,
{
    let n = toks.len();
    match p_if_list(toks, i) {
        Ok((cs, j)) => {
            proof {
                assert(adv(i as int, j as int, toks@.len() as int) == j as int);
                if (j as int) < toks@.len() {
                    assert(toks_model(toks@)[j as int] == toks@[j as int]@);
                }
            }
            let has_else = j < n && match &toks[j].kind {
                TokKind::Ident(w) => string_is(w, "else"),
                _ => false,
            };
            if has_else {
                if j + 1 >= n {
                    return Err(crate::raw::eof_diag(toks, exp_vec1("'{'")));
                }
                proof {
                    assert(toks_model(toks@)[j + 1] == toks@[j + 1]@);
                }
                if !matches!(&toks[j + 1].kind, TokKind::LCurly) {
                    return Err(crate::raw::unexpected(&toks[j + 1], exp_vec1("'{'")));
                }
                match p_actions(toks, j + 2) {
                    Ok((acts, k)) => Ok((Branch { if_conditions: cs, else_actions: acts }, k)),
                    Err(d) => Err(d),
                }
            } else {
                let acts: Vec<Action> = Vec::new();
                proof {
                    assert(actions_model(acts@) =~= Seq::<MAction>::empty());
                }
                Ok((Branch { if_conditions: cs, else_actions: acts }, j))
            }
        },
        Err(d) => Err(d),
    }
}

/// Parses a bracketed list of braced branches, mirroring
/// [`spec_branch_list`].
pub fn p_branch_list(toks: &Vec<Tok>, i: usize) -> (r: Result<(Vec<Branch>, usize), Diagnostic>)
    requires
        i <= toks@.len(),
        mtoks_wf(toks_model(toks@)),
    ensures
        match (r, spec_branch_list(toks_model(toks@), i as int)) {
            (Ok((bs, j)), Ok((mbs, mj))) => crate::planet_types::branches_model(bs@) == mbs
                && j as int == mj && i < j && j <= toks@.len() && branches_wf(mbs),
            (Err(d), Err(md)) => d@ == md,
            _ => false,
        },
    decreases toks@.len() - i, 3int,
{
    let n = toks.len();
    if i >= n {
        return Err(crate::raw::eof_diag(toks, exp_vec1("'['")));
    }
    proof {
        assert(toks_model(toks@)[i as int] == toks@[i as int]@);
    }
    if !matches!(&toks[i].kind, TokKind::LSquare) {
        return Err(crate::raw::unexpected(&toks[i], exp_vec1("'['")));
    }
    p_branch_items(toks, i + 1)
}

fn p_branch_items(toks: &Vec<Tok>, i: usize) -> (r: Result<(Vec<Branch>, usize), Diagnostic>)
    requires
        i <= toks@.len(),
        mtoks_wf(toks_model(toks@)),
    ensures
        match (r, spec_branch_items(toks_model(toks@), i as int)) {
            (Ok((bs, j)), Ok((mbs, mj))) => crate::planet_types::branches_model(bs@) == mbs
                && j as int == mj && i < j && j <= toks@.len() && branches_wf(mbs),
            (Err(d), Err(md)) => d@ == md,
            _ => false,
        },
    decreases toks@.len() - i, 4int,
{
    let n = toks.len();
    if i >= n {
        return Err(crate::raw::eof_diag(toks, exp_vec2("'{'", "']'")));
    }
    proof {
        assert(toks_model(toks@)[i as int] == toks@[i as int]@);
    }
    if matches!(&toks[i].kind, TokKind::RSquare) {
        let bs: Vec<Branch> = Vec::new();
        proof {
            assert(crate::planet_types::branches_model(bs@) =~= Seq::<MBranch>::empty());
        }
        return Ok((bs, i + 1));
    }
    if matches!(&toks[i].kind, TokKind::Comma) || matches!(&toks[i].kind, TokKind::Colon) {
        return p_branch_items(toks, i + 1);
    }
    if !matches!(&toks[i].kind, TokKind::LCurly) {
        return Err(crate::raw::unexpected(&toks[i], exp_vec2("'{'", "']'")));
    }
    match p_branch(toks, i + 1) {
        Ok((b, j)) => {
            proof {
                assert(adv(i + 1, j as int, toks@.len() as int) == j as int);
                if (j as int) < toks@.len() {
                    assert(toks_model(toks@)[j as int] == toks@[j as int]@);
                }
            }
            if j >= n {
                return Err(crate::raw::eof_diag(toks, exp_vec1("'}'")));
            }
            if !matches!(&toks[j].kind, TokKind::RCurly) {
                return Err(crate::raw::unexpected(&toks[j], exp_vec1("'}'")));
            }
            match p_branch_items(toks, j + 1) {
                Ok((mut rest, k)) => {
                    let ghost r0 = rest@;
                    let ghost bm = branch_model(b);
                    rest.insert(0, b);
                    proof {
                        assert(rest@ =~= seq![rest@[0]] + r0);
                        lemma_branches_model_cons(rest@[0], r0);
                        lemma_branches_wf_cons(bm, crate::planet_types::branches_model(r0));
                    }
                    Ok((rest, k))
                },
                Err(d) => Err(d),
            }
        },
        Err(d) => Err(d),
    }
}
/// A named number in the evaluation state: a resource's base abundance.
#[derive(Clone, Debug, PartialEq)]
pub struct NamedValue {
    pub name: String,
    pub value: Decimal,
}

pub struct MNamedValue {
    pub name: Seq<char>,
    pub value: Decimal,
}

impl View for NamedValue {
    type V = MNamedValue;

    open spec fn view(&self) -> MNamedValue {
        MNamedValue { name: self.name@, value: self.value }
    }
}

/// A named string in the evaluation state: a stored variable.
#[derive(Clone, Debug, PartialEq)]
pub struct NamedText {
    pub name: String,
    pub value: String,
}

pub struct MNamedText {
    pub name: Seq<char>,
    pub value: Seq<char>,
}

impl View for NamedText {
    type V = MNamedText;

    open spec fn view(&self) -> MNamedText {
        MNamedText { name: self.name@, value: self.value@ }
    }
}

/// The planet state a downstream evaluator would resolve accessors
/// against.  It exists here to state, and test, the evaluation-order
/// contract of a parsed branch.
#[derive(Clone, Debug, PartialEq)]
pub struct PlanetState {
    pub oxygen_level: Decimal,
    pub temperature: Temperature,
    pub water_level: Decimal,
    pub magnetosphere: Decimal,
    pub atmosphere: Decimal,
    pub star_type: String,
    pub abundances: Vec<NamedValue>,
    pub stored_strings: Vec<NamedText>,
}

pub struct MPlanetState {
    pub oxygen_level: Decimal,
    pub temperature: Temperature,
    pub water_level: Decimal,
    pub magnetosphere: Decimal,
    pub atmosphere: Decimal,
    pub star_type: Seq<char>,
    pub abundances: Seq<MNamedValue>,
    pub stored_strings: Seq<MNamedText>,
}

impl View for PlanetState {
    type V = MPlanetState;

    open spec fn view(&self) -> MPlanetState {
        MPlanetState {
            oxygen_level: self.oxygen_level,
            temperature: self.temperature,
            water_level: self.water_level,
            magnetosphere: self.magnetosphere,
            atmosphere: self.atmosphere,
            star_type: self.star_type@,
            abundances: crate::common::seq_view(self.abundances@),
            stored_strings: crate::common::seq_view(self.stored_strings@),
        }
    }
}

pub open spec fn state_wf(st: MPlanetState) -> bool {
    &&& st.oxygen_level.wf()
    &&& st.temperature.wf()
    &&& st.water_level.wf()
    &&& st.magnetosphere.wf()
    &&& st.atmosphere.wf()
    &&& forall|j: int|
        0 <= j < st.abundances.len() ==> (#[trigger] st.abundances[j]).value.wf()
}

/// First entry with the given name, if any.
pub open spec fn lookup_num(s: Seq<MNamedValue>, n: Seq<char>) -> Option<Decimal>
    decreases s,
{
    if s.len() == 0 {
        None
    } else if s[0].name == n {
        Some(s[0].value)
    } else {
        lookup_num(s.drop_first(), n)
    }
}

pub open spec fn lookup_text(s: Seq<MNamedText>, n: Seq<char>) -> Option<Seq<char>>
    decreases s,
{
    if s.len() == 0 {
        None
    } else if s[0].name == n {
        Some(s[0].value)
    } else {
        lookup_text(s.drop_first(), n)
    }
}

fn find_num(entries: &Vec<NamedValue>, n: &String) -> (r: Option<Decimal>)
    ensures
        r == lookup_num(crate::common::seq_view(entries@), n@),
        (forall|j: int|
            0 <= j < entries@.len() ==> (#[trigger] entries@[j]@).value.wf()) ==> match r {
            Some(d) => d.wf(),
            None => true,
        },
{
    let ghost full = crate::common::seq_view(entries@);
    let mut i: usize = 0;
    let nn = entries.len();
    proof {
        assert(full.skip(0) =~= full);
    }
    while i < nn
        invariant
            nn == entries@.len(),
            i <= nn,
            full == crate::common::seq_view(entries@),
            lookup_num(full, n@) == lookup_num(full.skip(i as int), n@),
        decreases nn - i,
    {
        proof {
            assert(full.skip(i as int)[0] == full[i as int]);
            assert(full.skip(i as int).drop_first() =~= full.skip(i + 1));
            assert(full[i as int] == entries@[i as int]@);
        }
        if crate::text::str_eq(entries[i].name.as_str(), n.as_str()) {
            return Some(entries[i].value);
        }
        i += 1;
    }
    proof {
        assert(full.skip(nn as int).len() == 0);
    }
    None
}

fn find_text(entries: &Vec<NamedText>, n: &String) -> (r: Option<String>)
    ensures
        match (r, lookup_text(crate::common::seq_view(entries@), n@)) {
            (Some(s), Some(ms)) => s@ == ms,
            (None, None) => true,
            _ => false,
        },
{
    let ghost full = crate::common::seq_view(entries@);
    let mut i: usize = 0;
    let nn = entries.len();
    proof {
        assert(full.skip(0) =~= full);
    }
    while i < nn
        invariant
            nn == entries@.len(),
            i <= nn,
            full == crate::common::seq_view(entries@),
            lookup_text(full, n@) == lookup_text(full.skip(i as int), n@),
        decreases nn - i,
    {
        proof {
            assert(full.skip(i as int)[0] == full[i as int]);
            assert(full.skip(i as int).drop_first() =~= full.skip(i + 1));
            assert(full[i as int] == entries@[i as int]@);
        }
        if crate::text::str_eq(entries[i].name.as_str(), n.as_str()) {
            return Some(entries[i].value.clone());
        }
        i += 1;
    }
    proof {
        assert(full.skip(nn as int).len() == 0);
    }
    None
}

/// What a rule value resolves to under a given state: a number, a string,
/// or nothing (an unknown lookup or an unrepresentable conversion).
#[derive(Clone, Debug, PartialEq)]
pub enum Resolved {
    Num(Decimal),
    Text(String),
    Missing,
}

pub enum MResolved {
    Num(Decimal),
    Text(Seq<char>),
    Missing,
}

impl View for Resolved {
    type V = MResolved;

    open spec fn view(&self) -> MResolved {
        match self {
            Resolved::Num(d) => MResolved::Num(*d),
            Resolved::Text(s) => MResolved::Text(s@),
            Resolved::Missing => MResolved::Missing,
        }
    }
}

/// Resolution of a rule value against a state.  Temperatures read through
/// the accessors are truncated to two fractional digits, as the
/// temperature getters do.
pub open spec fn resolve(v: MValue, st: MPlanetState) -> MResolved {
    match v {
        MValue::Decimal(d) => MResolved::Num(d),
        MValue::OxygenLevel => MResolved::Num(st.oxygen_level),
        MValue::TemperatureCelsius => match st.temperature.spec_celsius() {
            Some(c) => MResolved::Num(c),
            None => MResolved::Missing,
        },
        MValue::TemperatureKelvin => MResolved::Num(st.temperature.kelvin_exact.trunc_spec(2)),
        MValue::WaterLevel => MResolved::Num(st.water_level),
        MValue::Magnetosphere => MResolved::Num(st.magnetosphere),
        MValue::Atmosphere => MResolved::Num(st.atmosphere),
        MValue::GoodsAbundance(n) => match lookup_num(st.abundances, n) {
            Some(d) => MResolved::Num(d),
            None => MResolved::Missing,
        },
        MValue::StarType => MResolved::Text(st.star_type),
        MValue::String(s) => MResolved::Text(s),
        MValue::StringLookup(n) => match lookup_text(st.stored_strings, n) {
            Some(s) => MResolved::Text(s),
            None => MResolved::Missing,
        },
    }
}

/// Resolves a rule value, mirroring [`resolve`].
pub fn eval_value(v: &Value, st: &PlanetState) -> (r: Resolved)
    requires
        value_wf(v@),
        state_wf(st@),
    ensures
        r@ == resolve(v@, st@),
        match r@ {
            MResolved::Num(d) => d.wf(),
            _ => true,
        },
{
    match v {
        Value::Decimal(d) => Resolved::Num(*d),
        Value::OxygenLevel => Resolved::Num(st.oxygen_level),
        Value::TemperatureCelsius => {
            let off = Decimal { mant: 27315, scale: 2 };
            match st.temperature.kelvin_exact.checked_sub(&off) {
                Some(c) => Resolved::Num(c.trunc_with_scale(2)),
                None => Resolved::Missing,
            }
        },
        Value::TemperatureKelvin => Resolved::Num(st.temperature.kelvin_exact.trunc_with_scale(2)),
        Value::WaterLevel => Resolved::Num(st.water_level),
        Value::Magnetosphere => Resolved::Num(st.magnetosphere),
        Value::Atmosphere => Resolved::Num(st.atmosphere),
        Value::GoodsAbundance(n) => {
            proof {
                assert forall|j: int|
                    0 <= j < st.abundances@.len() implies (#[trigger] st.abundances@[j]@).value.wf() by {
                    assert(st@.abundances[j] == st.abundances@[j]@);
                }
            }
            match find_num(&st.abundances, n) {
                Some(d) => Resolved::Num(d),
                None => Resolved::Missing,
            }
        },
        Value::StarType => Resolved::Text(st.star_type.clone()),
        Value::String(s) => Resolved::Text(s.clone()),
        Value::StringLookup(n) => match find_text(&st.stored_strings, n) {
            Some(s) => Resolved::Text(s),
            None => Resolved::Missing,
        },
    }
}

/// Whether one condition holds under a state.  A comparison whose sides
/// resolve to different kinds, or where a lookup is missing, does not
/// hold; order comparisons apply to numbers only, equality also to
/// strings.
pub open spec fn cond_holds(c: MCondition, st: MPlanetState) -> bool {
    match c {
        MCondition::Eq(a, b) => match (resolve(a, st), resolve(b, st)) {
            (MResolved::Num(x), MResolved::Num(y)) => x.num_eq(y),
            (MResolved::Text(s), MResolved::Text(t)) => s == t,
            _ => false,
        },
        MCondition::Ne(a, b) => match (resolve(a, st), resolve(b, st)) {
            (MResolved::Num(x), MResolved::Num(y)) => !x.num_eq(y),
            (MResolved::Text(s), MResolved::Text(t)) => s != t,
            _ => false,
        },
        MCondition::Gt(a, b) => match (resolve(a, st), resolve(b, st)) {
            (MResolved::Num(x), MResolved::Num(y)) => y.num_lt(x),
            _ => false,
        },
        MCondition::Ge(a, b) => match (resolve(a, st), resolve(b, st)) {
            (MResolved::Num(x), MResolved::Num(y)) => !x.num_lt(y),
            _ => false,
        },
        MCondition::Lt(a, b) => match (resolve(a, st), resolve(b, st)) {
            (MResolved::Num(x), MResolved::Num(y)) => x.num_lt(y),
            _ => false,
        },
        MCondition::Le(a, b) => match (resolve(a, st), resolve(b, st)) {
            (MResolved::Num(x), MResolved::Num(y)) => !y.num_lt(x),
            _ => false,
        },
    }
}

/// Evaluates one condition, mirroring [`cond_holds`].
pub fn cond_eval(c: &Condition, st: &PlanetState) -> (r: bool)
    requires
        cond_wf(c@),
        state_wf(st@),
    ensures
        r == cond_holds(c@, st@),
{
    match c {
        Condition::Eq(a, b) => {
            let ra = eval_value(a, st);
            let rb = eval_value(b, st);
            match (ra, rb) {
                (Resolved::Num(x), Resolved::Num(y)) => x.eq_num(&y),
                (Resolved::Text(s), Resolved::Text(t)) => crate::text::string_is(&s, t.as_str()),
                _ => false,
            }
        },
        Condition::Ne(a, b) => {
            let ra = eval_value(a, st);
            let rb = eval_value(b, st);
            match (ra, rb) {
                (Resolved::Num(x), Resolved::Num(y)) => !x.eq_num(&y),
                (Resolved::Text(s), Resolved::Text(t)) => !crate::text::string_is(&s, t.as_str()),
                _ => false,
            }
        },
        Condition::Gt(a, b) => {
            let ra = eval_value(a, st);
            let rb = eval_value(b, st);
            match (ra, rb) {
                (Resolved::Num(x), Resolved::Num(y)) => y.lt_num(&x),
                _ => false,
            }
        },
        Condition::Ge(a, b) => {
            let ra = eval_value(a, st);
            let rb = eval_value(b, st);
            match (ra, rb) {
                (Resolved::Num(x), Resolved::Num(y)) => !x.lt_num(&y),
                _ => false,
            }
        },
        Condition::Lt(a, b) => {
            let ra = eval_value(a, st);
            let rb = eval_value(b, st);
            match (ra, rb) {
                (Resolved::Num(x), Resolved::Num(y)) => x.lt_num(&y),
                _ => false,
            }
        },
        Condition::Le(a, b) => {
            let ra = eval_value(a, st);
            let rb = eval_value(b, st);
            match (ra, rb) {
                (Resolved::Num(x), Resolved::Num(y)) => !y.lt_num(&x),
                _ => false,
            }
        },
    }
}

/// Whether every conjoined condition of a clause holds.
pub open spec fn clause_holds(c: MIfCondition, st: MPlanetState) -> bool {
    forall|j: int| 0 <= j < c.conditions.len() ==> cond_holds(#[trigger] c.conditions[j], st)
}

/// Evaluates one clause's conjunction, mirroring [`clause_holds`].
pub fn clause_eval(c: &IfCondition, st: &PlanetState) -> (r: bool)
    requires
        clause_wf(clause_model(*c)),
        state_wf(st@),
    ensures
        r == clause_holds(clause_model(*c), st@),
{
    let n = c.conditions.len();
    let mut i: usize = 0;
    while i < n
        invariant
            n == c.conditions@.len(),
            i <= n,
            clause_wf(clause_model(*c)),
            state_wf(st@),
            forall|j: int|
                0 <= j < i ==> cond_holds(#[trigger] clause_model(*c).conditions[j], st@),
        decreases n - i,
    {
        proof {
            assert(clause_model(*c).conditions[i as int] == c.conditions@[i as int]@);
            assert(cond_wf(clause_model(*c).conditions[i as int]));
        }
        if !cond_eval(&c.conditions[i], st) {
            proof {
                assert(!cond_holds(clause_model(*c).conditions[i as int], st@));
            }
            return false;
        }
        i += 1;
    }
    true
}

proof fn lemma_clauses_model_props(s: Seq<IfCondition>)
    ensures
        clauses_model(s).len() == s.len(),
        forall|j: int| 0 <= j < s.len() ==> clauses_model(s)[j] == clause_model(#[trigger] s[j]),
    decreases s,
{
    if s.len() > 0 {
        lemma_clauses_model_props(s.drop_first());
        assert forall|j: int| 0 <= j < s.len() implies clauses_model(s)[j] == clause_model(
            #[trigger] s[j],
        ) by {
            if j > 0 {
                assert(clauses_model(s)[j] == clauses_model(s.drop_first())[j - 1]);
                assert(s.drop_first()[j - 1] == s[j]);
            }
        }
    }
}

proof fn lemma_clauses_wf_index(s: Seq<MIfCondition>, j: int)
    requires
        clauses_wf(s),
        0 <= j < s.len(),
    ensures
        clause_wf(s[j]),
    decreases s,
{
    if j > 0 {
        lemma_clauses_wf_index(s.drop_first(), j - 1);
        assert(s.drop_first()[j - 1] == s[j]);
    }
}

/// Which part of a branch a given planet state selects.
#[derive(Clone, Copy, Debug, PartialEq, Eq, Structural)]
pub enum SelectedClause {
    /// The `if` clause at this position applies; every earlier clause
    /// failed.
    Clause(usize),
    /// No clause matched and the `else` actions apply.
    Fallback,
    /// No clause matched and there is no `else`: the branch is a no-op.
    NoMatch,
}

/// The evaluation-order contract of a parsed branch, stated and proved:
/// `if` clauses are tried top to bottom; the first whose conjoined
/// conditions all hold applies and short-circuits the rest, including any
/// trailing `else`; if none match the `else` actions apply when present;
/// with no match and no `else` the branch is a no-op.
pub fn selected_clause(b: &Branch, st: &PlanetState) -> (r: SelectedClause)
    requires
        mbranch_wf(branch_model(*b)),
        state_wf(st@),
    ensures
        ({
            let cls = clauses_model(b.if_conditions@);
            match r {
                SelectedClause::Clause(k) => (k as int) < cls.len() && clause_holds(
                    cls[k as int],
                    st@,
                ) && (forall|j: int| 0 <= j < k as int ==> !clause_holds(#[trigger] cls[j], st@)),
                SelectedClause::Fallback => (forall|j: int|
                    0 <= j < cls.len() ==> !clause_holds(#[trigger] cls[j], st@))
                    && b.else_actions@.len() > 0,
                SelectedClause::NoMatch => (forall|j: int|
                    0 <= j < cls.len() ==> !clause_holds(#[trigger] cls[j], st@))
                    && b.else_actions@.len() == 0,
            }
        }),
{
    proof {
        lemma_clauses_model_props(b.if_conditions@);
    }
    let n = b.if_conditions.len();
    let mut i: usize = 0;
    while i < n
        invariant
            n == b.if_conditions@.len(),
            i <= n,
            mbranch_wf(branch_model(*b)),
            state_wf(st@),
            clauses_model(b.if_conditions@).len() == n,
            forall|j: int|
                0 <= j < b.if_conditions@.len() ==> clauses_model(b.if_conditions@)[j]
                    == clause_model(#[trigger] b.if_conditions@[j]),
            forall|j: int|
                0 <= j < i ==> !clause_holds(
                    #[trigger] clauses_model(b.if_conditions@)[j],
                    st@,
                ),
        decreases n - i,
    {
        proof {
            lemma_clauses_wf_index(clauses_model(b.if_conditions@), i as int);
        }
        if clause_eval(&b.if_conditions[i], st) {
            return SelectedClause::Clause(i);
        }
        i += 1;
    }
    if b.else_actions.len() > 0 {
        SelectedClause::Fallback
    } else {
        SelectedClause::NoMatch
    }
}
} // verus!

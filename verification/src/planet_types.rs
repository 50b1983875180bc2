//! The planet-types schema: `#planet_types` sections, including the
//! conditional rule language of the `setup` and `on_terraform` clauses.
//!
//! The rule tree is only parsed here, never executed; the evaluation-order
//! contract for the downstream consumer is stated and proved on
//! [`crate::rules::selected_clause`].

use vstd::prelude::*;

use crate::common::{seq_view, GoodAbundance, MGoodAbundance};
use crate::decimal::Decimal;

verus! {

/// The group a planet type falls under.
#[derive(Clone, Copy, Debug, PartialEq, Eq, Structural, Default)]
pub enum PlanetClass {
    #[default]
    Rocky,
    Atmospheric,
    Gas,
}

/// A value a condition compares or an action stores: a literal, a lookup,
/// or one of the fixed planet-state accessors.  Lookups are resolved by
/// the downstream evaluator, not here.
#[derive(Clone, Debug, PartialEq)]
pub enum Value {
    Decimal(Decimal),
    OxygenLevel,
    TemperatureCelsius,
    TemperatureKelvin,
    WaterLevel,
    Magnetosphere,
    Atmosphere,
    GoodsAbundance(String),
    StarType,
    String(String),
    StringLookup(String),
}

pub enum MValue {
    Decimal(Decimal),
    OxygenLevel,
    TemperatureCelsius,
    TemperatureKelvin,
    WaterLevel,
    Magnetosphere,
    Atmosphere,
    GoodsAbundance(Seq<char>),
    StarType,
    String(Seq<char>),
    StringLookup(Seq<char>),
}

impl View for Value {
    type V = MValue;

    open spec fn view(&self) -> MValue {
        match self {
            Value::Decimal(d) => MValue::Decimal(*d),
            Value::OxygenLevel => MValue::OxygenLevel,
            Value::TemperatureCelsius => MValue::TemperatureCelsius,
            Value::TemperatureKelvin => MValue::TemperatureKelvin,
            Value::WaterLevel => MValue::WaterLevel,
            Value::Magnetosphere => MValue::Magnetosphere,
            Value::Atmosphere => MValue::Atmosphere,
            Value::GoodsAbundance(s) => MValue::GoodsAbundance(s@),
            Value::StarType => MValue::StarType,
            Value::String(s) => MValue::String(s@),
            Value::StringLookup(s) => MValue::StringLookup(s@),
        }
    }
}

/// A comparison of two values.
#[derive(Clone, Debug, PartialEq)]
pub enum Condition {
    Eq(Value, Value),
    Gt(Value, Value),
    Ge(Value, Value),
    Lt(Value, Value),
    Le(Value, Value),
    Ne(Value, Value),
}

pub enum MCondition {
    Eq(MValue, MValue),
    Gt(MValue, MValue),
    Ge(MValue, MValue),
    Lt(MValue, MValue),
    Le(MValue, MValue),
    Ne(MValue, MValue),
}

impl View for Condition {
    type V = MCondition;

    open spec fn view(&self) -> MCondition {
        match self {
            Condition::Eq(a, b) => MCondition::Eq(a@, b@),
            Condition::Gt(a, b) => MCondition::Gt(a@, b@),
            Condition::Ge(a, b) => MCondition::Ge(a@, b@),
            Condition::Lt(a, b) => MCondition::Lt(a@, b@),
            Condition::Le(a, b) => MCondition::Le(a@, b@),
            Condition::Ne(a, b) => MCondition::Ne(a@, b@),
        }
    }
}

/// An effect applied when a clause matches; a nested branch recurses
/// through the same grammar and is exclusively owned, so the structure is
/// a tree.
#[derive(Debug, PartialEq)]
pub enum Action {
    NoOp,
    SetAsset(String),
    SetPlanetType(String),
    Branch(Branch),
    SetStored(String, String),
    SetStoredRandom(String, Vec<String>),
}

/// One `if` clause: its conjoined conditions and its actions.
#[derive(Debug, PartialEq)]
pub struct IfCondition {
    pub conditions: Vec<Condition>,
    pub actions: Vec<Action>,
}

/// An ordered list of `if` clauses with an optional fallback.
#[derive(Debug, PartialEq, Default)]
pub struct Branch {
    pub if_conditions: Vec<IfCondition>,
    pub else_actions: Vec<Action>,
}

pub enum MAction {
    NoOp,
    SetAsset(Seq<char>),
    SetPlanetType(Seq<char>),
    Branch(MBranch),
    SetStored(Seq<char>, Seq<char>),
    SetStoredRandom(Seq<char>, Seq<Seq<char>>),
}

pub struct MIfCondition {
    pub conditions: Seq<MCondition>,
    pub actions: Seq<MAction>,
}

pub struct MBranch {
    pub if_conditions: Seq<MIfCondition>,
    pub else_actions: Seq<MAction>,
}

pub open spec fn action_model(a: Action) -> MAction
    decreases a,
{
    match a {
        Action::NoOp => MAction::NoOp,
        Action::SetAsset(s) => MAction::SetAsset(s@),
        Action::SetPlanetType(s) => MAction::SetPlanetType(s@),
        Action::Branch(b) => MAction::Branch(branch_model(b)),
        Action::SetStored(k, v) => MAction::SetStored(k@, v@),
        Action::SetStoredRandom(k, vs) => MAction::SetStoredRandom(k@, vs.deep_view()),
    }
}

pub open spec fn actions_model(s: Seq<Action>) -> Seq<MAction>
    decreases s,
{
    if s.len() == 0 {
        Seq::empty()
    } else {
        seq![action_model(s[0])] + actions_model(s.drop_first())
    }
}

pub open spec fn clause_model(c: IfCondition) -> MIfCondition
    decreases c,
{
    MIfCondition { conditions: seq_view(c.conditions@), actions: actions_model(c.actions@) }
}

pub open spec fn clauses_model(s: Seq<IfCondition>) -> Seq<MIfCondition>
    decreases s,
{
    if s.len() == 0 {
        Seq::empty()
    } else {
        seq![clause_model(s[0])] + clauses_model(s.drop_first())
    }
}

pub open spec fn branch_model(b: Branch) -> MBranch
    decreases b,
{
    MBranch {
        if_conditions: clauses_model(b.if_conditions@),
        else_actions: actions_model(b.else_actions@),
    }
}

pub open spec fn branches_model(s: Seq<Branch>) -> Seq<MBranch>
    decreases s,
{
    if s.len() == 0 {
        Seq::empty()
    } else {
        seq![branch_model(s[0])] + branches_model(s.drop_first())
    }
}

/// One planet type.
#[derive(Debug, PartialEq)]
pub struct PlanetTypeData {
    pub name: String,
    pub planet_class: PlanetClass,
    pub abundances: Vec<GoodAbundance>,
    pub asset_location: String,
    pub setup_conditions: Vec<Branch>,
    pub terraform_conditions: Vec<Branch>,
}

pub struct MPlanetTypeData {
    pub name: Seq<char>,
    pub planet_class: PlanetClass,
    pub abundances: Seq<MGoodAbundance>,
    pub asset_location: Seq<char>,
    pub setup_conditions: Seq<MBranch>,
    pub terraform_conditions: Seq<MBranch>,
}

impl View for PlanetTypeData {
    type V = MPlanetTypeData;

    open spec fn view(&self) -> MPlanetTypeData {
        MPlanetTypeData {
            name: self.name@,
            planet_class: self.planet_class,
            abundances: seq_view(self.abundances@),
            asset_location: self.asset_location@,
            setup_conditions: branches_model(self.setup_conditions@),
            terraform_conditions: branches_model(self.terraform_conditions@),
        }
    }
}

pub open spec fn planet_type_default() -> MPlanetTypeData {
    MPlanetTypeData {
        name: Seq::empty(),
        planet_class: PlanetClass::Rocky,
        abundances: Seq::empty(),
        asset_location: Seq::empty(),
        setup_conditions: Seq::empty(),
        terraform_conditions: Seq::empty(),
    }
}

impl Default for PlanetTypeData {
    fn default() -> (r: PlanetTypeData)
        ensures
            r@ == planet_type_default(),
    {
        let r = PlanetTypeData {
            name: String::new(),
            planet_class: PlanetClass::Rocky,
            abundances: Vec::new(),
            asset_location: String::new(),
            setup_conditions: Vec::new(),
            terraform_conditions: Vec::new(),
        };
        proof {
            assert(r@.abundances =~= planet_type_default().abundances);
            assert(r@.setup_conditions =~= planet_type_default().setup_conditions);
            assert(r@.terraform_conditions =~= planet_type_default().terraform_conditions);
        }
        r
    }
}

/// The record an entry list denotes: each field holds the last occurrence
/// of its keyword, or the default.
pub open spec fn planet_type_of(m: crate::engine::MRec) -> MPlanetTypeData {
    MPlanetTypeData {
        name: m.id->S_0,
        planet_class: crate::engine::last_pclass(m.entries, crate::schema::F_CLASS),
        abundances: crate::engine::last_abunds(m.entries, crate::schema::F_ABUNDANCES),
        asset_location: crate::engine::last_str(m.entries, crate::schema::F_ASSET_LOCATION, Seq::empty()),
        setup_conditions: crate::engine::last_branch_seq(m.entries, crate::schema::F_SETUP),
        terraform_conditions: crate::engine::last_branches(m.entries, crate::schema::F_ON_TERRAFORM),
    }
}

proof fn lemma_planet_type_entry(e: (u32, crate::schema::MTypedValue))
    requires
        crate::engine::entry_wf(crate::schema::SchemaId::PlanetTypes, e),
    ensures
        (e.0 == crate::schema::F_CLASS && e.1 is TPClass) || (e.0 == crate::schema::F_ABUNDANCES && e.1 is TAbunds) || (e.0 == crate::schema::F_ASSET_LOCATION && e.1 is TStr) || (e.0 == crate::schema::F_SETUP && e.1 is TBranch) || (e.0 == crate::schema::F_ON_TERRAFORM && e.1 is TBranches),
{
    reveal(crate::schema::field_of);
    let kw = choose|kw: Seq<char>|
        #![trigger crate::schema::field_of(crate::schema::SchemaId::PlanetTypes, kw)]
        match crate::schema::field_of(crate::schema::SchemaId::PlanetTypes, kw) {
            Some(p) => p.0 == e.0 && crate::engine::tv_matches(p.1, e.1),
            None => false,
        };
}

fn build_planet_type(rec: crate::engine::Rec) -> (r: PlanetTypeData)
    requires
        crate::engine::mrec_wf(crate::schema::SchemaId::PlanetTypes, crate::engine::rec_model(rec)),
    ensures
        r@ == planet_type_of(crate::engine::rec_model(rec)),
{
    let ghost m = crate::engine::rec_model(rec);
    let mut r = PlanetTypeData::default();
    let crate::engine::Rec { id, id_start, id_end, entries } = rec;
    match id {
        crate::engine::RecId::S(s) => {
            r.name = s;
        },
        crate::engine::RecId::N(_) => {
            proof {
                assert(false);
            }
        },
    }
    let mut es = entries;
    let ghost mut processed: Seq<(u32, crate::schema::MTypedValue)> = Seq::empty();
    proof {
        assert(processed + crate::engine::entries_model(es@) =~= m.entries);
    }
    while es.len() > 0
        invariant
            processed + crate::engine::entries_model(es@) =~= m.entries,
            crate::engine::entries_ok(crate::schema::SchemaId::PlanetTypes, crate::engine::entries_model(es@)),
            r@.name == m.id->S_0,
            r@.planet_class == crate::engine::last_pclass(processed, crate::schema::F_CLASS),
            r@.abundances == crate::engine::last_abunds(processed, crate::schema::F_ABUNDANCES),
            r@.asset_location == crate::engine::last_str(processed, crate::schema::F_ASSET_LOCATION, Seq::empty()),
            r@.setup_conditions == crate::engine::last_branch_seq(processed, crate::schema::F_SETUP),
            r@.terraform_conditions == crate::engine::last_branches(processed, crate::schema::F_ON_TERRAFORM),
        decreases es@.len(),
    {
        let ghost es_old = es@;
        let e = es.remove(0);
        let ghost em = (e.0, crate::schema::tv_model(e.1));
        proof {
            assert(es@ =~= es_old.drop_first());
            assert(crate::engine::entries_model(es_old) == seq![(es_old[0].0, crate::schema::tv_model(es_old[0].1))]
                + crate::engine::entries_model(es_old.drop_first()));
            assert(crate::engine::entries_model(es_old)[0] == em);
            assert(crate::engine::entry_wf(crate::schema::SchemaId::PlanetTypes, em));
            lemma_planet_type_entry(em);
            assert forall|j: int| 0 <= j < crate::engine::entries_model(es@).len() implies crate::engine::entry_wf(
                crate::schema::SchemaId::PlanetTypes,
                #[trigger] crate::engine::entries_model(es@)[j],
            ) by {
                assert(crate::engine::entries_model(es@)[j] == crate::engine::entries_model(es_old)[j + 1]);
            }
            crate::engine::lemma_last_entry_push(processed, em, crate::schema::F_CLASS);
            crate::engine::lemma_last_entry_push(processed, em, crate::schema::F_ABUNDANCES);
            crate::engine::lemma_last_entry_push(processed, em, crate::schema::F_ASSET_LOCATION);
            crate::engine::lemma_last_entry_push(processed, em, crate::schema::F_SETUP);
            crate::engine::lemma_last_entry_push(processed, em, crate::schema::F_ON_TERRAFORM);
            assert(processed.push(em) + crate::engine::entries_model(es@) =~= m.entries);
        }
        let (fid, tv) = e;
        if fid == crate::schema::F_CLASS {
            match tv {
                crate::schema::TypedValue::TPClass(s) => {
                    r.planet_class = s;
                },
                _ => {
                    proof {
                        assert(false);
                    }
                },
            }
        } else if fid == crate::schema::F_ABUNDANCES {
            match tv {
                crate::schema::TypedValue::TAbunds(s) => {
                    r.abundances = s;
                },
                _ => {
                    proof {
                        assert(false);
                    }
                },
            }
        } else if fid == crate::schema::F_ASSET_LOCATION {
            match tv {
                crate::schema::TypedValue::TStr(s) => {
                    r.asset_location = s;
                },
                _ => {
                    proof {
                        assert(false);
                    }
                },
            }
        } else if fid == crate::schema::F_SETUP {
            match tv {
                crate::schema::TypedValue::TBranch(b) => {
                    let mut one: Vec<crate::planet_types::Branch> = Vec::new();
                    one.push(b);
                    proof {
                        assert(one@ =~= seq![one@[0]] + Seq::<crate::planet_types::Branch>::empty());
                        assert(crate::planet_types::branches_model(one@.drop_first()) =~= Seq::<crate::planet_types::MBranch>::empty());
                    }
                    r.setup_conditions = one;
                },
                _ => {
                    proof {
                        assert(false);
                    }
                },
            }
        } else {
            proof {
                assert(fid == crate::schema::F_ON_TERRAFORM);
            }
            match tv {
                crate::schema::TypedValue::TBranches(bs) => {
                    r.terraform_conditions = bs;
                },
                _ => {
                    proof {
                        assert(false);
                    }
                },
            }
        }
        proof {
            processed = processed.push(em);
        }
    }
    proof {
        assert(crate::engine::entries_model(es@) =~= Seq::<(u32, crate::schema::MTypedValue)>::empty());
        assert(processed =~= m.entries);
    }
    r
}

/// The typed records a section's record list denotes, in order.
pub open spec fn planet_types_of(rs: Seq<crate::engine::MRec>) -> Seq<MPlanetTypeData>
    decreases rs,
{
    if rs.len() == 0 {
        Seq::empty()
    } else {
        seq![planet_type_of(rs[0])] + planet_types_of(rs.drop_first())
    }
}

fn build_planet_type_list(recs: Vec<crate::engine::Rec>) -> (r: Vec<PlanetTypeData>)
    requires
        crate::engine::mrecs_wf(crate::schema::SchemaId::PlanetTypes, crate::engine::recs_model(recs@)),
    ensures
        crate::common::seq_view(r@) == planet_types_of(crate::engine::recs_model(recs@)),
    decreases recs@.len(),
{
    let mut recs = recs;
    if recs.len() == 0 {
        let r: Vec<PlanetTypeData> = Vec::new();
        proof {
            assert(crate::common::seq_view(r@) =~= Seq::<MPlanetTypeData>::empty());
        }
        return r;
    }
    let ghost rs0 = recs@;
    let first = recs.remove(0);
    proof {
        assert(recs@ =~= rs0.drop_first());
        assert(crate::engine::recs_model(rs0) == seq![crate::engine::rec_model(rs0[0])] + crate::engine::recs_model(rs0.drop_first()));
        assert(crate::engine::recs_model(rs0)[0] == crate::engine::rec_model(first));
        assert(crate::engine::recs_model(rs0).drop_first() =~= crate::engine::recs_model(recs@));
        assert(crate::engine::mrec_wf(crate::schema::SchemaId::PlanetTypes, crate::engine::rec_model(first)));
        assert forall|j: int| 0 <= j < crate::engine::recs_model(recs@).len() implies crate::engine::mrec_wf(
            crate::schema::SchemaId::PlanetTypes,
            #[trigger] crate::engine::recs_model(recs@)[j],
        ) by {
            assert(crate::engine::recs_model(recs@)[j] == crate::engine::recs_model(rs0)[j + 1]);
        }
    }
    let d = build_planet_type(first);
    let mut rest = build_planet_type_list(recs);
    let ghost r0 = rest@;
    rest.insert(0, d);
    proof {
        assert(rest@ =~= seq![rest@[0]] + r0);
        assert(crate::common::seq_view(rest@) =~= seq![rest@[0]@] + crate::common::seq_view(r0));
    }
    rest
}

impl PlanetTypeData {
    /// Parses every record of a `#planet_types` section body from its tokens.
    pub fn parse_tokens(toks: &Vec<crate::lexer::Tok>) -> (r: Result<Vec<PlanetTypeData>, crate::diag::Diagnostic>)
        requires
            crate::lexer::mtoks_wf(crate::lexer::toks_model(toks@)),
        ensures
            match (r, crate::engine::spec_records(crate::schema::SchemaId::PlanetTypes, crate::lexer::toks_model(toks@), 0)) {
                (Ok(ds), Ok(mrs)) => crate::common::seq_view(ds@) == planet_types_of(mrs),
                (Err(d), Err(md)) => d@ == md,
                _ => false,
            },
    {
        match crate::engine::p_records(crate::schema::SchemaId::PlanetTypes, toks, 0) {
            Ok(recs) => Ok(build_planet_type_list(recs)),
            Err(d) => Err(d),
        }
    }
}

} // verus!

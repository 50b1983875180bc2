//! The schema registry and value conversion.
//!
//! Each content schema declares, per field keyword, a slot and the kind of
//! value it takes.  The generic engine looks the keyword up here, converts
//! the parsed raw value to the declared kind, and hands `(slot, value)`
//! entries to the record builders, which apply last-write-wins.

use vstd::prelude::*;

use crate::augmentations::{Effect as AugEffect, MEffect as MAugEffect};
use crate::building::{CustomGood, MCustomGood, MPlanetFilter, MStation, PlanetFilter, Station};
use crate::common::{
    seq_view, GoodAbundance, GoodConsumes, MGoodAbundance, MGoodConsumes, Temperature,
};
use crate::decimal::{Decimal, MANT_LIMIT};
use crate::designation::{BuildingLimit, Housing, PopulationImpact, PrivateBuildings};
use crate::diag::{DiagKind, Diagnostic, MDiag};
use crate::goods::{ConsumptionType, GoodType, SurvivalConditions};
use crate::planet_types::{branch_model, Branch, MBranch, PlanetClass};
use crate::planet_types::branches_model;
use crate::raw::{
    field_model, fields_model, fields_wf, node_model, node_wf, raw_model, raw_wf, raws_model,
    raws_wf, MRaw, MRawField, MRawNode, RawField, RawNode, RawValue,
};
use crate::ship::ShipClass;
use crate::species_trait::Effect as TraitEffect;
use crate::stellar_system::{
    MMoonData, MNaturalResource, MPlanetData, MStarData, MoonData, NaturalResource, PlanetData,
    StarData,
};
use crate::text::string_is;

verus! {

/// The content schemas the registry knows.
#[derive(Clone, Copy, Debug, PartialEq, Eq, Structural)]
pub enum SchemaId {
    AsteroidMining,
    Augmentations,
    Buildings,
    Designations,
    Goods,
    Orbitals,
    PlanetTypes,
    Ranks,
    Ships,
    Shipyards,
    ShipyardBuildings,
    SpecieTraits,
    StapledonSwarms,
    StellarSystems,
    Techs,
}

/// The kind of value a field takes.
#[derive(Clone, Copy, Debug, PartialEq, Eq, Structural)]
pub enum FieldKind {
    KStr,
    KBool,
    KU8,
    KU16,
    KU64,
    KDec,
    KTempC,
    KTempK,
    KGoods,
    KCGoods,
    KAbundances,
    KStations,
    KFilters,
    KAugEffects,
    KTraitEffects,
    KGoodType,
    KConsumption,
    KPlanetClass,
    KShipClass,
    KBuildingLimit,
    KHousing,
    KPrivateBuildings,
    KPopImpact,
    KImpact,
    KNatResources,
    KStar,
    KPlanetList,
    KMoonList,
    KBranch,
    KBranchList,
}

/// A converted field value, ready to fold into a record.
#[derive(Debug)]
pub enum TypedValue {
    TStr(String),
    TBool(bool),
    TU8(u8),
    TU16(u16),
    TU64(u64),
    TDec(Decimal),
    TTemp(Temperature),
    TGoods(Vec<GoodConsumes>),
    TCGoods(Vec<CustomGood>),
    TAbunds(Vec<GoodAbundance>),
    TStations(Vec<Station>),
    TFilters(Vec<PlanetFilter>),
    TAugEffects(Vec<AugEffect>),
    TTraitEffects(Vec<TraitEffect>),
    TGoodType(GoodType),
    TCons(ConsumptionType),
    TPClass(PlanetClass),
    TSClass(ShipClass),
    TBLimit(BuildingLimit),
    THousing(Housing),
    TPBuild(PrivateBuildings),
    TPopImp(PopulationImpact),
    TImpact(Decimal, Decimal),
    TNatRes(Vec<NaturalResource>),
    TStar(StarData),
    TPlanets(Vec<PlanetData>),
    TMoons(Vec<MoonData>),
    TBranch(Branch),
    TBranches(Vec<Branch>),
}

/// Model of a converted field value.
pub enum MTypedValue {
    TStr(Seq<char>),
    TBool(bool),
    TU8(u8),
    TU16(u16),
    TU64(u64),
    TDec(Decimal),
    TTemp(Temperature),
    TGoods(Seq<MGoodConsumes>),
    TCGoods(Seq<MCustomGood>),
    TAbunds(Seq<MGoodAbundance>),
    TStations(Seq<MStation>),
    TFilters(Seq<MPlanetFilter>),
    TAugEffects(Seq<MAugEffect>),
    TTraitEffects(Seq<TraitEffect>),
    TGoodType(GoodType),
    TCons(ConsumptionType),
    TPClass(PlanetClass),
    TSClass(ShipClass),
    TBLimit(BuildingLimit),
    THousing(Housing),
    TPBuild(PrivateBuildings),
    TPopImp(PopulationImpact),
    TImpact(Decimal, Decimal),
    TNatRes(Seq<MNaturalResource>),
    TStar(MStarData),
    TPlanets(Seq<MPlanetData>),
    TMoons(Seq<MMoonData>),
    TBranch(MBranch),
    TBranches(Seq<MBranch>),
}

pub open spec fn tv_model(tv: TypedValue) -> MTypedValue
    decreases tv,
{
    match tv {
        TypedValue::TStr(s) => MTypedValue::TStr(s@),
        TypedValue::TBool(b) => MTypedValue::TBool(b),
        TypedValue::TU8(x) => MTypedValue::TU8(x),
        TypedValue::TU16(x) => MTypedValue::TU16(x),
        TypedValue::TU64(x) => MTypedValue::TU64(x),
        TypedValue::TDec(d) => MTypedValue::TDec(d),
        TypedValue::TTemp(t) => MTypedValue::TTemp(t),
        TypedValue::TGoods(v) => MTypedValue::TGoods(seq_view(v@)),
        TypedValue::TCGoods(v) => MTypedValue::TCGoods(seq_view(v@)),
        TypedValue::TAbunds(v) => MTypedValue::TAbunds(seq_view(v@)),
        TypedValue::TStations(v) => MTypedValue::TStations(seq_view(v@)),
        TypedValue::TFilters(v) => MTypedValue::TFilters(seq_view(v@)),
        TypedValue::TAugEffects(v) => MTypedValue::TAugEffects(seq_view(v@)),
        TypedValue::TTraitEffects(v) => MTypedValue::TTraitEffects(v@),
        TypedValue::TGoodType(g) => MTypedValue::TGoodType(g),
        TypedValue::TCons(c) => MTypedValue::TCons(c),
        TypedValue::TPClass(c) => MTypedValue::TPClass(c),
        TypedValue::TSClass(c) => MTypedValue::TSClass(c),
        TypedValue::TBLimit(b) => MTypedValue::TBLimit(b),
        TypedValue::THousing(h) => MTypedValue::THousing(h),
        TypedValue::TPBuild(p) => MTypedValue::TPBuild(p),
        TypedValue::TPopImp(p) => MTypedValue::TPopImp(p),
        TypedValue::TImpact(a, r) => MTypedValue::TImpact(a, r),
        TypedValue::TNatRes(v) => MTypedValue::TNatRes(seq_view(v@)),
        TypedValue::TStar(s) => MTypedValue::TStar(s@),
        TypedValue::TPlanets(v) => MTypedValue::TPlanets(seq_view(v@)),
        TypedValue::TMoons(v) => MTypedValue::TMoons(seq_view(v@)),
        TypedValue::TBranch(b) => MTypedValue::TBranch(branch_model(b)),
        TypedValue::TBranches(v) => MTypedValue::TBranches(branches_model(v@)),
    }
}

/// The name of a raw value's shape, for diagnostics.
pub open spec fn node_name(n: MRawNode) -> Seq<char> {
    match n {
        MRawNode::Str(_) => "string"@,
        MRawNode::Int(_) => "integer"@,
        MRawNode::Dec(_) => "decimal"@,
        MRawNode::Bool(_) => "boolean"@,
        MRawNode::Tag(_) => "keyword"@,
        MRawNode::Call(_, _) => "call"@,
        MRawNode::Block(_, _) => "block"@,
        MRawNode::List(_) => "list"@,
        MRawNode::Rec(_) => "record"@,
    }
}

/// Model of a wrong-value-kind diagnostic.
pub open spec fn m_bad(v: MRaw, exp: Seq<Seq<char>>) -> MDiag {
    MDiag {
        kind: DiagKind::BadValue,
        start: v.start,
        end: v.end,
        expected: exp,
        found: node_name(v.node),
    }
}

/// Model of an out-of-range diagnostic: the literal does not fit the
/// field's declared width.
pub open spec fn m_range(v: MRaw, bound: Seq<char>) -> MDiag {
    MDiag {
        kind: DiagKind::OutOfRange,
        start: v.start,
        end: v.end,
        expected: seq![bound],
        found: node_name(v.node),
    }
}

/// Model of an unknown-field diagnostic: the keyword names no field of the
/// active record shape; the valid keywords are listed.
pub open spec fn m_unknown_field(f: MRawField, kws: Seq<Seq<char>>) -> MDiag {
    MDiag {
        kind: DiagKind::UnknownField,
        start: f.key_start,
        end: f.key_end,
        expected: kws,
        found: f.key,
    }
}

fn node_found(n: &RawNode) -> (r: String)
    ensures
        r@ == node_name(node_model(*n)),
{
    match n {
        RawNode::Str(_) => String::from_str("string"),
        RawNode::Int(_) => String::from_str("integer"),
        RawNode::Dec(_) => String::from_str("decimal"),
        RawNode::Bool(_) => String::from_str("boolean"),
        RawNode::Tag(_) => String::from_str("keyword"),
        RawNode::Call(_, _) => String::from_str("call"),
        RawNode::Block(_, _) => String::from_str("block"),
        RawNode::List(_) => String::from_str("list"),
        RawNode::Rec(_) => String::from_str("record"),
    }
}

fn bad_value(v: &RawValue, exp: Vec<String>) -> (r: Diagnostic)
    ensures
        r@ == m_bad(raw_model(*v), exp.deep_view()),
{
    Diagnostic {
        kind: DiagKind::BadValue,
        start: v.start,
        end: v.end,
        expected: exp,
        found: node_found(&v.node),
    }
}

fn range_err(v: &RawValue, bound: &str) -> (r: Diagnostic)
    ensures
        r@ == m_range(raw_model(*v), bound@),
{
    let mut exp: Vec<String> = Vec::new();
    exp.push(String::from_str(bound));
    let r = Diagnostic {
        kind: DiagKind::OutOfRange,
        start: v.start,
        end: v.end,
        expected: exp,
        found: node_found(&v.node),
    };
    proof {
        assert(r@.expected =~= seq![bound@]);
    }
    r
}

fn unknown_field(key: &String, key_start: usize, key_end: usize, kws: Vec<String>) -> (r:
    Diagnostic)
    ensures
        r@ == (MDiag {
            kind: DiagKind::UnknownField,
            start: key_start as int,
            end: key_end as int,
            expected: kws.deep_view(),
            found: key@,
        }),
{
    Diagnostic {
        kind: DiagKind::UnknownField,
        start: key_start,
        end: key_end,
        expected: kws,
        found: key.clone(),
    }
}

fn exp1(a: &str) -> (r: Vec<String>)
    ensures
        r.deep_view() =~= seq![a@],
{
    let mut v: Vec<String> = Vec::new();
    v.push(String::from_str(a));
    proof {
        assert(v.deep_view() =~= seq![a@]);
    }
    v
}

fn exp2(a: &str, b: &str) -> (r: Vec<String>)
    ensures
        r.deep_view() =~= seq![a@, b@],
{
    let mut v: Vec<String> = Vec::new();
    v.push(String::from_str(a));
    v.push(String::from_str(b));
    proof {
        assert(v.deep_view() =~= seq![a@, b@]);
    }
    v
}

fn exp3(a: &str, b: &str, c: &str) -> (r: Vec<String>)
    ensures
        r.deep_view() =~= seq![a@, b@, c@],
{
    let mut v: Vec<String> = Vec::new();
    v.push(String::from_str(a));
    v.push(String::from_str(b));
    v.push(String::from_str(c));
    proof {
        assert(v.deep_view() =~= seq![a@, b@, c@]);
    }
    v
}

/// Conversion of a raw value to a string field.
pub open spec fn sc_str(v: MRaw) -> Result<Seq<char>, MDiag> {
    match v.node {
        MRawNode::Str(s) => Ok(s),
        _ => Err(m_bad(v, seq!["string"@])),
    }
}

fn ec_str(v: RawValue) -> (r: Result<String, Diagnostic>)
    ensures
        match (r, sc_str(raw_model(v))) {
            (Ok(s), Ok(ms)) => s@ == ms,
            (Err(d), Err(md)) => d@ == md,
            _ => false,
        },
{
    match v.node {
        RawNode::Str(s) => Ok(s),
        _ => {
            let v2 = RawValue { node: v.node, start: v.start, end: v.end };
            Err(bad_value(&v2, exp1("string")))
        },
    }
}

/// Conversion to a boolean field.
pub open spec fn sc_bool(v: MRaw) -> Result<bool, MDiag> {
    match v.node {
        MRawNode::Bool(b) => Ok(b),
        _ => Err(m_bad(v, seq!["boolean"@])),
    }
}

fn ec_bool(v: &RawValue) -> (r: Result<bool, Diagnostic>)
    ensures
        match (r, sc_bool(raw_model(*v))) {
            (Ok(b), Ok(mb)) => b == mb,
            (Err(d), Err(md)) => d@ == md,
            _ => false,
        },
{
    match &v.node {
        RawNode::Bool(b) => Ok(*b),
        _ => Err(bad_value(v, exp1("boolean"))),
    }
}

/// Conversion to an eight-bit integer field: an out-of-width literal is a
/// range error, never a wrap.
pub open spec fn sc_u8(v: MRaw) -> Result<u8, MDiag> {
    match v.node {
        MRawNode::Int(x) => if x <= 255 {
            Ok(x as u8)
        } else {
            Err(m_range(v, "integer 0..=255"@))
        },
        _ => Err(m_bad(v, seq!["integer"@])),
    }
}

fn ec_u8(v: &RawValue) -> (r: Result<u8, Diagnostic>)
    ensures
        match (r, sc_u8(raw_model(*v))) {
            (Ok(x), Ok(mx)) => x == mx,
            (Err(d), Err(md)) => d@ == md,
            _ => false,
        },
{
    match &v.node {
        RawNode::Int(x) => if *x <= 255 {
            Ok(*x as u8)
        } else {
            Err(range_err(v, "integer 0..=255"))
        },
        _ => Err(bad_value(v, exp1("integer"))),
    }
}

/// Conversion to a sixteen-bit integer field.
pub open spec fn sc_u16(v: MRaw) -> Result<u16, MDiag> {
    match v.node {
        MRawNode::Int(x) => if x <= 65535 {
            Ok(x as u16)
        } else {
            Err(m_range(v, "integer 0..=65535"@))
        },
        _ => Err(m_bad(v, seq!["integer"@])),
    }
}

fn ec_u16(v: &RawValue) -> (r: Result<u16, Diagnostic>)
    ensures
        match (r, sc_u16(raw_model(*v))) {
            (Ok(x), Ok(mx)) => x == mx,
            (Err(d), Err(md)) => d@ == md,
            _ => false,
        },
{
    match &v.node {
        RawNode::Int(x) => if *x <= 65535 {
            Ok(*x as u16)
        } else {
            Err(range_err(v, "integer 0..=65535"))
        },
        _ => Err(bad_value(v, exp1("integer"))),
    }
}

/// Conversion to a sixty-four-bit integer field.
pub open spec fn sc_u64(v: MRaw) -> Result<u64, MDiag> {
    match v.node {
        MRawNode::Int(x) => Ok(x),
        _ => Err(m_bad(v, seq!["integer"@])),
    }
}

fn ec_u64(v: &RawValue) -> (r: Result<u64, Diagnostic>)
    ensures
        match (r, sc_u64(raw_model(*v))) {
            (Ok(x), Ok(mx)) => x == mx,
            (Err(d), Err(md)) => d@ == md,
            _ => false,
        },
{
    match &v.node {
        RawNode::Int(x) => Ok(*x),
        _ => Err(bad_value(v, exp1("integer"))),
    }
}

/// Conversion to an exact-decimal field; an integer literal is accepted
/// at scale zero.
pub open spec fn sc_dec(v: MRaw) -> Result<Decimal, MDiag> {
    match v.node {
        MRawNode::Dec(d) => Ok(d),
        MRawNode::Int(x) => Ok(Decimal { mant: x as i128, scale: 0 }),
        _ => Err(m_bad(v, seq!["decimal"@, "integer"@])),
    }
}

fn ec_dec(v: &RawValue) -> (r: Result<Decimal, Diagnostic>)
    requires
        raw_wf(raw_model(*v)),
    ensures
        match (r, sc_dec(raw_model(*v))) {
            (Ok(d), Ok(md)) => d == md && d.wf(),
            (Err(d), Err(md)) => d@ == md,
            _ => false,
        },
{
    match &v.node {
        RawNode::Dec(d) => Ok(*d),
        RawNode::Int(x) => Ok(Decimal { mant: *x as i128, scale: 0 }),
        _ => Err(bad_value(v, exp2("decimal", "integer"))),
    }
}

/// Conversion of a Celsius literal to a temperature.
pub open spec fn sc_temp_c(v: MRaw) -> Result<Temperature, MDiag> {
    match sc_dec(v) {
        Ok(d) => match Temperature::spec_from_celsius(d) {
            Some(t) => Ok(t),
            None => Err(m_range(v, "representable temperature"@)),
        },
        Err(e) => Err(e),
    }
}

fn ec_temp_c(v: &RawValue) -> (r: Result<Temperature, Diagnostic>)
    requires
        raw_wf(raw_model(*v)),
    ensures
        match (r, sc_temp_c(raw_model(*v))) {
            (Ok(t), Ok(mt)) => t == mt,
            (Err(d), Err(md)) => d@ == md,
            _ => false,
        },
{
    match ec_dec(v) {
        Ok(d) => match Temperature::from_celsius_checked(d) {
            Some(t) => Ok(t),
            None => Err(range_err(v, "representable temperature")),
        },
        Err(e) => Err(e),
    }
}

/// Conversion of a Kelvin literal to a temperature.
pub open spec fn sc_temp_k(v: MRaw) -> Result<Temperature, MDiag> {
    match sc_dec(v) {
        Ok(d) => Ok(Temperature { kelvin_exact: d }),
        Err(e) => Err(e),
    }
}

fn ec_temp_k(v: &RawValue) -> (r: Result<Temperature, Diagnostic>)
    requires
        raw_wf(raw_model(*v)),
    ensures
        match (r, sc_temp_k(raw_model(*v))) {
            (Ok(t), Ok(mt)) => t == mt,
            (Err(d), Err(md)) => d@ == md,
            _ => false,
        },
{
    match ec_dec(v) {
        Ok(d) => Ok(Temperature { kelvin_exact: d }),
        Err(e) => Err(e),
    }
}

/// Conversion of one `{ good_id = ... amount = ... }` entry, applying
/// last-write-wins on repeated keywords.
pub open spec fn spec_good_fields(cur: MGoodConsumes, fs: Seq<MRawField>) -> Result<
    MGoodConsumes,
    MDiag,
>
    decreases fs,
{
    if fs.len() == 0 {
        Ok(cur)
    } else {
        let f = fs[0];
        if f.key == "good_id"@ {
            match sc_str(f.value) {
                Ok(s) => spec_good_fields(MGoodConsumes { id: s, ..cur }, fs.drop_first()),
                Err(e) => Err(e),
            }
        } else if f.key == "amount"@ {
            match sc_dec(f.value) {
                Ok(d) => spec_good_fields(MGoodConsumes { amount: d, ..cur }, fs.drop_first()),
                Err(e) => Err(e),
            }
        } else {
            Err(m_unknown_field(f, seq!["good_id"@, "amount"@]))
        }
    }
}

fn good_fold(cur: GoodConsumes, fs: Vec<RawField>) -> (r: Result<GoodConsumes, Diagnostic>)
    requires
        fields_wf(fields_model(fs@)),
    ensures
        match (r, spec_good_fields(cur@, fields_model(fs@))) {
            (Ok(g), Ok(mg)) => g@ == mg,
            (Err(d), Err(md)) => d@ == md,
            _ => false,
        },
    decreases fs@.len(),
{
    let mut fs = fs;
    let mut cur = cur;
    if fs.len() == 0 {
        return Ok(cur);
    }
    let ghost fs0 = fs@;
    let f = fs.remove(0);
    proof {
        assert(fs@ =~= fs0.drop_first());
        assert(fields_model(fs0) == seq![field_model(fs0[0])] + fields_model(fs0.drop_first()));
        assert(fields_model(fs0)[0] == field_model(f));
        assert(fields_model(fs0).drop_first() =~= fields_model(fs@));
    }
    if string_is(&f.key, "good_id") {
        match ec_str(f.value) {
            Ok(s) => {
                cur.id = s;
                good_fold(cur, fs)
            },
            Err(d) => Err(d),
        }
    } else if string_is(&f.key, "amount") {
        match ec_dec(&f.value) {
            Ok(d) => {
                cur.amount = d;
                good_fold(cur, fs)
            },
            Err(d) => Err(d),
        }
    } else {
        Err(unknown_field(&f.key, f.key_start, f.key_end, exp2("good_id", "amount")))
    }
}

/// Conversion of one good/amount list entry: it must be a record.
pub open spec fn spec_good_pair(v: MRaw) -> Result<MGoodConsumes, MDiag> {
    match v.node {
        MRawNode::Rec(fs) => spec_good_fields(
            MGoodConsumes { id: Seq::empty(), amount: Decimal { mant: 0, scale: 0 } },
            fs,
        ),
        _ => Err(m_bad(v, seq!["record"@])),
    }
}

fn good_pair(v: RawValue) -> (r: Result<GoodConsumes, Diagnostic>)
    requires
        raw_wf(raw_model(v)),
    ensures
        match (r, spec_good_pair(raw_model(v))) {
            (Ok(g), Ok(mg)) => g@ == mg,
            (Err(d), Err(md)) => d@ == md,
            _ => false,
        },
{
    match v.node {
        RawNode::Rec(fs) => {
            let base = GoodConsumes { id: String::new(), amount: Decimal::zero() };
            good_fold(base, fs)
        },
        _ => {
            let v2 = RawValue { node: v.node, start: v.start, end: v.end };
            Err(bad_value(&v2, exp1("record")))
        },
    }
}

/// Conversion of a `[ {...} ... ]` list of good/amount entries.
pub open spec fn spec_goods(items: Seq<MRaw>) -> Result<Seq<MGoodConsumes>, MDiag>
    decreases items,
{
    if items.len() == 0 {
        Ok(Seq::empty())
    } else {
        match spec_good_pair(items[0]) {
            Ok(g) => match spec_goods(items.drop_first()) {
                Ok(rest) => Ok(seq![g] + rest),
                Err(d) => Err(d),
            },
            Err(d) => Err(d),
        }
    }
}

fn conv_goods(items: Vec<RawValue>) -> (r: Result<Vec<GoodConsumes>, Diagnostic>)
    requires
        raws_wf(raws_model(items@)),
    ensures
        match (r, spec_goods(raws_model(items@))) {
            (Ok(gs), Ok(mgs)) => seq_view(gs@) == mgs,
            (Err(d), Err(md)) => d@ == md,
            _ => false,
        },
    decreases items@.len(),
{
    let mut items = items;
    if items.len() == 0 {
        let gs: Vec<GoodConsumes> = Vec::new();
        proof {
            assert(seq_view(gs@) =~= Seq::<MGoodConsumes>::empty());
        }
        return Ok(gs);
    }
    let ghost is0 = items@;
    let first = items.remove(0);
    proof {
        assert(items@ =~= is0.drop_first());
        assert(raws_model(is0) == seq![raw_model(is0[0])] + raws_model(is0.drop_first()));
        assert(raws_model(is0)[0] == raw_model(first));
        assert(raws_model(is0).drop_first() =~= raws_model(items@));
    }
    match good_pair(first) {
        Ok(g) => match conv_goods(items) {
            Ok(mut rest) => {
                let ghost r0 = rest@;
                rest.insert(0, g);
                proof {
                    assert(rest@ =~= seq![rest@[0]] + r0);
                    assert(seq_view(rest@) =~= seq![rest@[0]@] + seq_view(r0));
                }
                Ok(rest)
            },
            Err(d) => Err(d),
        },
        Err(d) => Err(d),
    }
}

/// The same entries, wrapped as building goods.
pub open spec fn spec_cgoods(items: Seq<MRaw>) -> Result<Seq<MCustomGood>, MDiag> {
    match spec_goods(items) {
        Ok(gs) => Ok(gs.map_values(|g: MGoodConsumes| MCustomGood { id: g.id, amount: g.amount })),
        Err(d) => Err(d),
    }
}

fn conv_cgoods(items: Vec<RawValue>) -> (r: Result<Vec<CustomGood>, Diagnostic>)
    requires
        raws_wf(raws_model(items@)),
    ensures
        match (r, spec_cgoods(raws_model(items@))) {
            (Ok(gs), Ok(mgs)) => seq_view(gs@) == mgs,
            (Err(d), Err(md)) => d@ == md,
            _ => false,
        },
{
    match conv_goods(items) {
        Ok(gs) => {
            let mut out: Vec<CustomGood> = Vec::new();
            let gs = gs;
            let ghost gs0 = seq_view(gs@);
            let ghost mp = gs0.map_values(
                |g: MGoodConsumes| MCustomGood { id: g.id, amount: g.amount },
            );
            let mut i: usize = 0;
            proof {
                assert(seq_view(out@) =~= mp.take(0));
            }
            let n = gs.len();
            while i < n
                invariant
                    n == gs@.len(),
                    i <= n,
                    gs0 == seq_view(gs@),
                    mp == gs0.map_values(
                        |g: MGoodConsumes| MCustomGood { id: g.id, amount: g.amount },
                    ),
                    seq_view(out@) =~= mp.take(i as int),
                decreases n - i,
            {
                let g = &gs[i];
                let ghost o0 = seq_view(out@);
                out.push(CustomGood { id: g.id.clone(), amount: g.amount });
                proof {
                    assert(gs0[i as int] == gs@[i as int]@);
                    assert(mp[i as int] == (MCustomGood {
                        id: gs0[i as int].id,
                        amount: gs0[i as int].amount,
                    }));
                    assert(seq_view(out@) =~= o0.push(mp[i as int]));
                    assert(mp.take(i + 1) =~= mp.take(i as int).push(mp[i as int]));
                }
                i += 1;
            }
            proof {
                assert(mp.take(n as int) =~= mp);
            }
            Ok(out)
        },
        Err(d) => Err(d),
    }
}

/// The same entries, wrapped as natural resources.
pub open spec fn spec_natres(items: Seq<MRaw>) -> Result<Seq<MNaturalResource>, MDiag> {
    match spec_goods(items) {
        Ok(gs) => Ok(
            gs.map_values(|g: MGoodConsumes| MNaturalResource { id: g.id, amount: g.amount }),
        ),
        Err(d) => Err(d),
    }
}

fn conv_natres(items: Vec<RawValue>) -> (r: Result<Vec<NaturalResource>, Diagnostic>)
    requires
        raws_wf(raws_model(items@)),
    ensures
        match (r, spec_natres(raws_model(items@))) {
            (Ok(gs), Ok(mgs)) => seq_view(gs@) == mgs,
            (Err(d), Err(md)) => d@ == md,
            _ => false,
        },
{
    match conv_goods(items) {
        Ok(gs) => {
            let mut out: Vec<NaturalResource> = Vec::new();
            let gs = gs;
            let ghost gs0 = seq_view(gs@);
            let ghost mp = gs0.map_values(
                |g: MGoodConsumes| MNaturalResource { id: g.id, amount: g.amount },
            );
            let mut i: usize = 0;
            proof {
                assert(seq_view(out@) =~= mp.take(0));
            }
            let n = gs.len();
            while i < n
                invariant
                    n == gs@.len(),
                    i <= n,
                    gs0 == seq_view(gs@),
                    mp == gs0.map_values(
                        |g: MGoodConsumes| MNaturalResource { id: g.id, amount: g.amount },
                    ),
                    seq_view(out@) =~= mp.take(i as int),
                decreases n - i,
            {
                let g = &gs[i];
                let ghost o0 = seq_view(out@);
                out.push(NaturalResource { id: g.id.clone(), amount: g.amount });
                proof {
                    assert(gs0[i as int] == gs@[i as int]@);
                    assert(mp[i as int] == (MNaturalResource {
                        id: gs0[i as int].id,
                        amount: gs0[i as int].amount,
                    }));
                    assert(seq_view(out@) =~= o0.push(mp[i as int]));
                    assert(mp.take(i + 1) =~= mp.take(i as int).push(mp[i as int]));
                }
                i += 1;
            }
            proof {
                assert(mp.take(n as int) =~= mp);
            }
            Ok(out)
        },
        Err(d) => Err(d),
    }
}
/// Conversion of one abundance entry's fields.
pub open spec fn spec_abund_fields(cur: MGoodAbundance, fs: Seq<MRawField>) -> Result<
    MGoodAbundance,
    MDiag,
>
    decreases fs,
{
    if fs.len() == 0 {
        Ok(cur)
    } else {
        let f = fs[0];
        if f.key == "good_id"@ {
            match sc_str(f.value) {
                Ok(s) => spec_abund_fields(MGoodAbundance { id: s, ..cur }, fs.drop_first()),
                Err(e) => Err(e),
            }
        } else if f.key == "mean"@ {
            match sc_dec(f.value) {
                Ok(d) => spec_abund_fields(MGoodAbundance { mean: d, ..cur }, fs.drop_first()),
                Err(e) => Err(e),
            }
        } else if f.key == "std_dev"@ {
            match sc_dec(f.value) {
                Ok(d) => spec_abund_fields(MGoodAbundance { std_dev: d, ..cur }, fs.drop_first()),
                Err(e) => Err(e),
            }
        } else {
            Err(m_unknown_field(f, seq!["good_id"@, "mean"@, "std_dev"@]))
        }
    }
}

fn abund_fold(cur: GoodAbundance, fs: Vec<RawField>) -> (r: Result<GoodAbundance, Diagnostic>)
    requires
        fields_wf(fields_model(fs@)),
    ensures
        match (r, spec_abund_fields(cur@, fields_model(fs@))) {
            (Ok(g), Ok(mg)) => g@ == mg,
            (Err(d), Err(md)) => d@ == md,
            _ => false,
        },
    decreases fs@.len(),
{
    let mut fs = fs;
    let mut cur = cur;
    if fs.len() == 0 {
        return Ok(cur);
    }
    let ghost fs0 = fs@;
    let f = fs.remove(0);
    proof {
        assert(fs@ =~= fs0.drop_first());
        assert(fields_model(fs0) == seq![field_model(fs0[0])] + fields_model(fs0.drop_first()));
        assert(fields_model(fs0)[0] == field_model(f));
        assert(fields_model(fs0).drop_first() =~= fields_model(fs@));
    }
    if string_is(&f.key, "good_id") {
        match ec_str(f.value) {
            Ok(s) => {
                cur.id = s;
                abund_fold(cur, fs)
            },
            Err(d) => Err(d),
        }
    } else if string_is(&f.key, "mean") {
        match ec_dec(&f.value) {
            Ok(d) => {
                cur.mean = d;
                abund_fold(cur, fs)
            },
            Err(d) => Err(d),
        }
    } else if string_is(&f.key, "std_dev") {
        match ec_dec(&f.value) {
            Ok(d) => {
                cur.std_dev = d;
                abund_fold(cur, fs)
            },
            Err(d) => Err(d),
        }
    } else {
        Err(unknown_field(&f.key, f.key_start, f.key_end, exp3("good_id", "mean", "std_dev")))
    }
}

/// Conversion of one abundance list entry: it must be a record.
pub open spec fn spec_abund_rec(v: MRaw) -> Result<MGoodAbundance, MDiag> {
    match v.node {
        MRawNode::Rec(fs) => spec_abund_fields(
            MGoodAbundance {
                id: Seq::empty(),
                mean: Decimal { mant: 0, scale: 0 },
                std_dev: Decimal { mant: 0, scale: 0 },
            },
            fs,
        ),
        _ => Err(m_bad(v, seq!["record"@])),
    }
}

fn abund_rec(v: RawValue) -> (r: Result<GoodAbundance, Diagnostic>)
    requires
        raw_wf(raw_model(v)),
    ensures
        match (r, spec_abund_rec(raw_model(v))) {
            (Ok(g), Ok(mg)) => g@ == mg,
            (Err(d), Err(md)) => d@ == md,
            _ => false,
        },
{
    match v.node {
        RawNode::Rec(fs) => abund_fold(GoodAbundance::default(), fs),
        _ => {
            let v2 = RawValue { node: v.node, start: v.start, end: v.end };
            Err(bad_value(&v2, exp1("record")))
        },
    }
}

/// Conversion of an abundance list.
pub open spec fn spec_abunds(items: Seq<MRaw>) -> Result<Seq<MGoodAbundance>, MDiag>
    decreases items,
{
    if items.len() == 0 {
        Ok(Seq::empty())
    } else {
        match spec_abund_rec(items[0]) {
            Ok(g) => match spec_abunds(items.drop_first()) {
                Ok(rest) => Ok(seq![g] + rest),
                Err(d) => Err(d),
            },
            Err(d) => Err(d),
        }
    }
}

fn conv_abunds(items: Vec<RawValue>) -> (r: Result<Vec<GoodAbundance>, Diagnostic>)
    requires
        raws_wf(raws_model(items@)),
    ensures
        match (r, spec_abunds(raws_model(items@))) {
            (Ok(gs), Ok(mgs)) => seq_view(gs@) == mgs,
            (Err(d), Err(md)) => d@ == md,
            _ => false,
        },
    decreases items@.len(),
{
    let mut items = items;
    if items.len() == 0 {
        let gs: Vec<GoodAbundance> = Vec::new();
        proof {
            assert(seq_view(gs@) =~= Seq::<MGoodAbundance>::empty());
        }
        return Ok(gs);
    }
    let ghost is0 = items@;
    let first = items.remove(0);
    proof {
        assert(items@ =~= is0.drop_first());
        assert(raws_model(is0) == seq![raw_model(is0[0])] + raws_model(is0.drop_first()));
        assert(raws_model(is0)[0] == raw_model(first));
        assert(raws_model(is0).drop_first() =~= raws_model(items@));
    }
    match abund_rec(first) {
        Ok(g) => match conv_abunds(items) {
            Ok(mut rest) => {
                let ghost r0 = rest@;
                rest.insert(0, g);
                proof {
                    assert(rest@ =~= seq![rest@[0]] + r0);
                    assert(seq_view(rest@) =~= seq![rest@[0]@] + seq_view(r0));
                }
                Ok(rest)
            },
            Err(d) => Err(d),
        },
        Err(d) => Err(d),
    }
}

/// Conversion of one station entry's fields.
pub open spec fn spec_station_fields(cur: MStation, fs: Seq<MRawField>) -> Result<MStation, MDiag>
    decreases fs,
{
    if fs.len() == 0 {
        Ok(cur)
    } else {
        let f = fs[0];
        if f.key == "x"@ {
            match sc_dec(f.value) {
                Ok(d) => spec_station_fields(MStation { x: d, ..cur }, fs.drop_first()),
                Err(e) => Err(e),
            }
        } else if f.key == "y"@ {
            match sc_dec(f.value) {
                Ok(d) => spec_station_fields(MStation { y: d, ..cur }, fs.drop_first()),
                Err(e) => Err(e),
            }
        } else if f.key == "z"@ {
            match sc_dec(f.value) {
                Ok(d) => spec_station_fields(MStation { z: d, ..cur }, fs.drop_first()),
                Err(e) => Err(e),
            }
        } else if f.key == "scale"@ {
            match sc_dec(f.value) {
                Ok(d) => spec_station_fields(MStation { scale: d, ..cur }, fs.drop_first()),
                Err(e) => Err(e),
            }
        } else if f.key == "path"@ {
            match sc_str(f.value) {
                Ok(s) => spec_station_fields(MStation { path: s, ..cur }, fs.drop_first()),
                Err(e) => Err(e),
            }
        } else {
            Err(m_unknown_field(f, seq!["x"@, "y"@, "z"@, "scale"@, "path"@]))
        }
    }
}

fn station_kws() -> (r: Vec<String>)
    ensures
        r.deep_view() =~= seq!["x"@, "y"@, "z"@, "scale"@, "path"@],
{
    let mut v: Vec<String> = Vec::new();
    v.push(String::from_str("x"));
    v.push(String::from_str("y"));
    v.push(String::from_str("z"));
    v.push(String::from_str("scale"));
    v.push(String::from_str("path"));
    proof {
        assert(v.deep_view() =~= seq!["x"@, "y"@, "z"@, "scale"@, "path"@]);
    }
    v
}

fn station_fold(cur: Station, fs: Vec<RawField>) -> (r: Result<Station, Diagnostic>)
    requires
        fields_wf(fields_model(fs@)),
    ensures
        match (r, spec_station_fields(cur@, fields_model(fs@))) {
            (Ok(g), Ok(mg)) => g@ == mg,
            (Err(d), Err(md)) => d@ == md,
            _ => false,
        },
    decreases fs@.len(),
{
    let mut fs = fs;
    let mut cur = cur;
    if fs.len() == 0 {
        return Ok(cur);
    }
    let ghost fs0 = fs@;
    let f = fs.remove(0);
    proof {
        assert(fs@ =~= fs0.drop_first());
        assert(fields_model(fs0) == seq![field_model(fs0[0])] + fields_model(fs0.drop_first()));
        assert(fields_model(fs0)[0] == field_model(f));
        assert(fields_model(fs0).drop_first() =~= fields_model(fs@));
    }
    if string_is(&f.key, "x") {
        match ec_dec(&f.value) {
            Ok(d) => {
                cur.x = d;
                station_fold(cur, fs)
            },
            Err(d) => Err(d),
        }
    } else if string_is(&f.key, "y") {
        match ec_dec(&f.value) {
            Ok(d) => {
                cur.y = d;
                station_fold(cur, fs)
            },
            Err(d) => Err(d),
        }
    } else if string_is(&f.key, "z") {
        match ec_dec(&f.value) {
            Ok(d) => {
                cur.z = d;
                station_fold(cur, fs)
            },
            Err(d) => Err(d),
        }
    } else if string_is(&f.key, "scale") {
        match ec_dec(&f.value) {
            Ok(d) => {
                cur.scale = d;
                station_fold(cur, fs)
            },
            Err(d) => Err(d),
        }
    } else if string_is(&f.key, "path") {
        match ec_str(f.value) {
            Ok(s) => {
                cur.path = s;
                station_fold(cur, fs)
            },
            Err(d) => Err(d),
        }
    } else {
        Err(unknown_field(&f.key, f.key_start, f.key_end, station_kws()))
    }
}

/// Conversion of one station list entry.
pub open spec fn spec_station_rec(v: MRaw) -> Result<MStation, MDiag> {
    match v.node {
        MRawNode::Rec(fs) => spec_station_fields(crate::building::station_default(), fs),
        _ => Err(m_bad(v, seq!["record"@])),
    }
}

fn station_rec(v: RawValue) -> (r: Result<Station, Diagnostic>)
    requires
        raw_wf(raw_model(v)),
    ensures
        match (r, spec_station_rec(raw_model(v))) {
            (Ok(g), Ok(mg)) => g@ == mg,
            (Err(d), Err(md)) => d@ == md,
            _ => false,
        },
{
    match v.node {
        RawNode::Rec(fs) => {
            let base = Station {
                x: Decimal::zero(),
                y: Decimal::zero(),
                z: Decimal::zero(),
                scale: Decimal::zero(),
                path: String::new(),
            };
            station_fold(base, fs)
        },
        _ => {
            let v2 = RawValue { node: v.node, start: v.start, end: v.end };
            Err(bad_value(&v2, exp1("record")))
        },
    }
}

/// Conversion of a station list.
pub open spec fn spec_stations(items: Seq<MRaw>) -> Result<Seq<MStation>, MDiag>
    decreases items,
{
    if items.len() == 0 {
        Ok(Seq::empty())
    } else {
        match spec_station_rec(items[0]) {
            Ok(g) => match spec_stations(items.drop_first()) {
                Ok(rest) => Ok(seq![g] + rest),
                Err(d) => Err(d),
            },
            Err(d) => Err(d),
        }
    }
}

fn conv_stations(items: Vec<RawValue>) -> (r: Result<Vec<Station>, Diagnostic>)
    requires
        raws_wf(raws_model(items@)),
    ensures
        match (r, spec_stations(raws_model(items@))) {
            (Ok(gs), Ok(mgs)) => seq_view(gs@) == mgs,
            (Err(d), Err(md)) => d@ == md,
            _ => false,
        },
    decreases items@.len(),
{
    let mut items = items;
    if items.len() == 0 {
        let gs: Vec<Station> = Vec::new();
        proof {
            assert(seq_view(gs@) =~= Seq::<MStation>::empty());
        }
        return Ok(gs);
    }
    let ghost is0 = items@;
    let first = items.remove(0);
    proof {
        assert(items@ =~= is0.drop_first());
        assert(raws_model(is0) == seq![raw_model(is0[0])] + raws_model(is0.drop_first()));
        assert(raws_model(is0)[0] == raw_model(first));
        assert(raws_model(is0).drop_first() =~= raws_model(items@));
    }
    match station_rec(first) {
        Ok(g) => match conv_stations(items) {
            Ok(mut rest) => {
                let ghost r0 = rest@;
                rest.insert(0, g);
                proof {
                    assert(rest@ =~= seq![rest@[0]] + r0);
                    assert(seq_view(rest@) =~= seq![rest@[0]@] + seq_view(r0));
                }
                Ok(rest)
            },
            Err(d) => Err(d),
        },
        Err(d) => Err(d),
    }
}
/// Conversion of the fields of a `survival { ... }` block.
pub open spec fn spec_survival_fields(cur: SurvivalConditions, fs: Seq<MRawField>) -> Result<
    SurvivalConditions,
    MDiag,
>
    decreases fs,
{
    if fs.len() == 0 {
        Ok(cur)
    } else {
        let f = fs[0];
        if f.key == "magnetosphere"@ {
            match sc_dec(f.value) {
                Ok(d) => spec_survival_fields(
                    SurvivalConditions { magnetosphere: Some(d), ..cur },
                    fs.drop_first(),
                ),
                Err(e) => Err(e),
            }
        } else if f.key == "atmosphere"@ {
            match sc_dec(f.value) {
                Ok(d) => spec_survival_fields(
                    SurvivalConditions { atmosphere: Some(d), ..cur },
                    fs.drop_first(),
                ),
                Err(e) => Err(e),
            }
        } else if f.key == "temperature"@ {
            match sc_dec(f.value) {
                Ok(d) => spec_survival_fields(
                    SurvivalConditions { temperature: Some(d), ..cur },
                    fs.drop_first(),
                ),
                Err(e) => Err(e),
            }
        } else if f.key == "water"@ {
            match sc_dec(f.value) {
                Ok(d) => spec_survival_fields(
                    SurvivalConditions { water: Some(d), ..cur },
                    fs.drop_first(),
                ),
                Err(e) => Err(e),
            }
        } else if f.key == "breathability"@ {
            match sc_dec(f.value) {
                Ok(d) => spec_survival_fields(
                    SurvivalConditions { breathability: Some(d), ..cur },
                    fs.drop_first(),
                ),
                Err(e) => Err(e),
            }
        } else if f.key == "served_step"@ {
            match sc_dec(f.value) {
                Ok(d) => spec_survival_fields(
                    SurvivalConditions { served_step: d, ..cur },
                    fs.drop_first(),
                ),
                Err(e) => Err(e),
            }
        } else if f.key == "lack_of_service_penalty"@ {
            match sc_dec(f.value) {
                Ok(d) => spec_survival_fields(
                    SurvivalConditions { lack_of_service_penalty: d, ..cur },
                    fs.drop_first(),
                ),
                Err(e) => Err(e),
            }
        } else {
            Err(m_unknown_field(f, survival_keywords()))
        }
    }
}

pub open spec fn survival_keywords() -> Seq<Seq<char>> {
    seq![
        "magnetosphere"@,
        "atmosphere"@,
        "temperature"@,
        "water"@,
        "breathability"@,
        "served_step"@,
        "lack_of_service_penalty"@,
    ]
}

fn survival_kws() -> (r: Vec<String>)
    ensures
        r.deep_view() =~= survival_keywords(),
{
    let mut v: Vec<String> = Vec::new();
    v.push(String::from_str("magnetosphere"));
    v.push(String::from_str("atmosphere"));
    v.push(String::from_str("temperature"));
    v.push(String::from_str("water"));
    v.push(String::from_str("breathability"));
    v.push(String::from_str("served_step"));
    v.push(String::from_str("lack_of_service_penalty"));
    proof {
        assert(v.deep_view() =~= survival_keywords());
    }
    v
}

fn survival_fold(cur: SurvivalConditions, fs: Vec<RawField>) -> (r: Result<
    SurvivalConditions,
    Diagnostic,
>)
    requires
        fields_wf(fields_model(fs@)),
    ensures
        match (r, spec_survival_fields(cur, fields_model(fs@))) {
            (Ok(g), Ok(mg)) => g == mg,
            (Err(d), Err(md)) => d@ == md,
            _ => false,
        },
    decreases fs@.len(),
{
    let mut fs = fs;
    let mut cur = cur;
    if fs.len() == 0 {
        return Ok(cur);
    }
    let ghost fs0 = fs@;
    let f = fs.remove(0);
    proof {
        assert(fs@ =~= fs0.drop_first());
        assert(fields_model(fs0) == seq![field_model(fs0[0])] + fields_model(fs0.drop_first()));
        assert(fields_model(fs0)[0] == field_model(f));
        assert(fields_model(fs0).drop_first() =~= fields_model(fs@));
    }
    if string_is(&f.key, "magnetosphere") {
        match ec_dec(&f.value) {
            Ok(d) => {
                cur.magnetosphere = Some(d);
                survival_fold(cur, fs)
            },
            Err(d) => Err(d),
        }
    } else if string_is(&f.key, "atmosphere") {
        match ec_dec(&f.value) {
            Ok(d) => {
                cur.atmosphere = Some(d);
                survival_fold(cur, fs)
            },
            Err(d) => Err(d),
        }
    } else if string_is(&f.key, "temperature") {
        match ec_dec(&f.value) {
            Ok(d) => {
                cur.temperature = Some(d);
                survival_fold(cur, fs)
            },
            Err(d) => Err(d),
        }
    } else if string_is(&f.key, "water") {
        match ec_dec(&f.value) {
            Ok(d) => {
                cur.water = Some(d);
                survival_fold(cur, fs)
            },
            Err(d) => Err(d),
        }
    } else if string_is(&f.key, "breathability") {
        match ec_dec(&f.value) {
            Ok(d) => {
                cur.breathability = Some(d);
                survival_fold(cur, fs)
            },
            Err(d) => Err(d),
        }
    } else if string_is(&f.key, "served_step") {
        match ec_dec(&f.value) {
            Ok(d) => {
                cur.served_step = d;
                survival_fold(cur, fs)
            },
            Err(d) => Err(d),
        }
    } else if string_is(&f.key, "lack_of_service_penalty") {
        match ec_dec(&f.value) {
            Ok(d) => {
                cur.lack_of_service_penalty = d;
                survival_fold(cur, fs)
            },
            Err(d) => Err(d),
        }
    } else {
        Err(unknown_field(&f.key, f.key_start, f.key_end, survival_kws()))
    }
}

/// Conversion of the fields of a `population_impact` record.
pub open spec fn spec_popimp_fields(cur: PopulationImpact, fs: Seq<MRawField>) -> Result<
    PopulationImpact,
    MDiag,
>
    decreases fs,
{
    if fs.len() == 0 {
        Ok(cur)
    } else {
        let f = fs[0];
        if f.key == "growth"@ {
            match sc_dec(f.value) {
                Ok(d) => spec_popimp_fields(PopulationImpact { growth: d, ..cur }, fs.drop_first()),
                Err(e) => Err(e),
            }
        } else if f.key == "min_population"@ {
            match sc_u8(f.value) {
                Ok(x) => spec_popimp_fields(
                    PopulationImpact { min_population: x, ..cur },
                    fs.drop_first(),
                ),
                Err(e) => Err(e),
            }
        } else {
            Err(m_unknown_field(f, seq!["growth"@, "min_population"@]))
        }
    }
}

fn popimp_fold(cur: PopulationImpact, fs: Vec<RawField>) -> (r: Result<PopulationImpact, Diagnostic>)
    requires
        fields_wf(fields_model(fs@)),
    ensures
        match (r, spec_popimp_fields(cur, fields_model(fs@))) {
            (Ok(g), Ok(mg)) => g == mg,
            (Err(d), Err(md)) => d@ == md,
            _ => false,
        },
    decreases fs@.len(),
{
    let mut fs = fs;
    let mut cur = cur;
    if fs.len() == 0 {
        return Ok(cur);
    }
    let ghost fs0 = fs@;
    let f = fs.remove(0);
    proof {
        assert(fs@ =~= fs0.drop_first());
        assert(fields_model(fs0) == seq![field_model(fs0[0])] + fields_model(fs0.drop_first()));
        assert(fields_model(fs0)[0] == field_model(f));
        assert(fields_model(fs0).drop_first() =~= fields_model(fs@));
    }
    if string_is(&f.key, "growth") {
        match ec_dec(&f.value) {
            Ok(d) => {
                cur.growth = d;
                popimp_fold(cur, fs)
            },
            Err(d) => Err(d),
        }
    } else if string_is(&f.key, "min_population") {
        match ec_u8(&f.value) {
            Ok(x) => {
                cur.min_population = x;
                popimp_fold(cur, fs)
            },
            Err(d) => Err(d),
        }
    } else {
        Err(unknown_field(&f.key, f.key_start, f.key_end, exp2("growth", "min_population")))
    }
}

/// Conversion of the fields of an equilibrium-impact record: the added
/// equilibrium and its rate.
pub open spec fn spec_impact_fields(cur: (Decimal, Decimal), fs: Seq<MRawField>) -> Result<
    (Decimal, Decimal),
    MDiag,
>
    decreases fs,
{
    if fs.len() == 0 {
        Ok(cur)
    } else {
        let f = fs[0];
        if f.key == "added"@ {
            match sc_dec(f.value) {
                Ok(d) => spec_impact_fields((d, cur.1), fs.drop_first()),
                Err(e) => Err(e),
            }
        } else if f.key == "rate"@ {
            match sc_dec(f.value) {
                Ok(d) => spec_impact_fields((cur.0, d), fs.drop_first()),
                Err(e) => Err(e),
            }
        } else {
            Err(m_unknown_field(f, seq!["added"@, "rate"@]))
        }
    }
}

fn impact_fold(cur: (Decimal, Decimal), fs: Vec<RawField>) -> (r: Result<
    (Decimal, Decimal),
    Diagnostic,
>)
    requires
        fields_wf(fields_model(fs@)),
    ensures
        match (r, spec_impact_fields(cur, fields_model(fs@))) {
            (Ok(g), Ok(mg)) => g == mg,
            (Err(d), Err(md)) => d@ == md,
            _ => false,
        },
    decreases fs@.len(),
{
    let mut fs = fs;
    let mut cur = cur;
    if fs.len() == 0 {
        return Ok(cur);
    }
    let ghost fs0 = fs@;
    let f = fs.remove(0);
    proof {
        assert(fs@ =~= fs0.drop_first());
        assert(fields_model(fs0) == seq![field_model(fs0[0])] + fields_model(fs0.drop_first()));
        assert(fields_model(fs0)[0] == field_model(f));
        assert(fields_model(fs0).drop_first() =~= fields_model(fs@));
    }
    if string_is(&f.key, "added") {
        match ec_dec(&f.value) {
            Ok(d) => {
                cur.0 = d;
                impact_fold(cur, fs)
            },
            Err(d) => Err(d),
        }
    } else if string_is(&f.key, "rate") {
        match ec_dec(&f.value) {
            Ok(d) => {
                cur.1 = d;
                impact_fold(cur, fs)
            },
            Err(d) => Err(d),
        }
    } else {
        Err(unknown_field(&f.key, f.key_start, f.key_end, exp2("added", "rate")))
    }
}
fn ec_str_ref(v: &RawValue) -> (r: Result<String, Diagnostic>)
    ensures
        match (r, sc_str(raw_model(*v))) {
            (Ok(s), Ok(ms)) => s@ == ms,
            (Err(d), Err(md)) => d@ == md,
            _ => false,
        },
{
    match &v.node {
        RawNode::Str(s) => Ok(s.clone()),
        _ => Err(bad_value(v, exp1("string"))),
    }
}

/// Conversion of a `good_type` keyword.
pub open spec fn spec_good_type(v: MRaw) -> Result<GoodType, MDiag> {
    match v.node {
        MRawNode::Tag(w) => if w == "public"@ {
            Ok(GoodType::Public)
        } else if w == "private"@ {
            Ok(GoodType::Private)
        } else if w == "tender"@ {
            Ok(GoodType::Tender)
        } else {
            Err(m_bad(v, seq!["public"@, "private"@, "tender"@]))
        },
        _ => Err(m_bad(v, seq!["public"@, "private"@, "tender"@])),
    }
}

fn conv_good_type(v: &RawValue) -> (r: Result<GoodType, Diagnostic>)
    ensures
        match (r, spec_good_type(raw_model(*v))) {
            (Ok(g), Ok(mg)) => g == mg,
            (Err(d), Err(md)) => d@ == md,
            _ => false,
        },
{
    match &v.node {
        RawNode::Tag(w) => {
            if string_is(w, "public") {
                Ok(GoodType::Public)
            } else if string_is(w, "private") {
                Ok(GoodType::Private)
            } else if string_is(w, "tender") {
                Ok(GoodType::Tender)
            } else {
                Err(bad_value(v, exp3("public", "private", "tender")))
            }
        },
        _ => Err(bad_value(v, exp3("public", "private", "tender"))),
    }
}

/// Conversion of a `class` keyword.
pub open spec fn spec_planet_class(v: MRaw) -> Result<PlanetClass, MDiag> {
    match v.node {
        MRawNode::Tag(w) => if w == "rocky"@ {
            Ok(PlanetClass::Rocky)
        } else if w == "atmospheric"@ {
            Ok(PlanetClass::Atmospheric)
        } else if w == "gas"@ {
            Ok(PlanetClass::Gas)
        } else {
            Err(m_bad(v, seq!["rocky"@, "atmospheric"@, "gas"@]))
        },
        _ => Err(m_bad(v, seq!["rocky"@, "atmospheric"@, "gas"@])),
    }
}

fn conv_planet_class(v: &RawValue) -> (r: Result<PlanetClass, Diagnostic>)
    ensures
        match (r, spec_planet_class(raw_model(*v))) {
            (Ok(g), Ok(mg)) => g == mg,
            (Err(d), Err(md)) => d@ == md,
            _ => false,
        },
{
    match &v.node {
        RawNode::Tag(w) => {
            if string_is(w, "rocky") {
                Ok(PlanetClass::Rocky)
            } else if string_is(w, "atmospheric") {
                Ok(PlanetClass::Atmospheric)
            } else if string_is(w, "gas") {
                Ok(PlanetClass::Gas)
            } else {
                Err(bad_value(v, exp3("rocky", "atmospheric", "gas")))
            }
        },
        _ => Err(bad_value(v, exp3("rocky", "atmospheric", "gas"))),
    }
}

/// Conversion of a `ship_class` keyword.
pub open spec fn spec_ship_class(v: MRaw) -> Result<ShipClass, MDiag> {
    match v.node {
        MRawNode::Tag(w) => if w == "survey"@ {
            Ok(ShipClass::Survey)
        } else {
            Err(m_bad(v, seq!["survey"@]))
        },
        _ => Err(m_bad(v, seq!["survey"@])),
    }
}

fn conv_ship_class(v: &RawValue) -> (r: Result<ShipClass, Diagnostic>)
    ensures
        match (r, spec_ship_class(raw_model(*v))) {
            (Ok(g), Ok(mg)) => g == mg,
            (Err(d), Err(md)) => d@ == md,
            _ => false,
        },
{
    match &v.node {
        RawNode::Tag(w) => {
            if string_is(w, "survey") {
                Ok(ShipClass::Survey)
            } else {
                Err(bad_value(v, exp1("survey")))
            }
        },
        _ => Err(bad_value(v, exp1("survey"))),
    }
}

/// Conversion of a `housing` keyword of a designation.  The data files
/// write `managend` for the managed mode, and that spelling is the
/// format.
pub open spec fn spec_housing(v: MRaw) -> Result<Housing, MDiag> {
    match v.node {
        MRawNode::Tag(w) => if w == "managend"@ {
            Ok(Housing::Managed)
        } else if w == "unmanaged"@ {
            Ok(Housing::Unmanaged)
        } else {
            Err(m_bad(v, seq!["managend"@, "unmanaged"@]))
        },
        _ => Err(m_bad(v, seq!["managend"@, "unmanaged"@])),
    }
}

fn conv_housing(v: &RawValue) -> (r: Result<Housing, Diagnostic>)
    ensures
        match (r, spec_housing(raw_model(*v))) {
            (Ok(g), Ok(mg)) => g == mg,
            (Err(d), Err(md)) => d@ == md,
            _ => false,
        },
{
    match &v.node {
        RawNode::Tag(w) => {
            if string_is(w, "managend") {
                Ok(Housing::Managed)
            } else if string_is(w, "unmanaged") {
                Ok(Housing::Unmanaged)
            } else {
                Err(bad_value(v, exp2("managend", "unmanaged")))
            }
        },
        _ => Err(bad_value(v, exp2("managend", "unmanaged"))),
    }
}

/// Conversion of a `building_limit` value: `Unlimited` or `limited(n)`.
pub open spec fn spec_blimit(v: MRaw) -> Result<BuildingLimit, MDiag> {
    match v.node {
        MRawNode::Tag(w) => if w == "Unlimited"@ {
            Ok(BuildingLimit::Unlimited)
        } else {
            Err(m_bad(v, seq!["Unlimited"@, "limited"@]))
        },
        MRawNode::Call(nm, args) => if nm == "limited"@ && args.len() == 1 {
            match sc_u8(args[0]) {
                Ok(x) => Ok(BuildingLimit::Limited(x)),
                Err(e) => Err(e),
            }
        } else {
            Err(m_bad(v, seq!["Unlimited"@, "limited"@]))
        },
        _ => Err(m_bad(v, seq!["Unlimited"@, "limited"@])),
    }
}

fn conv_blimit(v: &RawValue) -> (r: Result<BuildingLimit, Diagnostic>)
    ensures
        match (r, spec_blimit(raw_model(*v))) {
            (Ok(g), Ok(mg)) => g == mg,
            (Err(d), Err(md)) => d@ == md,
            _ => false,
        },
{
    match &v.node {
        RawNode::Tag(w) => {
            if string_is(w, "Unlimited") {
                Ok(BuildingLimit::Unlimited)
            } else {
                Err(bad_value(v, exp2("Unlimited", "limited")))
            }
        },
        RawNode::Call(nm, args) => {
            proof {
                crate::raw::lemma_raws_model_len(args@);
            }
            if string_is(nm, "limited") && args.len() == 1 {
                proof {
                    assert(raws_model(args@)[0] == raw_model(args@[0]));
                }
                match ec_u8(&args[0]) {
                    Ok(x) => Ok(BuildingLimit::Limited(x)),
                    Err(e) => Err(e),
                }
            } else {
                Err(bad_value(v, exp2("Unlimited", "limited")))
            }
        },
        _ => Err(bad_value(v, exp2("Unlimited", "limited"))),
    }
}

/// Conversion of a `private_buildings` value: `none`, `always`, or
/// `min_population(n)`.
pub open spec fn spec_pbuild(v: MRaw) -> Result<PrivateBuildings, MDiag> {
    match v.node {
        MRawNode::Tag(w) => if w == "none"@ {
            Ok(PrivateBuildings::Never)
        } else if w == "always"@ {
            Ok(PrivateBuildings::Always)
        } else {
            Err(m_bad(v, seq!["none"@, "always"@, "min_population"@]))
        },
        MRawNode::Call(nm, args) => if nm == "min_population"@ && args.len() == 1 {
            match sc_u8(args[0]) {
                Ok(x) => Ok(PrivateBuildings::MinPopulation(x)),
                Err(e) => Err(e),
            }
        } else {
            Err(m_bad(v, seq!["none"@, "always"@, "min_population"@]))
        },
        _ => Err(m_bad(v, seq!["none"@, "always"@, "min_population"@])),
    }
}

fn conv_pbuild(v: &RawValue) -> (r: Result<PrivateBuildings, Diagnostic>)
    ensures
        match (r, spec_pbuild(raw_model(*v))) {
            (Ok(g), Ok(mg)) => g == mg,
            (Err(d), Err(md)) => d@ == md,
            _ => false,
        },
{
    match &v.node {
        RawNode::Tag(w) => {
            if string_is(w, "none") {
                Ok(PrivateBuildings::Never)
            } else if string_is(w, "always") {
                Ok(PrivateBuildings::Always)
            } else {
                Err(bad_value(v, exp3("none", "always", "min_population")))
            }
        },
        RawNode::Call(nm, args) => {
            proof {
                crate::raw::lemma_raws_model_len(args@);
            }
            if string_is(nm, "min_population") && args.len() == 1 {
                proof {
                    assert(raws_model(args@)[0] == raw_model(args@[0]));
                }
                match ec_u8(&args[0]) {
                    Ok(x) => Ok(PrivateBuildings::MinPopulation(x)),
                    Err(e) => Err(e),
                }
            } else {
                Err(bad_value(v, exp3("none", "always", "min_population")))
            }
        },
        _ => Err(bad_value(v, exp3("none", "always", "min_population"))),
    }
}

/// Conversion of a `consumption_type` value: a keyword or a
/// `survival { ... }` block.
pub open spec fn spec_consumption(v: MRaw) -> Result<ConsumptionType, MDiag> {
    match v.node {
        MRawNode::Tag(w) => if w == "none"@ {
            Ok(ConsumptionType::NotConsumed)
        } else if w == "amenity"@ {
            Ok(ConsumptionType::Amenity)
        } else if w == "essential"@ {
            Ok(ConsumptionType::Essential)
        } else {
            Err(m_bad(v, consumption_exp()))
        },
        MRawNode::Block(nm, fs) => if nm == "survival"@ {
            match spec_survival_fields(crate::goods::survival_default(), fs) {
                Ok(s) => Ok(ConsumptionType::Survival(s)),
                Err(e) => Err(e),
            }
        } else {
            Err(m_bad(v, consumption_exp()))
        },
        _ => Err(m_bad(v, consumption_exp())),
    }
}

pub open spec fn consumption_exp() -> Seq<Seq<char>> {
    seq!["none"@, "amenity"@, "essential"@, "survival"@]
}

fn consumption_exp_vec() -> (r: Vec<String>)
    ensures
        r.deep_view() =~= consumption_exp(),
{
    let mut v: Vec<String> = Vec::new();
    v.push(String::from_str("none"));
    v.push(String::from_str("amenity"));
    v.push(String::from_str("essential"));
    v.push(String::from_str("survival"));
    proof {
        assert(v.deep_view() =~= consumption_exp());
    }
    v
}

fn conv_consumption(v: RawValue) -> (r: Result<ConsumptionType, Diagnostic>)
    requires
        raw_wf(raw_model(v)),
    ensures
        match (r, spec_consumption(raw_model(v))) {
            (Ok(g), Ok(mg)) => g == mg,
            (Err(d), Err(md)) => d@ == md,
            _ => false,
        },
{
    match v.node {
        RawNode::Tag(w) => {
            let v2 = RawValue { node: RawNode::Tag(w), start: v.start, end: v.end };
            if let RawNode::Tag(w2) = &v2.node {
                if string_is(w2, "none") {
                    Ok(ConsumptionType::NotConsumed)
                } else if string_is(w2, "amenity") {
                    Ok(ConsumptionType::Amenity)
                } else if string_is(w2, "essential") {
                    Ok(ConsumptionType::Essential)
                } else {
                    Err(bad_value(&v2, consumption_exp_vec()))
                }
            } else {
                proof {
                    assert(false);
                }
                Err(bad_value(&v2, consumption_exp_vec()))
            }
        },
        RawNode::Block(nm, fs) => {
            if string_is(&nm, "survival") {
                match survival_fold(SurvivalConditions::default(), fs) {
                    Ok(s) => Ok(ConsumptionType::Survival(s)),
                    Err(e) => Err(e),
                }
            } else {
                let v2 = RawValue { node: RawNode::Block(nm, fs), start: v.start, end: v.end };
                Err(bad_value(&v2, consumption_exp_vec()))
            }
        },
        other => {
            let v2 = RawValue { node: other, start: v.start, end: v.end };
            Err(bad_value(&v2, consumption_exp_vec()))
        },
    }
}
/// Conversion of one planet-filter entry: a planet-side name, or
/// `orbital("name")`.
pub open spec fn spec_filter(v: MRaw) -> Result<MPlanetFilter, MDiag> {
    match v.node {
        MRawNode::Str(s) => Ok(MPlanetFilter::PlanetSide(s)),
        MRawNode::Call(nm, args) => if nm == "orbital"@ && args.len() == 1 {
            match sc_str(args[0]) {
                Ok(s) => Ok(MPlanetFilter::Orbital(s)),
                Err(e) => Err(e),
            }
        } else {
            Err(m_bad(v, seq!["string"@, "orbital"@]))
        },
        _ => Err(m_bad(v, seq!["string"@, "orbital"@])),
    }
}

fn conv_filter(v: &RawValue) -> (r: Result<PlanetFilter, Diagnostic>)
    ensures
        match (r, spec_filter(raw_model(*v))) {
            (Ok(g), Ok(mg)) => g@ == mg,
            (Err(d), Err(md)) => d@ == md,
            _ => false,
        },
{
    match &v.node {
        RawNode::Str(s) => Ok(PlanetFilter::PlanetSide(s.clone())),
        RawNode::Call(nm, args) => {
            proof {
                crate::raw::lemma_raws_model_len(args@);
            }
            if string_is(nm, "orbital") && args.len() == 1 {
                proof {
                    assert(raws_model(args@)[0] == raw_model(args@[0]));
                }
                match ec_str_ref(&args[0]) {
                    Ok(s) => Ok(PlanetFilter::Orbital(s)),
                    Err(e) => Err(e),
                }
            } else {
                Err(bad_value(v, exp2("string", "orbital")))
            }
        },
        _ => Err(bad_value(v, exp2("string", "orbital"))),
    }
}

/// Conversion of a planet-filter list.
pub open spec fn spec_filters(items: Seq<MRaw>) -> Result<Seq<MPlanetFilter>, MDiag>
    decreases items,
{
    if items.len() == 0 {
        Ok(Seq::empty())
    } else {
        match spec_filter(items[0]) {
            Ok(g) => match spec_filters(items.drop_first()) {
                Ok(rest) => Ok(seq![g] + rest),
                Err(d) => Err(d),
            },
            Err(d) => Err(d),
        }
    }
}

fn conv_filters(items: Vec<RawValue>) -> (r: Result<Vec<PlanetFilter>, Diagnostic>)
    ensures
        match (r, spec_filters(raws_model(items@))) {
            (Ok(gs), Ok(mgs)) => seq_view(gs@) == mgs,
            (Err(d), Err(md)) => d@ == md,
            _ => false,
        },
    decreases items@.len(),
{
    let mut items = items;
    if items.len() == 0 {
        let gs: Vec<PlanetFilter> = Vec::new();
        proof {
            assert(seq_view(gs@) =~= Seq::<MPlanetFilter>::empty());
        }
        return Ok(gs);
    }
    let ghost is0 = items@;
    let first = items.remove(0);
    proof {
        assert(items@ =~= is0.drop_first());
        assert(raws_model(is0) == seq![raw_model(is0[0])] + raws_model(is0.drop_first()));
        assert(raws_model(is0)[0] == raw_model(first));
        assert(raws_model(is0).drop_first() =~= raws_model(items@));
    }
    match conv_filter(&first) {
        Ok(g) => match conv_filters(items) {
            Ok(mut rest) => {
                let ghost r0 = rest@;
                rest.insert(0, g);
                proof {
                    assert(rest@ =~= seq![rest@[0]] + r0);
                    assert(seq_view(rest@) =~= seq![rest@[0]@] + seq_view(r0));
                }
                Ok(rest)
            },
            Err(d) => Err(d),
        },
        Err(d) => Err(d),
    }
}

/// Conversion of one augmentation effect: `star_adapt`, `add_trait(...)`,
/// or `remove_trait(...)`.
pub open spec fn spec_aug_effect(v: MRaw) -> Result<MAugEffect, MDiag> {
    match v.node {
        MRawNode::Tag(w) => if w == "star_adapt"@ {
            Ok(MAugEffect::AdaptStarType)
        } else {
            Err(m_bad(v, seq!["star_adapt"@, "add_trait"@, "remove_trait"@]))
        },
        MRawNode::Call(nm, args) => if nm == "add_trait"@ && args.len() == 1 {
            match sc_str(args[0]) {
                Ok(s) => Ok(MAugEffect::AddTrait(s)),
                Err(e) => Err(e),
            }
        } else if nm == "remove_trait"@ && args.len() == 1 {
            match sc_str(args[0]) {
                Ok(s) => Ok(MAugEffect::RemoveTrait(s)),
                Err(e) => Err(e),
            }
        } else {
            Err(m_bad(v, seq!["star_adapt"@, "add_trait"@, "remove_trait"@]))
        },
        _ => Err(m_bad(v, seq!["star_adapt"@, "add_trait"@, "remove_trait"@])),
    }
}

fn conv_aug_effect(v: &RawValue) -> (r: Result<AugEffect, Diagnostic>)
    ensures
        match (r, spec_aug_effect(raw_model(*v))) {
            (Ok(g), Ok(mg)) => g@ == mg,
            (Err(d), Err(md)) => d@ == md,
            _ => false,
        },
{
    match &v.node {
        RawNode::Tag(w) => {
            if string_is(w, "star_adapt") {
                Ok(AugEffect::AdaptStarType)
            } else {
                Err(bad_value(v, exp3("star_adapt", "add_trait", "remove_trait")))
            }
        },
        RawNode::Call(nm, args) => {
            proof {
                crate::raw::lemma_raws_model_len(args@);
            }
            if string_is(nm, "add_trait") && args.len() == 1 {
                proof {
                    assert(raws_model(args@)[0] == raw_model(args@[0]));
                }
                match ec_str_ref(&args[0]) {
                    Ok(s) => Ok(AugEffect::AddTrait(s)),
                    Err(e) => Err(e),
                }
            } else if string_is(nm, "remove_trait") && args.len() == 1 {
                proof {
                    assert(raws_model(args@)[0] == raw_model(args@[0]));
                }
                match ec_str_ref(&args[0]) {
                    Ok(s) => Ok(AugEffect::RemoveTrait(s)),
                    Err(e) => Err(e),
                }
            } else {
                Err(bad_value(v, exp3("star_adapt", "add_trait", "remove_trait")))
            }
        },
        _ => Err(bad_value(v, exp3("star_adapt", "add_trait", "remove_trait"))),
    }
}

/// Conversion of an augmentation-effect list.
pub open spec fn spec_aug_effects(items: Seq<MRaw>) -> Result<Seq<MAugEffect>, MDiag>
    decreases items,
{
    if items.len() == 0 {
        Ok(Seq::empty())
    } else {
        match spec_aug_effect(items[0]) {
            Ok(g) => match spec_aug_effects(items.drop_first()) {
                Ok(rest) => Ok(seq![g] + rest),
                Err(d) => Err(d),
            },
            Err(d) => Err(d),
        }
    }
}

fn conv_aug_effects(items: Vec<RawValue>) -> (r: Result<Vec<AugEffect>, Diagnostic>)
    ensures
        match (r, spec_aug_effects(raws_model(items@))) {
            (Ok(gs), Ok(mgs)) => seq_view(gs@) == mgs,
            (Err(d), Err(md)) => d@ == md,
            _ => false,
        },
    decreases items@.len(),
{
    let mut items = items;
    if items.len() == 0 {
        let gs: Vec<AugEffect> = Vec::new();
        proof {
            assert(seq_view(gs@) =~= Seq::<MAugEffect>::empty());
        }
        return Ok(gs);
    }
    let ghost is0 = items@;
    let first = items.remove(0);
    proof {
        assert(items@ =~= is0.drop_first());
        assert(raws_model(is0) == seq![raw_model(is0[0])] + raws_model(is0.drop_first()));
        assert(raws_model(is0)[0] == raw_model(first));
        assert(raws_model(is0).drop_first() =~= raws_model(items@));
    }
    match conv_aug_effect(&first) {
        Ok(g) => match conv_aug_effects(items) {
            Ok(mut rest) => {
                let ghost r0 = rest@;
                rest.insert(0, g);
                proof {
                    assert(rest@ =~= seq![rest@[0]] + r0);
                    assert(seq_view(rest@) =~= seq![rest@[0]@] + seq_view(r0));
                }
                Ok(rest)
            },
            Err(d) => Err(d),
        },
        Err(d) => Err(d),
    }
}

/// Conversion of one species-trait effect: `growth_rate(x)`.
pub open spec fn spec_trait_effect(v: MRaw) -> Result<TraitEffect, MDiag> {
    match v.node {
        MRawNode::Call(nm, args) => if nm == "growth_rate"@ && args.len() == 1 {
            match sc_dec(args[0]) {
                Ok(d) => Ok(TraitEffect::GrowthRate(d)),
                Err(e) => Err(e),
            }
        } else {
            Err(m_bad(v, seq!["growth_rate"@]))
        },
        _ => Err(m_bad(v, seq!["growth_rate"@])),
    }
}

fn conv_trait_effect(v: &RawValue) -> (r: Result<TraitEffect, Diagnostic>)
    requires
        raw_wf(raw_model(*v)),
    ensures
        match (r, spec_trait_effect(raw_model(*v))) {
            (Ok(g), Ok(mg)) => g == mg,
            (Err(d), Err(md)) => d@ == md,
            _ => false,
        },
{
    match &v.node {
        RawNode::Call(nm, args) => {
            proof {
                crate::raw::lemma_raws_model_len(args@);
            }
            if string_is(nm, "growth_rate") && args.len() == 1 {
                proof {
                    assert(raws_model(args@)[0] == raw_model(args@[0]));
                    assert(crate::raw::raws_wf(raws_model(args@)));
                    assert(raw_wf(raws_model(args@)[0]));
                }
                match ec_dec(&args[0]) {
                    Ok(d) => Ok(TraitEffect::GrowthRate(d)),
                    Err(e) => Err(e),
                }
            } else {
                Err(bad_value(v, exp1("growth_rate")))
            }
        },
        _ => Err(bad_value(v, exp1("growth_rate"))),
    }
}

/// Conversion of a species-trait effect list.
pub open spec fn spec_trait_effects(items: Seq<MRaw>) -> Result<Seq<TraitEffect>, MDiag>
    decreases items,
{
    if items.len() == 0 {
        Ok(Seq::empty())
    } else {
        match spec_trait_effect(items[0]) {
            Ok(g) => match spec_trait_effects(items.drop_first()) {
                Ok(rest) => Ok(seq![g] + rest),
                Err(d) => Err(d),
            },
            Err(d) => Err(d),
        }
    }
}

fn conv_trait_effects(items: Vec<RawValue>) -> (r: Result<Vec<TraitEffect>, Diagnostic>)
    requires
        raws_wf(raws_model(items@)),
    ensures
        match (r, spec_trait_effects(raws_model(items@))) {
            (Ok(gs), Ok(mgs)) => gs@ == mgs,
            (Err(d), Err(md)) => d@ == md,
            _ => false,
        },
    decreases items@.len(),
{
    let mut items = items;
    if items.len() == 0 {
        let gs: Vec<TraitEffect> = Vec::new();
        proof {
            assert(gs@ =~= Seq::<TraitEffect>::empty());
        }
        return Ok(gs);
    }
    let ghost is0 = items@;
    let first = items.remove(0);
    proof {
        assert(items@ =~= is0.drop_first());
        assert(raws_model(is0) == seq![raw_model(is0[0])] + raws_model(is0.drop_first()));
        assert(raws_model(is0)[0] == raw_model(first));
        assert(raws_model(is0).drop_first() =~= raws_model(items@));
    }
    match conv_trait_effect(&first) {
        Ok(g) => match conv_trait_effects(items) {
            Ok(mut rest) => {
                let ghost r0 = rest@;
                rest.insert(0, g);
                proof {
                    assert(rest@ =~= seq![g] + r0);
                }
                Ok(rest)
            },
            Err(d) => Err(d),
        },
        Err(d) => Err(d),
    }
}
/// Conversion of the fields of a `star_data` record.
pub open spec fn spec_star_fields(cur: MStarData, fs: Seq<MRawField>) -> Result<MStarData, MDiag>
    decreases fs,
{
    if fs.len() == 0 {
        Ok(cur)
    } else {
        let f = fs[0];
        if f.key == "name"@ {
            match sc_str(f.value) {
                Ok(s) => spec_star_fields(MStarData { name: s, ..cur }, fs.drop_first()),
                Err(e) => Err(e),
            }
        } else if f.key == "asset_location"@ {
            match sc_str(f.value) {
                Ok(s) => spec_star_fields(MStarData { asset_location: s, ..cur }, fs.drop_first()),
                Err(e) => Err(e),
            }
        } else if f.key == "size"@ {
            match sc_u16(f.value) {
                Ok(x) => spec_star_fields(MStarData { size: x, ..cur }, fs.drop_first()),
                Err(e) => Err(e),
            }
        } else if f.key == "temperature_kelvin"@ {
            match sc_temp_k(f.value) {
                Ok(t) => spec_star_fields(MStarData { temperature: t, ..cur }, fs.drop_first()),
                Err(e) => Err(e),
            }
        } else if f.key == "temperature_celsius"@ {
            match sc_temp_c(f.value) {
                Ok(t) => spec_star_fields(MStarData { temperature: t, ..cur }, fs.drop_first()),
                Err(e) => Err(e),
            }
        } else if f.key == "star_type"@ {
            match sc_str(f.value) {
                Ok(s) => spec_star_fields(MStarData { star_type: s, ..cur }, fs.drop_first()),
                Err(e) => Err(e),
            }
        } else {
            Err(m_unknown_field(f, star_keywords()))
        }
    }
}

pub open spec fn star_keywords() -> Seq<Seq<char>> {
    seq![
        "name"@,
        "asset_location"@,
        "size"@,
        "temperature_kelvin"@,
        "temperature_celsius"@,
        "star_type"@,
    ]
}

fn star_kws() -> (r: Vec<String>)
    ensures
        r.deep_view() =~= star_keywords(),
{
    let mut v: Vec<String> = Vec::new();
    v.push(String::from_str("name"));
    v.push(String::from_str("asset_location"));
    v.push(String::from_str("size"));
    v.push(String::from_str("temperature_kelvin"));
    v.push(String::from_str("temperature_celsius"));
    v.push(String::from_str("star_type"));
    proof {
        assert(v.deep_view() =~= star_keywords());
    }
    v
}

fn star_fold(cur: StarData, fs: Vec<RawField>) -> (r: Result<StarData, Diagnostic>)
    requires
        fields_wf(fields_model(fs@)),
    ensures
        match (r, spec_star_fields(cur@, fields_model(fs@))) {
            (Ok(g), Ok(mg)) => g@ == mg,
            (Err(d), Err(md)) => d@ == md,
            _ => false,
        },
    decreases fs@.len(),
{
    let mut fs = fs;
    let mut cur = cur;
    if fs.len() == 0 {
        return Ok(cur);
    }
    let ghost fs0 = fs@;
    let f = fs.remove(0);
    proof {
        assert(fs@ =~= fs0.drop_first());
        assert(fields_model(fs0) == seq![field_model(fs0[0])] + fields_model(fs0.drop_first()));
        assert(fields_model(fs0)[0] == field_model(f));
        assert(fields_model(fs0).drop_first() =~= fields_model(fs@));
    }
    if string_is(&f.key, "name") {
        match ec_str(f.value) {
            Ok(s) => {
                cur.name = s;
                star_fold(cur, fs)
            },
            Err(d) => Err(d),
        }
    } else if string_is(&f.key, "asset_location") {
        match ec_str(f.value) {
            Ok(s) => {
                cur.asset_location = s;
                star_fold(cur, fs)
            },
            Err(d) => Err(d),
        }
    } else if string_is(&f.key, "size") {
        match ec_u16(&f.value) {
            Ok(x) => {
                cur.size = x;
                star_fold(cur, fs)
            },
            Err(d) => Err(d),
        }
    } else if string_is(&f.key, "temperature_kelvin") {
        match ec_temp_k(&f.value) {
            Ok(t) => {
                cur.temperature = t;
                star_fold(cur, fs)
            },
            Err(d) => Err(d),
        }
    } else if string_is(&f.key, "temperature_celsius") {
        match ec_temp_c(&f.value) {
            Ok(t) => {
                cur.temperature = t;
                star_fold(cur, fs)
            },
            Err(d) => Err(d),
        }
    } else if string_is(&f.key, "star_type") {
        match ec_str(f.value) {
            Ok(s) => {
                cur.star_type = s;
                star_fold(cur, fs)
            },
            Err(d) => Err(d),
        }
    } else {
        Err(unknown_field(&f.key, f.key_start, f.key_end, star_kws()))
    }
}

/// Conversion of a `star_data` value: it must be a record.
pub open spec fn spec_star_rec(v: MRaw) -> Result<MStarData, MDiag> {
    match v.node {
        MRawNode::Rec(fs) => spec_star_fields(crate::stellar_system::star_default(), fs),
        _ => Err(m_bad(v, seq!["record"@])),
    }
}

fn star_rec(v: RawValue) -> (r: Result<StarData, Diagnostic>)
    requires
        raw_wf(raw_model(v)),
    ensures
        match (r, spec_star_rec(raw_model(v))) {
            (Ok(g), Ok(mg)) => g@ == mg,
            (Err(d), Err(md)) => d@ == md,
            _ => false,
        },
{
    match v.node {
        RawNode::Rec(fs) => star_fold(StarData::default(), fs),
        _ => {
            let v2 = RawValue { node: v.node, start: v.start, end: v.end };
            Err(bad_value(&v2, exp1("record")))
        },
    }
}

/// The moon fields: a planet's, without a ring or further moons.
pub open spec fn moon_keywords() -> Seq<Seq<char>> {
    seq![
        "name"@,
        "asset_location"@,
        "size"@,
        "planet_type"@,
        "magnetosphere"@,
        "atmosphere"@,
        "temperature_kelvin"@,
        "temperature_celsius"@,
        "water"@,
        "breathability"@,
        "natural_resources"@,
    ]
}

fn moon_kws() -> (r: Vec<String>)
    ensures
        r.deep_view() =~= moon_keywords(),
{
    let mut v: Vec<String> = Vec::new();
    v.push(String::from_str("name"));
    v.push(String::from_str("asset_location"));
    v.push(String::from_str("size"));
    v.push(String::from_str("planet_type"));
    v.push(String::from_str("magnetosphere"));
    v.push(String::from_str("atmosphere"));
    v.push(String::from_str("temperature_kelvin"));
    v.push(String::from_str("temperature_celsius"));
    v.push(String::from_str("water"));
    v.push(String::from_str("breathability"));
    v.push(String::from_str("natural_resources"));
    proof {
        assert(v.deep_view() =~= moon_keywords());
    }
    v
}

/// Conversion of a `natural_resources` value: it must be a list.
pub open spec fn sc_natres_value(v: MRaw) -> Result<Seq<MNaturalResource>, MDiag> {
    match v.node {
        MRawNode::List(items) => spec_natres(items),
        _ => Err(m_bad(v, seq!["list"@])),
    }
}

fn ec_natres_value(v: RawValue) -> (r: Result<Vec<NaturalResource>, Diagnostic>)
    requires
        raw_wf(raw_model(v)),
    ensures
        match (r, sc_natres_value(raw_model(v))) {
            (Ok(gs), Ok(mgs)) => seq_view(gs@) == mgs,
            (Err(d), Err(md)) => d@ == md,
            _ => false,
        },
{
    match v.node {
        RawNode::List(items) => conv_natres(items),
        _ => {
            let v2 = RawValue { node: v.node, start: v.start, end: v.end };
            Err(bad_value(&v2, exp1("list")))
        },
    }
}

/// Conversion of the fields of a `moon_data` record.
pub open spec fn spec_moon_fields(cur: MMoonData, fs: Seq<MRawField>) -> Result<MMoonData, MDiag>
    decreases fs,
{
    if fs.len() == 0 {
        Ok(cur)
    } else {
        let f = fs[0];
        if f.key == "name"@ {
            match sc_str(f.value) {
                Ok(s) => spec_moon_fields(MMoonData { name: s, ..cur }, fs.drop_first()),
                Err(e) => Err(e),
            }
        } else if f.key == "asset_location"@ {
            match sc_str(f.value) {
                Ok(s) => spec_moon_fields(MMoonData { asset_location: s, ..cur }, fs.drop_first()),
                Err(e) => Err(e),
            }
        } else if f.key == "size"@ {
            match sc_u16(f.value) {
                Ok(x) => spec_moon_fields(MMoonData { size: x, ..cur }, fs.drop_first()),
                Err(e) => Err(e),
            }
        } else if f.key == "planet_type"@ {
            match sc_str(f.value) {
                Ok(s) => spec_moon_fields(MMoonData { planet_type: s, ..cur }, fs.drop_first()),
                Err(e) => Err(e),
            }
        } else if f.key == "magnetosphere"@ {
            match sc_dec(f.value) {
                Ok(d) => spec_moon_fields(MMoonData { magnetosphere: d, ..cur }, fs.drop_first()),
                Err(e) => Err(e),
            }
        } else if f.key == "atmosphere"@ {
            match sc_dec(f.value) {
                Ok(d) => spec_moon_fields(MMoonData { atmosphere: d, ..cur }, fs.drop_first()),
                Err(e) => Err(e),
            }
        } else if f.key == "temperature_kelvin"@ {
            match sc_temp_k(f.value) {
                Ok(t) => spec_moon_fields(MMoonData { temperature: t, ..cur }, fs.drop_first()),
                Err(e) => Err(e),
            }
        } else if f.key == "temperature_celsius"@ {
            match sc_temp_c(f.value) {
                Ok(t) => spec_moon_fields(MMoonData { temperature: t, ..cur }, fs.drop_first()),
                Err(e) => Err(e),
            }
        } else if f.key == "water"@ {
            match sc_dec(f.value) {
                Ok(d) => spec_moon_fields(MMoonData { water: d, ..cur }, fs.drop_first()),
                Err(e) => Err(e),
            }
        } else if f.key == "breathability"@ {
            match sc_dec(f.value) {
                Ok(d) => spec_moon_fields(MMoonData { breathability: d, ..cur }, fs.drop_first()),
                Err(e) => Err(e),
            }
        } else if f.key == "natural_resources"@ {
            match sc_natres_value(f.value) {
                Ok(ns) => spec_moon_fields(
                    MMoonData { natural_resources: ns, ..cur },
                    fs.drop_first(),
                ),
                Err(e) => Err(e),
            }
        } else {
            Err(m_unknown_field(f, moon_keywords()))
        }
    }
}

#[verifier::rlimit(100)]
#[verifier::spinoff_prover]
fn moon_fold(cur: MoonData, fs: Vec<RawField>) -> (r: Result<MoonData, Diagnostic>)
    requires
        fields_wf(fields_model(fs@)),
    ensures
        match (r, spec_moon_fields(cur@, fields_model(fs@))) {
            (Ok(g), Ok(mg)) => g@ == mg,
            (Err(d), Err(md)) => d@ == md,
            _ => false,
        },
    decreases fs@.len(),
{
    let mut fs = fs;
    let mut cur = cur;
    if fs.len() == 0 {
        return Ok(cur);
    }
    let ghost fs0 = fs@;
    let f = fs.remove(0);
    proof {
        assert(fs@ =~= fs0.drop_first());
        assert(fields_model(fs0) == seq![field_model(fs0[0])] + fields_model(fs0.drop_first()));
        assert(fields_model(fs0)[0] == field_model(f));
        assert(fields_model(fs0).drop_first() =~= fields_model(fs@));
    }
    if string_is(&f.key, "name") {
        match ec_str(f.value) {
            Ok(s) => {
                cur.name = s;
                moon_fold(cur, fs)
            },
            Err(d) => Err(d),
        }
    } else if string_is(&f.key, "asset_location") {
        match ec_str(f.value) {
            Ok(s) => {
                cur.asset_location = s;
                moon_fold(cur, fs)
            },
            Err(d) => Err(d),
        }
    } else if string_is(&f.key, "size") {
        match ec_u16(&f.value) {
            Ok(x) => {
                cur.size = x;
                moon_fold(cur, fs)
            },
            Err(d) => Err(d),
        }
    } else if string_is(&f.key, "planet_type") {
        match ec_str(f.value) {
            Ok(s) => {
                cur.planet_type = s;
                moon_fold(cur, fs)
            },
            Err(d) => Err(d),
        }
    } else if string_is(&f.key, "magnetosphere") {
        match ec_dec(&f.value) {
            Ok(d) => {
                cur.magnetosphere = d;
                moon_fold(cur, fs)
            },
            Err(d) => Err(d),
        }
    } else if string_is(&f.key, "atmosphere") {
        match ec_dec(&f.value) {
            Ok(d) => {
                cur.atmosphere = d;
                moon_fold(cur, fs)
            },
            Err(d) => Err(d),
        }
    } else if string_is(&f.key, "temperature_kelvin") {
        match ec_temp_k(&f.value) {
            Ok(t) => {
                cur.temperature = t;
                moon_fold(cur, fs)
            },
            Err(d) => Err(d),
        }
    } else if string_is(&f.key, "temperature_celsius") {
        match ec_temp_c(&f.value) {
            Ok(t) => {
                cur.temperature = t;
                moon_fold(cur, fs)
            },
            Err(d) => Err(d),
        }
    } else if string_is(&f.key, "water") {
        match ec_dec(&f.value) {
            Ok(d) => {
                cur.water = d;
                moon_fold(cur, fs)
            },
            Err(d) => Err(d),
        }
    } else if string_is(&f.key, "breathability") {
        match ec_dec(&f.value) {
            Ok(d) => {
                cur.breathability = d;
                moon_fold(cur, fs)
            },
            Err(d) => Err(d),
        }
    } else if string_is(&f.key, "natural_resources") {
        match ec_natres_value(f.value) {
            Ok(ns) => {
                cur.natural_resources = ns;
                moon_fold(cur, fs)
            },
            Err(d) => Err(d),
        }
    } else {
        Err(unknown_field(&f.key, f.key_start, f.key_end, moon_kws()))
    }
}

/// Conversion of one `moon_data` list entry.
pub open spec fn spec_moon_rec(v: MRaw) -> Result<MMoonData, MDiag> {
    match v.node {
        MRawNode::Rec(fs) => spec_moon_fields(crate::stellar_system::moon_default(), fs),
        _ => Err(m_bad(v, seq!["record"@])),
    }
}

fn moon_rec(v: RawValue) -> (r: Result<MoonData, Diagnostic>)
    requires
        raw_wf(raw_model(v)),
    ensures
        match (r, spec_moon_rec(raw_model(v))) {
            (Ok(g), Ok(mg)) => g@ == mg,
            (Err(d), Err(md)) => d@ == md,
            _ => false,
        },
{
    match v.node {
        RawNode::Rec(fs) => moon_fold(MoonData::default(), fs),
        _ => {
            let v2 = RawValue { node: v.node, start: v.start, end: v.end };
            Err(bad_value(&v2, exp1("record")))
        },
    }
}

/// Conversion of a moon list.
pub open spec fn spec_moons(items: Seq<MRaw>) -> Result<Seq<MMoonData>, MDiag>
    decreases items,
{
    if items.len() == 0 {
        Ok(Seq::empty())
    } else {
        match spec_moon_rec(items[0]) {
            Ok(g) => match spec_moons(items.drop_first()) {
                Ok(rest) => Ok(seq![g] + rest),
                Err(d) => Err(d),
            },
            Err(d) => Err(d),
        }
    }
}

fn conv_moons(items: Vec<RawValue>) -> (r: Result<Vec<MoonData>, Diagnostic>)
    requires
        raws_wf(raws_model(items@)),
    ensures
        match (r, spec_moons(raws_model(items@))) {
            (Ok(gs), Ok(mgs)) => seq_view(gs@) == mgs,
            (Err(d), Err(md)) => d@ == md,
            _ => false,
        },
    decreases items@.len(),
{
    let mut items = items;
    if items.len() == 0 {
        let gs: Vec<MoonData> = Vec::new();
        proof {
            assert(seq_view(gs@) =~= Seq::<MMoonData>::empty());
        }
        return Ok(gs);
    }
    let ghost is0 = items@;
    let first = items.remove(0);
    proof {
        assert(items@ =~= is0.drop_first());
        assert(raws_model(is0) == seq![raw_model(is0[0])] + raws_model(is0.drop_first()));
        assert(raws_model(is0)[0] == raw_model(first));
        assert(raws_model(is0).drop_first() =~= raws_model(items@));
    }
    match moon_rec(first) {
        Ok(g) => match conv_moons(items) {
            Ok(mut rest) => {
                let ghost r0 = rest@;
                rest.insert(0, g);
                proof {
                    assert(rest@ =~= seq![rest@[0]] + r0);
                    assert(seq_view(rest@) =~= seq![rest@[0]@] + seq_view(r0));
                }
                Ok(rest)
            },
            Err(d) => Err(d),
        },
        Err(d) => Err(d),
    }
}
/// Conversion of a `moon_data` value: it must be a list of records.
pub open spec fn sc_moons_value(v: MRaw) -> Result<Seq<MMoonData>, MDiag> {
    match v.node {
        MRawNode::List(items) => spec_moons(items),
        _ => Err(m_bad(v, seq!["list"@])),
    }
}

fn ec_moons_value(v: RawValue) -> (r: Result<Vec<MoonData>, Diagnostic>)
    requires
        raw_wf(raw_model(v)),
    ensures
        match (r, sc_moons_value(raw_model(v))) {
            (Ok(gs), Ok(mgs)) => seq_view(gs@) == mgs,
            (Err(d), Err(md)) => d@ == md,
            _ => false,
        },
{
    match v.node {
        RawNode::List(items) => conv_moons(items),
        _ => {
            let v2 = RawValue { node: v.node, start: v.start, end: v.end };
            Err(bad_value(&v2, exp1("list")))
        },
    }
}

pub open spec fn planet_keywords() -> Seq<Seq<char>> {
    moon_keywords() + seq!["ring"@, "moon_data"@]
}

fn planet_kws() -> (r: Vec<String>)
    ensures
        r.deep_view() =~= planet_keywords(),
{
    let mut v = moon_kws();
    v.push(String::from_str("ring"));
    v.push(String::from_str("moon_data"));
    proof {
        assert(v.deep_view() =~= planet_keywords());
    }
    v
}

/// Conversion of the fields of a `planet_data` record.
pub open spec fn spec_planet_fields(cur: MPlanetData, fs: Seq<MRawField>) -> Result<
    MPlanetData,
    MDiag,
>
    decreases fs,
{
    if fs.len() == 0 {
        Ok(cur)
    } else {
        let f = fs[0];
        if f.key == "name"@ {
            match sc_str(f.value) {
                Ok(s) => spec_planet_fields(MPlanetData { name: s, ..cur }, fs.drop_first()),
                Err(e) => Err(e),
            }
        } else if f.key == "asset_location"@ {
            match sc_str(f.value) {
                Ok(s) => spec_planet_fields(
                    MPlanetData { asset_location: s, ..cur },
                    fs.drop_first(),
                ),
                Err(e) => Err(e),
            }
        } else if f.key == "size"@ {
            match sc_u16(f.value) {
                Ok(x) => spec_planet_fields(MPlanetData { size: x, ..cur }, fs.drop_first()),
                Err(e) => Err(e),
            }
        } else if f.key == "planet_type"@ {
            match sc_str(f.value) {
                Ok(s) => spec_planet_fields(MPlanetData { planet_type: s, ..cur }, fs.drop_first()),
                Err(e) => Err(e),
            }
        } else if f.key == "magnetosphere"@ {
            match sc_dec(f.value) {
                Ok(d) => spec_planet_fields(
                    MPlanetData { magnetosphere: d, ..cur },
                    fs.drop_first(),
                ),
                Err(e) => Err(e),
            }
        } else if f.key == "atmosphere"@ {
            match sc_dec(f.value) {
                Ok(d) => spec_planet_fields(MPlanetData { atmosphere: d, ..cur }, fs.drop_first()),
                Err(e) => Err(e),
            }
        } else if f.key == "temperature_kelvin"@ {
            match sc_temp_k(f.value) {
                Ok(t) => spec_planet_fields(MPlanetData { temperature: t, ..cur }, fs.drop_first()),
                Err(e) => Err(e),
            }
        } else if f.key == "temperature_celsius"@ {
            match sc_temp_c(f.value) {
                Ok(t) => spec_planet_fields(MPlanetData { temperature: t, ..cur }, fs.drop_first()),
                Err(e) => Err(e),
            }
        } else if f.key == "water"@ {
            match sc_dec(f.value) {
                Ok(d) => spec_planet_fields(MPlanetData { water: d, ..cur }, fs.drop_first()),
                Err(e) => Err(e),
            }
        } else if f.key == "breathability"@ {
            match sc_dec(f.value) {
                Ok(d) => spec_planet_fields(
                    MPlanetData { breathability: d, ..cur },
                    fs.drop_first(),
                ),
                Err(e) => Err(e),
            }
        } else if f.key == "natural_resources"@ {
            match sc_natres_value(f.value) {
                Ok(ns) => spec_planet_fields(
                    MPlanetData { natural_resources: ns, ..cur },
                    fs.drop_first(),
                ),
                Err(e) => Err(e),
            }
        } else if f.key == "ring"@ {
            match sc_bool(f.value) {
                Ok(b) => spec_planet_fields(MPlanetData { ring: b, ..cur }, fs.drop_first()),
                Err(e) => Err(e),
            }
        } else if f.key == "moon_data"@ {
            match sc_moons_value(f.value) {
                Ok(ms) => spec_planet_fields(MPlanetData { moons: ms, ..cur }, fs.drop_first()),
                Err(e) => Err(e),
            }
        } else {
            Err(m_unknown_field(f, planet_keywords()))
        }
    }
}

#[verifier::rlimit(100)]
#[verifier::spinoff_prover]
fn planet_fold(cur: PlanetData, fs: Vec<RawField>) -> (r: Result<PlanetData, Diagnostic>)
    requires
        fields_wf(fields_model(fs@)),
    ensures
        match (r, spec_planet_fields(cur@, fields_model(fs@))) {
            (Ok(g), Ok(mg)) => g@ == mg,
            (Err(d), Err(md)) => d@ == md,
            _ => false,
        },
    decreases fs@.len(),
{
    let mut fs = fs;
    let mut cur = cur;
    if fs.len() == 0 {
        return Ok(cur);
    }
    let ghost fs0 = fs@;
    let f = fs.remove(0);
    proof {
        assert(fs@ =~= fs0.drop_first());
        assert(fields_model(fs0) == seq![field_model(fs0[0])] + fields_model(fs0.drop_first()));
        assert(fields_model(fs0)[0] == field_model(f));
        assert(fields_model(fs0).drop_first() =~= fields_model(fs@));
    }
    if string_is(&f.key, "name") {
        match ec_str(f.value) {
            Ok(s) => {
                cur.name = s;
                planet_fold(cur, fs)
            },
            Err(d) => Err(d),
        }
    } else if string_is(&f.key, "asset_location") {
        match ec_str(f.value) {
            Ok(s) => {
                cur.asset_location = s;
                planet_fold(cur, fs)
            },
            Err(d) => Err(d),
        }
    } else if string_is(&f.key, "size") {
        match ec_u16(&f.value) {
            Ok(x) => {
                cur.size = x;
                planet_fold(cur, fs)
            },
            Err(d) => Err(d),
        }
    } else if string_is(&f.key, "planet_type") {
        match ec_str(f.value) {
            Ok(s) => {
                cur.planet_type = s;
                planet_fold(cur, fs)
            },
            Err(d) => Err(d),
        }
    } else if string_is(&f.key, "magnetosphere") {
        match ec_dec(&f.value) {
            Ok(d) => {
                cur.magnetosphere = d;
                planet_fold(cur, fs)
            },
            Err(d) => Err(d),
        }
    } else if string_is(&f.key, "atmosphere") {
        match ec_dec(&f.value) {
            Ok(d) => {
                cur.atmosphere = d;
                planet_fold(cur, fs)
            },
            Err(d) => Err(d),
        }
    } else if string_is(&f.key, "temperature_kelvin") {
        match ec_temp_k(&f.value) {
            Ok(t) => {
                cur.temperature = t;
                planet_fold(cur, fs)
            },
            Err(d) => Err(d),
        }
    } else if string_is(&f.key, "temperature_celsius") {
        match ec_temp_c(&f.value) {
            Ok(t) => {
                cur.temperature = t;
                planet_fold(cur, fs)
            },
            Err(d) => Err(d),
        }
    } else if string_is(&f.key, "water") {
        match ec_dec(&f.value) {
            Ok(d) => {
                cur.water = d;
                planet_fold(cur, fs)
            },
            Err(d) => Err(d),
        }
    } else if string_is(&f.key, "breathability") {
        match ec_dec(&f.value) {
            Ok(d) => {
                cur.breathability = d;
                planet_fold(cur, fs)
            },
            Err(d) => Err(d),
        }
    } else if string_is(&f.key, "natural_resources") {
        match ec_natres_value(f.value) {
            Ok(ns) => {
                cur.natural_resources = ns;
                planet_fold(cur, fs)
            },
            Err(d) => Err(d),
        }
    } else if string_is(&f.key, "ring") {
        match ec_bool(&f.value) {
            Ok(b) => {
                cur.ring = b;
                planet_fold(cur, fs)
            },
            Err(d) => Err(d),
        }
    } else if string_is(&f.key, "moon_data") {
        match ec_moons_value(f.value) {
            Ok(ms) => {
                cur.moons = ms;
                planet_fold(cur, fs)
            },
            Err(d) => Err(d),
        }
    } else {
        Err(unknown_field(&f.key, f.key_start, f.key_end, planet_kws()))
    }
}

/// Conversion of one planet list entry.
pub open spec fn spec_planet_rec(v: MRaw) -> Result<MPlanetData, MDiag> {
    match v.node {
        MRawNode::Rec(fs) => spec_planet_fields(crate::stellar_system::planet_default(), fs),
        _ => Err(m_bad(v, seq!["record"@])),
    }
}

fn planet_rec(v: RawValue) -> (r: Result<PlanetData, Diagnostic>)
    requires
        raw_wf(raw_model(v)),
    ensures
        match (r, spec_planet_rec(raw_model(v))) {
            (Ok(g), Ok(mg)) => g@ == mg,
            (Err(d), Err(md)) => d@ == md,
            _ => false,
        },
{
    match v.node {
        RawNode::Rec(fs) => planet_fold(PlanetData::default(), fs),
        _ => {
            let v2 = RawValue { node: v.node, start: v.start, end: v.end };
            Err(bad_value(&v2, exp1("record")))
        },
    }
}

/// Conversion of a planet list.
pub open spec fn spec_planets(items: Seq<MRaw>) -> Result<Seq<MPlanetData>, MDiag>
    decreases items,
{
    if items.len() == 0 {
        Ok(Seq::empty())
    } else {
        match spec_planet_rec(items[0]) {
            Ok(g) => match spec_planets(items.drop_first()) {
                Ok(rest) => Ok(seq![g] + rest),
                Err(d) => Err(d),
            },
            Err(d) => Err(d),
        }
    }
}

fn conv_planets(items: Vec<RawValue>) -> (r: Result<Vec<PlanetData>, Diagnostic>)
    requires
        raws_wf(raws_model(items@)),
    ensures
        match (r, spec_planets(raws_model(items@))) {
            (Ok(gs), Ok(mgs)) => seq_view(gs@) == mgs,
            (Err(d), Err(md)) => d@ == md,
            _ => false,
        },
    decreases items@.len(),
{
    let mut items = items;
    if items.len() == 0 {
        let gs: Vec<PlanetData> = Vec::new();
        proof {
            assert(seq_view(gs@) =~= Seq::<MPlanetData>::empty());
        }
        return Ok(gs);
    }
    let ghost is0 = items@;
    let first = items.remove(0);
    proof {
        assert(items@ =~= is0.drop_first());
        assert(raws_model(is0) == seq![raw_model(is0[0])] + raws_model(is0.drop_first()));
        assert(raws_model(is0)[0] == raw_model(first));
        assert(raws_model(is0).drop_first() =~= raws_model(items@));
    }
    match planet_rec(first) {
        Ok(g) => match conv_planets(items) {
            Ok(mut rest) => {
                let ghost r0 = rest@;
                rest.insert(0, g);
                proof {
                    assert(rest@ =~= seq![rest@[0]] + r0);
                    assert(seq_view(rest@) =~= seq![rest@[0]@] + seq_view(r0));
                }
                Ok(rest)
            },
            Err(d) => Err(d),
        },
        Err(d) => Err(d),
    }
}
pub const F_NAME: u32 = 0;
pub const F_TIME: u32 = 1;
pub const F_DESCRIPTION: u32 = 2;
pub const F_ICON: u32 = 3;
pub const F_BUY_VALUE: u32 = 4;
pub const F_SELL_VALUE: u32 = 5;
pub const F_GOOD_TYPE: u32 = 6;
pub const F_HARDCODED_ID: u32 = 7;
pub const F_CONSUMPTION_TYPE: u32 = 8;
pub const F_PROSPERITY_BONUS: u32 = 9;
pub const F_PROSPERITY_COST: u32 = 10;
pub const F_PLANET_FILTERS: u32 = 11;
pub const F_INITIAL: u32 = 12;
pub const F_UNIQUE: u32 = 13;
pub const F_ENERGY: u32 = 14;
pub const F_PRIVATE_COSTS: u32 = 15;
pub const F_STATIONS: u32 = 16;
pub const F_COSTS: u32 = 17;
pub const F_CONSUMES: u32 = 18;
pub const F_UPKEEP: u32 = 19;
pub const F_PRODUCES: u32 = 20;
pub const F_HOUSING: u32 = 21;
pub const F_WORKERS: u32 = 22;
pub const F_PRIVATE_SECTOR: u32 = 23;
pub const F_MAGNETOSPHERE_EQ: u32 = 24;
pub const F_ATMOSPHERE_EQ: u32 = 25;
pub const F_TEMPERATURE_CHANGE: u32 = 26;
pub const F_WATER_CHANGE: u32 = 27;
pub const F_BREATHABLE_CHANGE: u32 = 28;
pub const F_TECH_NEEDED: u32 = 29;
pub const F_UPGRADES_FROM: u32 = 30;
pub const F_PROSPERITY_PER_JOB: u32 = 31;
pub const F_CLASS: u32 = 32;
pub const F_ABUNDANCES: u32 = 33;
pub const F_ASSET_LOCATION: u32 = 34;
pub const F_SETUP: u32 = 35;
pub const F_ON_TERRAFORM: u32 = 36;
pub const F_DEPOT_ASSET: u32 = 37;
pub const F_SHIP_ASSET: u32 = 38;
pub const F_POWER: u32 = 39;
pub const F_BUILDING_LIMIT: u32 = 40;
pub const F_SWARM_ASSET: u32 = 41;
pub const F_RECEIVER_ASSET: u32 = 42;
pub const F_SHIP_CLASS: u32 = 43;
pub const F_SCALE: u32 = 44;
pub const F_STARTS_WITH: u32 = 45;
pub const F_LEVEL_REQUIRED: u32 = 46;
pub const F_BASE_STRENGTH: u32 = 47;
pub const F_FLEET_STRENGTH: u32 = 48;
pub const F_POPULATION_IMPACT: u32 = 49;
pub const F_TECH_REQUIRED: u32 = 50;
pub const F_PRIVATE_BUILDINGS: u32 = 51;
pub const F_NUMBER_OF_STARS: u32 = 52;
pub const F_STOCKPILE_MAX: u32 = 53;
pub const F_HUCK_MAX: u32 = 54;
pub const F_STAR_DATA: u32 = 55;
pub const F_PLANET_DATA: u32 = 56;
pub const F_ASTEROID_BELT: u32 = 57;
pub const F_SURVEYED: u32 = 58;
pub const F_EFFECTS: u32 = 59;

pub open spec fn tech_field(kw: Seq<char>) -> Option<(u32, FieldKind)> {
    if kw == "name"@ {
        Some((F_NAME, FieldKind::KStr))
    } else if kw == "time"@ {
        Some((F_TIME, FieldKind::KU8))
    } else if kw == "description"@ {
        Some((F_DESCRIPTION, FieldKind::KStr))
    } else {
        None
    }
}

pub open spec fn tech_keywords() -> Seq<Seq<char>> {
    seq!["name"@, "time"@, "description"@]
}

pub fn tech_kws() -> (r: Vec<String>)
    ensures
        r.deep_view() =~= tech_keywords(),
{
    let mut v: Vec<String> = Vec::new();
    v.push(String::from_str("name"));
    v.push(String::from_str("time"));
    v.push(String::from_str("description"));
    proof {
        assert(v.deep_view() =~= tech_keywords());
    }
    v
}

fn tech_lookup(kw: &String) -> (r: Option<(u32, FieldKind)>)
    ensures
        r == tech_field(kw@),
{
    if string_is(kw, "name") {
        Some((F_NAME, FieldKind::KStr))
    } else if string_is(kw, "time") {
        Some((F_TIME, FieldKind::KU8))
    } else if string_is(kw, "description") {
        Some((F_DESCRIPTION, FieldKind::KStr))
    } else {
        None
    }
}

pub open spec fn goods_field(kw: Seq<char>) -> Option<(u32, FieldKind)> {
    if kw == "icon"@ {
        Some((F_ICON, FieldKind::KStr))
    } else if kw == "name"@ {
        Some((F_NAME, FieldKind::KStr))
    } else if kw == "buy_value"@ {
        Some((F_BUY_VALUE, FieldKind::KDec))
    } else if kw == "sell_value"@ {
        Some((F_SELL_VALUE, FieldKind::KDec))
    } else if kw == "good_type"@ {
        Some((F_GOOD_TYPE, FieldKind::KGoodType))
    } else if kw == "hardcoded_id"@ {
        Some((F_HARDCODED_ID, FieldKind::KU8))
    } else if kw == "consumption_type"@ {
        Some((F_CONSUMPTION_TYPE, FieldKind::KConsumption))
    } else if kw == "prosperity_bonus"@ {
        Some((F_PROSPERITY_BONUS, FieldKind::KDec))
    } else if kw == "prosperity_cost"@ {
        Some((F_PROSPERITY_COST, FieldKind::KDec))
    } else {
        None
    }
}

pub open spec fn goods_keywords() -> Seq<Seq<char>> {
    seq!["icon"@, "name"@, "buy_value"@, "sell_value"@, "good_type"@, "hardcoded_id"@, "consumption_type"@, "prosperity_bonus"@, "prosperity_cost"@]
}

pub fn goods_kws() -> (r: Vec<String>)
    ensures
        r.deep_view() =~= goods_keywords(),
{
    let mut v: Vec<String> = Vec::new();
    v.push(String::from_str("icon"));
    v.push(String::from_str("name"));
    v.push(String::from_str("buy_value"));
    v.push(String::from_str("sell_value"));
    v.push(String::from_str("good_type"));
    v.push(String::from_str("hardcoded_id"));
    v.push(String::from_str("consumption_type"));
    v.push(String::from_str("prosperity_bonus"));
    v.push(String::from_str("prosperity_cost"));
    proof {
        assert(v.deep_view() =~= goods_keywords());
    }
    v
}

fn goods_lookup(kw: &String) -> (r: Option<(u32, FieldKind)>)
    ensures
        r == goods_field(kw@),
{
    if string_is(kw, "icon") {
        Some((F_ICON, FieldKind::KStr))
    } else if string_is(kw, "name") {
        Some((F_NAME, FieldKind::KStr))
    } else if string_is(kw, "buy_value") {
        Some((F_BUY_VALUE, FieldKind::KDec))
    } else if string_is(kw, "sell_value") {
        Some((F_SELL_VALUE, FieldKind::KDec))
    } else if string_is(kw, "good_type") {
        Some((F_GOOD_TYPE, FieldKind::KGoodType))
    } else if string_is(kw, "hardcoded_id") {
        Some((F_HARDCODED_ID, FieldKind::KU8))
    } else if string_is(kw, "consumption_type") {
        Some((F_CONSUMPTION_TYPE, FieldKind::KConsumption))
    } else if string_is(kw, "prosperity_bonus") {
        Some((F_PROSPERITY_BONUS, FieldKind::KDec))
    } else if string_is(kw, "prosperity_cost") {
        Some((F_PROSPERITY_COST, FieldKind::KDec))
    } else {
        None
    }
}

pub open spec fn building_field(kw: Seq<char>) -> Option<(u32, FieldKind)> {
    if kw == "name"@ {
        Some((F_NAME, FieldKind::KStr))
    } else if kw == "build_planets"@ {
        Some((F_PLANET_FILTERS, FieldKind::KFilters))
    } else if kw == "initial"@ {
        Some((F_INITIAL, FieldKind::KBool))
    } else if kw == "unique"@ {
        Some((F_UNIQUE, FieldKind::KBool))
    } else if kw == "energy"@ {
        Some((F_ENERGY, FieldKind::KDec))
    } else if kw == "private_cost"@ {
        Some((F_PRIVATE_COSTS, FieldKind::KDec))
    } else if kw == "stations"@ {
        Some((F_STATIONS, FieldKind::KStations))
    } else if kw == "costs"@ {
        Some((F_COSTS, FieldKind::KCGoods))
    } else if kw == "consumes"@ {
        Some((F_CONSUMES, FieldKind::KCGoods))
    } else if kw == "upkeep"@ {
        Some((F_UPKEEP, FieldKind::KCGoods))
    } else if kw == "produces"@ {
        Some((F_PRODUCES, FieldKind::KCGoods))
    } else if kw == "housing"@ {
        Some((F_HOUSING, FieldKind::KU64))
    } else if kw == "workers"@ {
        Some((F_WORKERS, FieldKind::KU64))
    } else if kw == "private_sector"@ {
        Some((F_PRIVATE_SECTOR, FieldKind::KBool))
    } else if kw == "magnetosphere_equilibrium"@ {
        Some((F_MAGNETOSPHERE_EQ, FieldKind::KImpact))
    } else if kw == "atmosphere_equilibrium"@ {
        Some((F_ATMOSPHERE_EQ, FieldKind::KImpact))
    } else if kw == "temperature_change"@ {
        Some((F_TEMPERATURE_CHANGE, FieldKind::KDec))
    } else if kw == "water_change"@ {
        Some((F_WATER_CHANGE, FieldKind::KDec))
    } else if kw == "breathable_change"@ {
        Some((F_BREATHABLE_CHANGE, FieldKind::KDec))
    } else if kw == "tech_needed"@ {
        Some((F_TECH_NEEDED, FieldKind::KStr))
    } else if kw == "upgrades_from"@ {
        Some((F_UPGRADES_FROM, FieldKind::KStr))
    } else if kw == "prosperity_per_job"@ {
        Some((F_PROSPERITY_PER_JOB, FieldKind::KDec))
    } else {
        None
    }
}

pub open spec fn building_keywords() -> Seq<Seq<char>> {
    seq!["name"@, "build_planets"@, "initial"@, "unique"@, "energy"@, "private_cost"@, "stations"@, "costs"@, "consumes"@, "upkeep"@, "produces"@, "housing"@, "workers"@, "private_sector"@, "magnetosphere_equilibrium"@, "atmosphere_equilibrium"@, "temperature_change"@, "water_change"@, "breathable_change"@, "tech_needed"@, "upgrades_from"@, "prosperity_per_job"@]
}

pub fn building_kws() -> (r: Vec<String>)
    ensures
        r.deep_view() =~= building_keywords(),
{
    let mut v: Vec<String> = Vec::new();
    v.push(String::from_str("name"));
    v.push(String::from_str("build_planets"));
    v.push(String::from_str("initial"));
    v.push(String::from_str("unique"));
    v.push(String::from_str("energy"));
    v.push(String::from_str("private_cost"));
    v.push(String::from_str("stations"));
    v.push(String::from_str("costs"));
    v.push(String::from_str("consumes"));
    v.push(String::from_str("upkeep"));
    v.push(String::from_str("produces"));
    v.push(String::from_str("housing"));
    v.push(String::from_str("workers"));
    v.push(String::from_str("private_sector"));
    v.push(String::from_str("magnetosphere_equilibrium"));
    v.push(String::from_str("atmosphere_equilibrium"));
    v.push(String::from_str("temperature_change"));
    v.push(String::from_str("water_change"));
    v.push(String::from_str("breathable_change"));
    v.push(String::from_str("tech_needed"));
    v.push(String::from_str("upgrades_from"));
    v.push(String::from_str("prosperity_per_job"));
    proof {
        assert(v.deep_view() =~= building_keywords());
    }
    v
}

fn building_lookup(kw: &String) -> (r: Option<(u32, FieldKind)>)
    ensures
        r == building_field(kw@),
{
    if string_is(kw, "name") {
        Some((F_NAME, FieldKind::KStr))
    } else if string_is(kw, "build_planets") {
        Some((F_PLANET_FILTERS, FieldKind::KFilters))
    } else if string_is(kw, "initial") {
        Some((F_INITIAL, FieldKind::KBool))
    } else if string_is(kw, "unique") {
        Some((F_UNIQUE, FieldKind::KBool))
    } else if string_is(kw, "energy") {
        Some((F_ENERGY, FieldKind::KDec))
    } else if string_is(kw, "private_cost") {
        Some((F_PRIVATE_COSTS, FieldKind::KDec))
    } else if string_is(kw, "stations") {
        Some((F_STATIONS, FieldKind::KStations))
    } else if string_is(kw, "costs") {
        Some((F_COSTS, FieldKind::KCGoods))
    } else if string_is(kw, "consumes") {
        Some((F_CONSUMES, FieldKind::KCGoods))
    } else if string_is(kw, "upkeep") {
        Some((F_UPKEEP, FieldKind::KCGoods))
    } else if string_is(kw, "produces") {
        Some((F_PRODUCES, FieldKind::KCGoods))
    } else if string_is(kw, "housing") {
        Some((F_HOUSING, FieldKind::KU64))
    } else if string_is(kw, "workers") {
        Some((F_WORKERS, FieldKind::KU64))
    } else if string_is(kw, "private_sector") {
        Some((F_PRIVATE_SECTOR, FieldKind::KBool))
    } else if string_is(kw, "magnetosphere_equilibrium") {
        Some((F_MAGNETOSPHERE_EQ, FieldKind::KImpact))
    } else if string_is(kw, "atmosphere_equilibrium") {
        Some((F_ATMOSPHERE_EQ, FieldKind::KImpact))
    } else if string_is(kw, "temperature_change") {
        Some((F_TEMPERATURE_CHANGE, FieldKind::KDec))
    } else if string_is(kw, "water_change") {
        Some((F_WATER_CHANGE, FieldKind::KDec))
    } else if string_is(kw, "breathable_change") {
        Some((F_BREATHABLE_CHANGE, FieldKind::KDec))
    } else if string_is(kw, "tech_needed") {
        Some((F_TECH_NEEDED, FieldKind::KStr))
    } else if string_is(kw, "upgrades_from") {
        Some((F_UPGRADES_FROM, FieldKind::KStr))
    } else if string_is(kw, "prosperity_per_job") {
        Some((F_PROSPERITY_PER_JOB, FieldKind::KDec))
    } else {
        None
    }
}

pub open spec fn designation_field(kw: Seq<char>) -> Option<(u32, FieldKind)> {
    if kw == "name"@ {
        Some((F_NAME, FieldKind::KStr))
    } else if kw == "description"@ {
        Some((F_DESCRIPTION, FieldKind::KStr))
    } else if kw == "building_limit"@ {
        Some((F_BUILDING_LIMIT, FieldKind::KBuildingLimit))
    } else if kw == "housing"@ {
        Some((F_HOUSING, FieldKind::KHousing))
    } else if kw == "population_impact"@ {
        Some((F_POPULATION_IMPACT, FieldKind::KPopImpact))
    } else if kw == "tech_required"@ {
        Some((F_TECH_REQUIRED, FieldKind::KStr))
    } else if kw == "build_planets"@ {
        Some((F_PLANET_FILTERS, FieldKind::KFilters))
    } else if kw == "private_buildings"@ {
        Some((F_PRIVATE_BUILDINGS, FieldKind::KPrivateBuildings))
    } else {
        None
    }
}

pub open spec fn designation_keywords() -> Seq<Seq<char>> {
    seq!["name"@, "description"@, "building_limit"@, "housing"@, "population_impact"@, "tech_required"@, "build_planets"@, "private_buildings"@]
}

pub fn designation_kws() -> (r: Vec<String>)
    ensures
        r.deep_view() =~= designation_keywords(),
{
    let mut v: Vec<String> = Vec::new();
    v.push(String::from_str("name"));
    v.push(String::from_str("description"));
    v.push(String::from_str("building_limit"));
    v.push(String::from_str("housing"));
    v.push(String::from_str("population_impact"));
    v.push(String::from_str("tech_required"));
    v.push(String::from_str("build_planets"));
    v.push(String::from_str("private_buildings"));
    proof {
        assert(v.deep_view() =~= designation_keywords());
    }
    v
}

fn designation_lookup(kw: &String) -> (r: Option<(u32, FieldKind)>)
    ensures
        r == designation_field(kw@),
{
    if string_is(kw, "name") {
        Some((F_NAME, FieldKind::KStr))
    } else if string_is(kw, "description") {
        Some((F_DESCRIPTION, FieldKind::KStr))
    } else if string_is(kw, "building_limit") {
        Some((F_BUILDING_LIMIT, FieldKind::KBuildingLimit))
    } else if string_is(kw, "housing") {
        Some((F_HOUSING, FieldKind::KHousing))
    } else if string_is(kw, "population_impact") {
        Some((F_POPULATION_IMPACT, FieldKind::KPopImpact))
    } else if string_is(kw, "tech_required") {
        Some((F_TECH_REQUIRED, FieldKind::KStr))
    } else if string_is(kw, "build_planets") {
        Some((F_PLANET_FILTERS, FieldKind::KFilters))
    } else if string_is(kw, "private_buildings") {
        Some((F_PRIVATE_BUILDINGS, FieldKind::KPrivateBuildings))
    } else {
        None
    }
}

pub open spec fn orbital_field(kw: Seq<char>) -> Option<(u32, FieldKind)> {
    if kw == "name"@ {
        Some((F_NAME, FieldKind::KStr))
    } else if kw == "asset_location"@ {
        Some((F_ASSET_LOCATION, FieldKind::KStr))
    } else if kw == "consumes"@ {
        Some((F_COSTS, FieldKind::KGoods))
    } else if kw == "time"@ {
        Some((F_TIME, FieldKind::KU8))
    } else if kw == "building_limit"@ {
        Some((F_BUILDING_LIMIT, FieldKind::KU8))
    } else {
        None
    }
}

pub open spec fn orbital_keywords() -> Seq<Seq<char>> {
    seq!["name"@, "asset_location"@, "consumes"@, "time"@, "building_limit"@]
}

pub fn orbital_kws() -> (r: Vec<String>)
    ensures
        r.deep_view() =~= orbital_keywords(),
{
    let mut v: Vec<String> = Vec::new();
    v.push(String::from_str("name"));
    v.push(String::from_str("asset_location"));
    v.push(String::from_str("consumes"));
    v.push(String::from_str("time"));
    v.push(String::from_str("building_limit"));
    proof {
        assert(v.deep_view() =~= orbital_keywords());
    }
    v
}

fn orbital_lookup(kw: &String) -> (r: Option<(u32, FieldKind)>)
    ensures
        r == orbital_field(kw@),
{
    if string_is(kw, "name") {
        Some((F_NAME, FieldKind::KStr))
    } else if string_is(kw, "asset_location") {
        Some((F_ASSET_LOCATION, FieldKind::KStr))
    } else if string_is(kw, "consumes") {
        Some((F_COSTS, FieldKind::KGoods))
    } else if string_is(kw, "time") {
        Some((F_TIME, FieldKind::KU8))
    } else if string_is(kw, "building_limit") {
        Some((F_BUILDING_LIMIT, FieldKind::KU8))
    } else {
        None
    }
}

pub open spec fn planet_type_field(kw: Seq<char>) -> Option<(u32, FieldKind)> {
    if kw == "class"@ {
        Some((F_CLASS, FieldKind::KPlanetClass))
    } else if kw == "goods_abundance"@ {
        Some((F_ABUNDANCES, FieldKind::KAbundances))
    } else if kw == "set_asset"@ {
        Some((F_ASSET_LOCATION, FieldKind::KStr))
    } else if kw == "setup"@ {
        Some((F_SETUP, FieldKind::KBranch))
    } else if kw == "on_terraform"@ {
        Some((F_ON_TERRAFORM, FieldKind::KBranchList))
    } else {
        None
    }
}

pub open spec fn planet_type_keywords() -> Seq<Seq<char>> {
    seq!["class"@, "goods_abundance"@, "set_asset"@, "setup"@, "on_terraform"@]
}

pub fn planet_type_kws() -> (r: Vec<String>)
    ensures
        r.deep_view() =~= planet_type_keywords(),
{
    let mut v: Vec<String> = Vec::new();
    v.push(String::from_str("class"));
    v.push(String::from_str("goods_abundance"));
    v.push(String::from_str("set_asset"));
    v.push(String::from_str("setup"));
    v.push(String::from_str("on_terraform"));
    proof {
        assert(v.deep_view() =~= planet_type_keywords());
    }
    v
}

fn planet_type_lookup(kw: &String) -> (r: Option<(u32, FieldKind)>)
    ensures
        r == planet_type_field(kw@),
{
    if string_is(kw, "class") {
        Some((F_CLASS, FieldKind::KPlanetClass))
    } else if string_is(kw, "goods_abundance") {
        Some((F_ABUNDANCES, FieldKind::KAbundances))
    } else if string_is(kw, "set_asset") {
        Some((F_ASSET_LOCATION, FieldKind::KStr))
    } else if string_is(kw, "setup") {
        Some((F_SETUP, FieldKind::KBranch))
    } else if string_is(kw, "on_terraform") {
        Some((F_ON_TERRAFORM, FieldKind::KBranchList))
    } else {
        None
    }
}

pub open spec fn rank_field(kw: Seq<char>) -> Option<(u32, FieldKind)> {
    if kw == "name"@ {
        Some((F_NAME, FieldKind::KStr))
    } else if kw == "number_of_stars"@ {
        Some((F_NUMBER_OF_STARS, FieldKind::KU16))
    } else if kw == "stockpile_max"@ {
        Some((F_STOCKPILE_MAX, FieldKind::KU16))
    } else if kw == "huck_max"@ {
        Some((F_HUCK_MAX, FieldKind::KDec))
    } else if kw == "description"@ {
        Some((F_DESCRIPTION, FieldKind::KStr))
    } else {
        None
    }
}

pub open spec fn rank_keywords() -> Seq<Seq<char>> {
    seq!["name"@, "number_of_stars"@, "stockpile_max"@, "huck_max"@, "description"@]
}

pub fn rank_kws() -> (r: Vec<String>)
    ensures
        r.deep_view() =~= rank_keywords(),
{
    let mut v: Vec<String> = Vec::new();
    v.push(String::from_str("name"));
    v.push(String::from_str("number_of_stars"));
    v.push(String::from_str("stockpile_max"));
    v.push(String::from_str("huck_max"));
    v.push(String::from_str("description"));
    proof {
        assert(v.deep_view() =~= rank_keywords());
    }
    v
}

fn rank_lookup(kw: &String) -> (r: Option<(u32, FieldKind)>)
    ensures
        r == rank_field(kw@),
{
    if string_is(kw, "name") {
        Some((F_NAME, FieldKind::KStr))
    } else if string_is(kw, "number_of_stars") {
        Some((F_NUMBER_OF_STARS, FieldKind::KU16))
    } else if string_is(kw, "stockpile_max") {
        Some((F_STOCKPILE_MAX, FieldKind::KU16))
    } else if string_is(kw, "huck_max") {
        Some((F_HUCK_MAX, FieldKind::KDec))
    } else if string_is(kw, "description") {
        Some((F_DESCRIPTION, FieldKind::KStr))
    } else {
        None
    }
}

pub open spec fn ship_field(kw: Seq<char>) -> Option<(u32, FieldKind)> {
    if kw == "name"@ {
        Some((F_NAME, FieldKind::KStr))
    } else if kw == "asset_location"@ {
        Some((F_ASSET_LOCATION, FieldKind::KStr))
    } else if kw == "ship_class"@ {
        Some((F_SHIP_CLASS, FieldKind::KShipClass))
    } else if kw == "scale"@ {
        Some((F_SCALE, FieldKind::KDec))
    } else if kw == "starts_with"@ {
        Some((F_STARTS_WITH, FieldKind::KBool))
    } else {
        None
    }
}

pub open spec fn ship_keywords() -> Seq<Seq<char>> {
    seq!["name"@, "asset_location"@, "ship_class"@, "scale"@, "starts_with"@]
}

pub fn ship_kws() -> (r: Vec<String>)
    ensures
        r.deep_view() =~= ship_keywords(),
{
    let mut v: Vec<String> = Vec::new();
    v.push(String::from_str("name"));
    v.push(String::from_str("asset_location"));
    v.push(String::from_str("ship_class"));
    v.push(String::from_str("scale"));
    v.push(String::from_str("starts_with"));
    proof {
        assert(v.deep_view() =~= ship_keywords());
    }
    v
}

fn ship_lookup(kw: &String) -> (r: Option<(u32, FieldKind)>)
    ensures
        r == ship_field(kw@),
{
    if string_is(kw, "name") {
        Some((F_NAME, FieldKind::KStr))
    } else if string_is(kw, "asset_location") {
        Some((F_ASSET_LOCATION, FieldKind::KStr))
    } else if string_is(kw, "ship_class") {
        Some((F_SHIP_CLASS, FieldKind::KShipClass))
    } else if string_is(kw, "scale") {
        Some((F_SCALE, FieldKind::KDec))
    } else if string_is(kw, "starts_with") {
        Some((F_STARTS_WITH, FieldKind::KBool))
    } else {
        None
    }
}

pub open spec fn shipyard_field(kw: Seq<char>) -> Option<(u32, FieldKind)> {
    if kw == "name"@ {
        Some((F_NAME, FieldKind::KStr))
    } else if kw == "asset_location"@ {
        Some((F_ASSET_LOCATION, FieldKind::KStr))
    } else if kw == "consumes"@ {
        Some((F_COSTS, FieldKind::KGoods))
    } else if kw == "time"@ {
        Some((F_TIME, FieldKind::KU8))
    } else {
        None
    }
}

pub open spec fn shipyard_keywords() -> Seq<Seq<char>> {
    seq!["name"@, "asset_location"@, "consumes"@, "time"@]
}

pub fn shipyard_kws() -> (r: Vec<String>)
    ensures
        r.deep_view() =~= shipyard_keywords(),
{
    let mut v: Vec<String> = Vec::new();
    v.push(String::from_str("name"));
    v.push(String::from_str("asset_location"));
    v.push(String::from_str("consumes"));
    v.push(String::from_str("time"));
    proof {
        assert(v.deep_view() =~= shipyard_keywords());
    }
    v
}

fn shipyard_lookup(kw: &String) -> (r: Option<(u32, FieldKind)>)
    ensures
        r == shipyard_field(kw@),
{
    if string_is(kw, "name") {
        Some((F_NAME, FieldKind::KStr))
    } else if string_is(kw, "asset_location") {
        Some((F_ASSET_LOCATION, FieldKind::KStr))
    } else if string_is(kw, "consumes") {
        Some((F_COSTS, FieldKind::KGoods))
    } else if string_is(kw, "time") {
        Some((F_TIME, FieldKind::KU8))
    } else {
        None
    }
}

pub open spec fn shipyard_building_field(kw: Seq<char>) -> Option<(u32, FieldKind)> {
    if kw == "name"@ {
        Some((F_NAME, FieldKind::KStr))
    } else if kw == "level_required"@ {
        Some((F_LEVEL_REQUIRED, FieldKind::KU8))
    } else if kw == "base_strength"@ {
        Some((F_BASE_STRENGTH, FieldKind::KDec))
    } else if kw == "fleet_strength"@ {
        Some((F_FLEET_STRENGTH, FieldKind::KDec))
    } else if kw == "costs"@ {
        Some((F_COSTS, FieldKind::KCGoods))
    } else if kw == "upkeep"@ {
        Some((F_UPKEEP, FieldKind::KDec))
    } else if kw == "power"@ {
        Some((F_POWER, FieldKind::KDec))
    } else if kw == "time"@ {
        Some((F_TIME, FieldKind::KU8))
    } else {
        None
    }
}

pub open spec fn shipyard_building_keywords() -> Seq<Seq<char>> {
    seq!["name"@, "level_required"@, "base_strength"@, "fleet_strength"@, "costs"@, "upkeep"@, "power"@, "time"@]
}

pub fn shipyard_building_kws() -> (r: Vec<String>)
    ensures
        r.deep_view() =~= shipyard_building_keywords(),
{
    let mut v: Vec<String> = Vec::new();
    v.push(String::from_str("name"));
    v.push(String::from_str("level_required"));
    v.push(String::from_str("base_strength"));
    v.push(String::from_str("fleet_strength"));
    v.push(String::from_str("costs"));
    v.push(String::from_str("upkeep"));
    v.push(String::from_str("power"));
    v.push(String::from_str("time"));
    proof {
        assert(v.deep_view() =~= shipyard_building_keywords());
    }
    v
}

fn shipyard_building_lookup(kw: &String) -> (r: Option<(u32, FieldKind)>)
    ensures
        r == shipyard_building_field(kw@),
{
    if string_is(kw, "name") {
        Some((F_NAME, FieldKind::KStr))
    } else if string_is(kw, "level_required") {
        Some((F_LEVEL_REQUIRED, FieldKind::KU8))
    } else if string_is(kw, "base_strength") {
        Some((F_BASE_STRENGTH, FieldKind::KDec))
    } else if string_is(kw, "fleet_strength") {
        Some((F_FLEET_STRENGTH, FieldKind::KDec))
    } else if string_is(kw, "costs") {
        Some((F_COSTS, FieldKind::KCGoods))
    } else if string_is(kw, "upkeep") {
        Some((F_UPKEEP, FieldKind::KDec))
    } else if string_is(kw, "power") {
        Some((F_POWER, FieldKind::KDec))
    } else if string_is(kw, "time") {
        Some((F_TIME, FieldKind::KU8))
    } else {
        None
    }
}

pub open spec fn species_trait_field(kw: Seq<char>) -> Option<(u32, FieldKind)> {
    if kw == "name"@ {
        Some((F_NAME, FieldKind::KStr))
    } else if kw == "icon"@ {
        Some((F_ICON, FieldKind::KStr))
    } else if kw == "consumes"@ {
        Some((F_CONSUMES, FieldKind::KGoods))
    } else if kw == "effects"@ {
        Some((F_EFFECTS, FieldKind::KTraitEffects))
    } else {
        None
    }
}

pub open spec fn species_trait_keywords() -> Seq<Seq<char>> {
    seq!["name"@, "icon"@, "consumes"@, "effects"@]
}

pub fn species_trait_kws() -> (r: Vec<String>)
    ensures
        r.deep_view() =~= species_trait_keywords(),
{
    let mut v: Vec<String> = Vec::new();
    v.push(String::from_str("name"));
    v.push(String::from_str("icon"));
    v.push(String::from_str("consumes"));
    v.push(String::from_str("effects"));
    proof {
        assert(v.deep_view() =~= species_trait_keywords());
    }
    v
}

fn species_trait_lookup(kw: &String) -> (r: Option<(u32, FieldKind)>)
    ensures
        r == species_trait_field(kw@),
{
    if string_is(kw, "name") {
        Some((F_NAME, FieldKind::KStr))
    } else if string_is(kw, "icon") {
        Some((F_ICON, FieldKind::KStr))
    } else if string_is(kw, "consumes") {
        Some((F_CONSUMES, FieldKind::KGoods))
    } else if string_is(kw, "effects") {
        Some((F_EFFECTS, FieldKind::KTraitEffects))
    } else {
        None
    }
}

pub open spec fn augmentation_field(kw: Seq<char>) -> Option<(u32, FieldKind)> {
    if kw == "name"@ {
        Some((F_NAME, FieldKind::KStr))
    } else if kw == "icon"@ {
        Some((F_ICON, FieldKind::KStr))
    } else if kw == "consumes"@ {
        Some((F_CONSUMES, FieldKind::KGoods))
    } else if kw == "effects"@ {
        Some((F_EFFECTS, FieldKind::KAugEffects))
    } else {
        None
    }
}

pub open spec fn augmentation_keywords() -> Seq<Seq<char>> {
    seq!["name"@, "icon"@, "consumes"@, "effects"@]
}

pub fn augmentation_kws() -> (r: Vec<String>)
    ensures
        r.deep_view() =~= augmentation_keywords(),
{
    let mut v: Vec<String> = Vec::new();
    v.push(String::from_str("name"));
    v.push(String::from_str("icon"));
    v.push(String::from_str("consumes"));
    v.push(String::from_str("effects"));
    proof {
        assert(v.deep_view() =~= augmentation_keywords());
    }
    v
}

fn augmentation_lookup(kw: &String) -> (r: Option<(u32, FieldKind)>)
    ensures
        r == augmentation_field(kw@),
{
    if string_is(kw, "name") {
        Some((F_NAME, FieldKind::KStr))
    } else if string_is(kw, "icon") {
        Some((F_ICON, FieldKind::KStr))
    } else if string_is(kw, "consumes") {
        Some((F_CONSUMES, FieldKind::KGoods))
    } else if string_is(kw, "effects") {
        Some((F_EFFECTS, FieldKind::KAugEffects))
    } else {
        None
    }
}

pub open spec fn asteroid_field(kw: Seq<char>) -> Option<(u32, FieldKind)> {
    if kw == "name"@ {
        Some((F_NAME, FieldKind::KStr))
    } else if kw == "depot_asset"@ {
        Some((F_DEPOT_ASSET, FieldKind::KStr))
    } else if kw == "ship_asset"@ {
        Some((F_SHIP_ASSET, FieldKind::KStr))
    } else if kw == "consumes"@ {
        Some((F_COSTS, FieldKind::KGoods))
    } else if kw == "produces"@ {
        Some((F_PRODUCES, FieldKind::KGoods))
    } else if kw == "power"@ {
        Some((F_POWER, FieldKind::KDec))
    } else if kw == "time"@ {
        Some((F_TIME, FieldKind::KU8))
    } else {
        None
    }
}

pub open spec fn asteroid_keywords() -> Seq<Seq<char>> {
    seq!["name"@, "depot_asset"@, "ship_asset"@, "consumes"@, "produces"@, "power"@, "time"@]
}

pub fn asteroid_kws() -> (r: Vec<String>)
    ensures
        r.deep_view() =~= asteroid_keywords(),
{
    let mut v: Vec<String> = Vec::new();
    v.push(String::from_str("name"));
    v.push(String::from_str("depot_asset"));
    v.push(String::from_str("ship_asset"));
    v.push(String::from_str("consumes"));
    v.push(String::from_str("produces"));
    v.push(String::from_str("power"));
    v.push(String::from_str("time"));
    proof {
        assert(v.deep_view() =~= asteroid_keywords());
    }
    v
}

fn asteroid_lookup(kw: &String) -> (r: Option<(u32, FieldKind)>)
    ensures
        r == asteroid_field(kw@),
{
    if string_is(kw, "name") {
        Some((F_NAME, FieldKind::KStr))
    } else if string_is(kw, "depot_asset") {
        Some((F_DEPOT_ASSET, FieldKind::KStr))
    } else if string_is(kw, "ship_asset") {
        Some((F_SHIP_ASSET, FieldKind::KStr))
    } else if string_is(kw, "consumes") {
        Some((F_COSTS, FieldKind::KGoods))
    } else if string_is(kw, "produces") {
        Some((F_PRODUCES, FieldKind::KGoods))
    } else if string_is(kw, "power") {
        Some((F_POWER, FieldKind::KDec))
    } else if string_is(kw, "time") {
        Some((F_TIME, FieldKind::KU8))
    } else {
        None
    }
}

pub open spec fn stapledon_field(kw: Seq<char>) -> Option<(u32, FieldKind)> {
    if kw == "name"@ {
        Some((F_NAME, FieldKind::KStr))
    } else if kw == "swarm_asset"@ {
        Some((F_SWARM_ASSET, FieldKind::KStr))
    } else if kw == "receiver_asset"@ {
        Some((F_RECEIVER_ASSET, FieldKind::KStr))
    } else if kw == "consumes"@ {
        Some((F_COSTS, FieldKind::KGoods))
    } else if kw == "upkeep"@ {
        Some((F_UPKEEP, FieldKind::KGoods))
    } else if kw == "power"@ {
        Some((F_POWER, FieldKind::KDec))
    } else if kw == "time"@ {
        Some((F_TIME, FieldKind::KU8))
    } else {
        None
    }
}

pub open spec fn stapledon_keywords() -> Seq<Seq<char>> {
    seq!["name"@, "swarm_asset"@, "receiver_asset"@, "consumes"@, "upkeep"@, "power"@, "time"@]
}

pub fn stapledon_kws() -> (r: Vec<String>)
    ensures
        r.deep_view() =~= stapledon_keywords(),
{
    let mut v: Vec<String> = Vec::new();
    v.push(String::from_str("name"));
    v.push(String::from_str("swarm_asset"));
    v.push(String::from_str("receiver_asset"));
    v.push(String::from_str("consumes"));
    v.push(String::from_str("upkeep"));
    v.push(String::from_str("power"));
    v.push(String::from_str("time"));
    proof {
        assert(v.deep_view() =~= stapledon_keywords());
    }
    v
}

fn stapledon_lookup(kw: &String) -> (r: Option<(u32, FieldKind)>)
    ensures
        r == stapledon_field(kw@),
{
    if string_is(kw, "name") {
        Some((F_NAME, FieldKind::KStr))
    } else if string_is(kw, "swarm_asset") {
        Some((F_SWARM_ASSET, FieldKind::KStr))
    } else if string_is(kw, "receiver_asset") {
        Some((F_RECEIVER_ASSET, FieldKind::KStr))
    } else if string_is(kw, "consumes") {
        Some((F_COSTS, FieldKind::KGoods))
    } else if string_is(kw, "upkeep") {
        Some((F_UPKEEP, FieldKind::KGoods))
    } else if string_is(kw, "power") {
        Some((F_POWER, FieldKind::KDec))
    } else if string_is(kw, "time") {
        Some((F_TIME, FieldKind::KU8))
    } else {
        None
    }
}

pub open spec fn stellar_field(kw: Seq<char>) -> Option<(u32, FieldKind)> {
    if kw == "star_data"@ {
        Some((F_STAR_DATA, FieldKind::KStar))
    } else if kw == "planet_data"@ {
        Some((F_PLANET_DATA, FieldKind::KPlanetList))
    } else if kw == "asteroid_belt"@ {
        Some((F_ASTEROID_BELT, FieldKind::KPlanetList))
    } else if kw == "surveyed"@ {
        Some((F_SURVEYED, FieldKind::KBool))
    } else {
        None
    }
}

pub open spec fn stellar_keywords() -> Seq<Seq<char>> {
    seq!["star_data"@, "planet_data"@, "asteroid_belt"@, "surveyed"@]
}

pub fn stellar_kws() -> (r: Vec<String>)
    ensures
        r.deep_view() =~= stellar_keywords(),
{
    let mut v: Vec<String> = Vec::new();
    v.push(String::from_str("star_data"));
    v.push(String::from_str("planet_data"));
    v.push(String::from_str("asteroid_belt"));
    v.push(String::from_str("surveyed"));
    proof {
        assert(v.deep_view() =~= stellar_keywords());
    }
    v
}

fn stellar_lookup(kw: &String) -> (r: Option<(u32, FieldKind)>)
    ensures
        r == stellar_field(kw@),
{
    if string_is(kw, "star_data") {
        Some((F_STAR_DATA, FieldKind::KStar))
    } else if string_is(kw, "planet_data") {
        Some((F_PLANET_DATA, FieldKind::KPlanetList))
    } else if string_is(kw, "asteroid_belt") {
        Some((F_ASTEROID_BELT, FieldKind::KPlanetList))
    } else if string_is(kw, "surveyed") {
        Some((F_SURVEYED, FieldKind::KBool))
    } else {
        None
    }
}

/// The field table of a schema: keyword to slot and kind.
#[verifier::opaque]
pub open spec fn field_of(sid: SchemaId, kw: Seq<char>) -> Option<(u32, FieldKind)> {
    match sid {
        SchemaId::Techs => tech_field(kw),
        SchemaId::Goods => goods_field(kw),
        SchemaId::Buildings => building_field(kw),
        SchemaId::Designations => designation_field(kw),
        SchemaId::Orbitals => orbital_field(kw),
        SchemaId::PlanetTypes => planet_type_field(kw),
        SchemaId::Ranks => rank_field(kw),
        SchemaId::Ships => ship_field(kw),
        SchemaId::Shipyards => shipyard_field(kw),
        SchemaId::ShipyardBuildings => shipyard_building_field(kw),
        SchemaId::SpecieTraits => species_trait_field(kw),
        SchemaId::Augmentations => augmentation_field(kw),
        SchemaId::AsteroidMining => asteroid_field(kw),
        SchemaId::StapledonSwarms => stapledon_field(kw),
        SchemaId::StellarSystems => stellar_field(kw),
    }
}

/// The legal keywords of a schema, for diagnostics.
#[verifier::opaque]
pub open spec fn schema_keywords(sid: SchemaId) -> Seq<Seq<char>> {
    match sid {
        SchemaId::Techs => tech_keywords(),
        SchemaId::Goods => goods_keywords(),
        SchemaId::Buildings => building_keywords(),
        SchemaId::Designations => designation_keywords(),
        SchemaId::Orbitals => orbital_keywords(),
        SchemaId::PlanetTypes => planet_type_keywords(),
        SchemaId::Ranks => rank_keywords(),
        SchemaId::Ships => ship_keywords(),
        SchemaId::Shipyards => shipyard_keywords(),
        SchemaId::ShipyardBuildings => shipyard_building_keywords(),
        SchemaId::SpecieTraits => species_trait_keywords(),
        SchemaId::Augmentations => augmentation_keywords(),
        SchemaId::AsteroidMining => asteroid_keywords(),
        SchemaId::StapledonSwarms => stapledon_keywords(),
        SchemaId::StellarSystems => stellar_keywords(),
    }
}

/// Looks a field keyword up in the schema's table.
pub fn lookup_field(sid: SchemaId, kw: &String) -> (r: Option<(u32, FieldKind)>)
    ensures
        r == field_of(sid, kw@),
{
    proof {
        reveal(field_of);
    }
    match sid {
        SchemaId::Techs => tech_lookup(kw),
        SchemaId::Goods => goods_lookup(kw),
        SchemaId::Buildings => building_lookup(kw),
        SchemaId::Designations => designation_lookup(kw),
        SchemaId::Orbitals => orbital_lookup(kw),
        SchemaId::PlanetTypes => planet_type_lookup(kw),
        SchemaId::Ranks => rank_lookup(kw),
        SchemaId::Ships => ship_lookup(kw),
        SchemaId::Shipyards => shipyard_lookup(kw),
        SchemaId::ShipyardBuildings => shipyard_building_lookup(kw),
        SchemaId::SpecieTraits => species_trait_lookup(kw),
        SchemaId::Augmentations => augmentation_lookup(kw),
        SchemaId::AsteroidMining => asteroid_lookup(kw),
        SchemaId::StapledonSwarms => stapledon_lookup(kw),
        SchemaId::StellarSystems => stellar_lookup(kw),
    }
}

/// Builds the legal-keyword list of a schema.
pub fn schema_kws(sid: SchemaId) -> (r: Vec<String>)
    ensures
        r.deep_view() =~= schema_keywords(sid),
{
    proof {
        reveal(schema_keywords);
    }
    match sid {
        SchemaId::Techs => tech_kws(),
        SchemaId::Goods => goods_kws(),
        SchemaId::Buildings => building_kws(),
        SchemaId::Designations => designation_kws(),
        SchemaId::Orbitals => orbital_kws(),
        SchemaId::PlanetTypes => planet_type_kws(),
        SchemaId::Ranks => rank_kws(),
        SchemaId::Ships => ship_kws(),
        SchemaId::Shipyards => shipyard_kws(),
        SchemaId::ShipyardBuildings => shipyard_building_kws(),
        SchemaId::SpecieTraits => species_trait_kws(),
        SchemaId::Augmentations => augmentation_kws(),
        SchemaId::AsteroidMining => asteroid_kws(),
        SchemaId::StapledonSwarms => stapledon_kws(),
        SchemaId::StellarSystems => stellar_kws(),
    }
}

/// Conversion of a parsed raw value to the kind a field declares.  The
/// two rule kinds never reach this point: the engine parses them with the
/// rule grammar before a raw value exists.
#[verifier::opaque]
pub open spec fn spec_convert(kind: FieldKind, v: MRaw) -> Result<MTypedValue, MDiag> {
    match kind {
        FieldKind::KStr => match sc_str(v) {
            Ok(s) => Ok(MTypedValue::TStr(s)),
            Err(e) => Err(e),
        },
        FieldKind::KBool => match sc_bool(v) {
            Ok(b) => Ok(MTypedValue::TBool(b)),
            Err(e) => Err(e),
        },
        FieldKind::KU8 => match sc_u8(v) {
            Ok(x) => Ok(MTypedValue::TU8(x)),
            Err(e) => Err(e),
        },
        FieldKind::KU16 => match sc_u16(v) {
            Ok(x) => Ok(MTypedValue::TU16(x)),
            Err(e) => Err(e),
        },
        FieldKind::KU64 => match sc_u64(v) {
            Ok(x) => Ok(MTypedValue::TU64(x)),
            Err(e) => Err(e),
        },
        FieldKind::KDec => match sc_dec(v) {
            Ok(d) => Ok(MTypedValue::TDec(d)),
            Err(e) => Err(e),
        },
        FieldKind::KTempC => match sc_temp_c(v) {
            Ok(t) => Ok(MTypedValue::TTemp(t)),
            Err(e) => Err(e),
        },
        FieldKind::KTempK => match sc_temp_k(v) {
            Ok(t) => Ok(MTypedValue::TTemp(t)),
            Err(e) => Err(e),
        },
        FieldKind::KGoods => match v.node {
            MRawNode::List(items) => match spec_goods(items) {
                Ok(gs) => Ok(MTypedValue::TGoods(gs)),
                Err(e) => Err(e),
            },
            _ => Err(m_bad(v, seq!["list"@])),
        },
        FieldKind::KCGoods => match v.node {
            MRawNode::List(items) => match spec_cgoods(items) {
                Ok(gs) => Ok(MTypedValue::TCGoods(gs)),
                Err(e) => Err(e),
            },
            _ => Err(m_bad(v, seq!["list"@])),
        },
        FieldKind::KAbundances => match v.node {
            MRawNode::List(items) => match spec_abunds(items) {
                Ok(gs) => Ok(MTypedValue::TAbunds(gs)),
                Err(e) => Err(e),
            },
            _ => Err(m_bad(v, seq!["list"@])),
        },
        FieldKind::KStations => match v.node {
            MRawNode::List(items) => match spec_stations(items) {
                Ok(gs) => Ok(MTypedValue::TStations(gs)),
                Err(e) => Err(e),
            },
            _ => Err(m_bad(v, seq!["list"@])),
        },
        FieldKind::KFilters => match v.node {
            MRawNode::List(items) => match spec_filters(items) {
                Ok(gs) => Ok(MTypedValue::TFilters(gs)),
                Err(e) => Err(e),
            },
            _ => Err(m_bad(v, seq!["list"@])),
        },
        FieldKind::KAugEffects => match v.node {
            MRawNode::List(items) => match spec_aug_effects(items) {
                Ok(gs) => Ok(MTypedValue::TAugEffects(gs)),
                Err(e) => Err(e),
            },
            _ => Err(m_bad(v, seq!["list"@])),
        },
        FieldKind::KTraitEffects => match v.node {
            MRawNode::List(items) => match spec_trait_effects(items) {
                Ok(gs) => Ok(MTypedValue::TTraitEffects(gs)),
                Err(e) => Err(e),
            },
            _ => Err(m_bad(v, seq!["list"@])),
        },
        FieldKind::KGoodType => match spec_good_type(v) {
            Ok(g) => Ok(MTypedValue::TGoodType(g)),
            Err(e) => Err(e),
        },
        FieldKind::KConsumption => match spec_consumption(v) {
            Ok(c) => Ok(MTypedValue::TCons(c)),
            Err(e) => Err(e),
        },
        FieldKind::KPlanetClass => match spec_planet_class(v) {
            Ok(c) => Ok(MTypedValue::TPClass(c)),
            Err(e) => Err(e),
        },
        FieldKind::KShipClass => match spec_ship_class(v) {
            Ok(c) => Ok(MTypedValue::TSClass(c)),
            Err(e) => Err(e),
        },
        FieldKind::KBuildingLimit => match spec_blimit(v) {
            Ok(b) => Ok(MTypedValue::TBLimit(b)),
            Err(e) => Err(e),
        },
        FieldKind::KHousing => match spec_housing(v) {
            Ok(h) => Ok(MTypedValue::THousing(h)),
            Err(e) => Err(e),
        },
        FieldKind::KPrivateBuildings => match spec_pbuild(v) {
            Ok(p) => Ok(MTypedValue::TPBuild(p)),
            Err(e) => Err(e),
        },
        FieldKind::KPopImpact => match v.node {
            MRawNode::Rec(fs) => match spec_popimp_fields(
                PopulationImpact { growth: Decimal { mant: 0, scale: 0 }, min_population: 0 },
                fs,
            ) {
                Ok(p) => Ok(MTypedValue::TPopImp(p)),
                Err(e) => Err(e),
            },
            _ => Err(m_bad(v, seq!["record"@])),
        },
        FieldKind::KImpact => match v.node {
            MRawNode::Rec(fs) => match spec_impact_fields(
                (Decimal { mant: 0, scale: 0 }, Decimal { mant: 0, scale: 0 }),
                fs,
            ) {
                Ok(p) => Ok(MTypedValue::TImpact(p.0, p.1)),
                Err(e) => Err(e),
            },
            _ => Err(m_bad(v, seq!["record"@])),
        },
        FieldKind::KNatResources => match v.node {
            MRawNode::List(items) => match spec_natres(items) {
                Ok(gs) => Ok(MTypedValue::TNatRes(gs)),
                Err(e) => Err(e),
            },
            _ => Err(m_bad(v, seq!["list"@])),
        },
        FieldKind::KStar => match spec_star_rec(v) {
            Ok(s) => Ok(MTypedValue::TStar(s)),
            Err(e) => Err(e),
        },
        FieldKind::KPlanetList => match v.node {
            MRawNode::List(items) => match spec_planets(items) {
                Ok(gs) => Ok(MTypedValue::TPlanets(gs)),
                Err(e) => Err(e),
            },
            _ => Err(m_bad(v, seq!["list"@])),
        },
        FieldKind::KMoonList => match sc_moons_value(v) {
            Ok(ms) => Ok(MTypedValue::TMoons(ms)),
            Err(e) => Err(e),
        },
        FieldKind::KBranch => Err(m_bad(v, seq!["rule branch"@])),
        FieldKind::KBranchList => Err(m_bad(v, seq!["rule branch"@])),
    }
}

/// Converts a raw value to a scalar kind.
fn convert_scalar(kind: FieldKind, v: RawValue) -> (r: Result<TypedValue, Diagnostic>)
    requires
        raw_wf(raw_model(v)),
        kind == FieldKind::KStr || kind == FieldKind::KBool || kind == FieldKind::KU8
            || kind == FieldKind::KU16 || kind == FieldKind::KU64 || kind == FieldKind::KDec
            || kind == FieldKind::KTempC || kind == FieldKind::KTempK,
    ensures
        match (r, spec_convert(kind, raw_model(v))) {
            (Ok(tv), Ok(mtv)) => tv_model(tv) == mtv,
            (Err(d), Err(md)) => d@ == md,
            _ => false,
        },
{
    proof {
        reveal(spec_convert);
    }    match kind {
        FieldKind::KStr => match ec_str(v) {
            Ok(s) => Ok(TypedValue::TStr(s)),
            Err(e) => Err(e),
        },
        FieldKind::KBool => match ec_bool(&v) {
            Ok(b) => Ok(TypedValue::TBool(b)),
            Err(e) => Err(e),
        },
        FieldKind::KU8 => match ec_u8(&v) {
            Ok(x) => Ok(TypedValue::TU8(x)),
            Err(e) => Err(e),
        },
        FieldKind::KU16 => match ec_u16(&v) {
            Ok(x) => Ok(TypedValue::TU16(x)),
            Err(e) => Err(e),
        },
        FieldKind::KU64 => match ec_u64(&v) {
            Ok(x) => Ok(TypedValue::TU64(x)),
            Err(e) => Err(e),
        },
        FieldKind::KDec => match ec_dec(&v) {
            Ok(d) => Ok(TypedValue::TDec(d)),
            Err(e) => Err(e),
        },
        FieldKind::KTempC => match ec_temp_c(&v) {
            Ok(t) => Ok(TypedValue::TTemp(t)),
            Err(e) => Err(e),
        },
        _ => match ec_temp_k(&v) {
            Ok(t) => Ok(TypedValue::TTemp(t)),
            Err(e) => Err(e),
        },
    }
}

/// Converts a raw value to a list-of-entries kind.
fn convert_list(kind: FieldKind, v: RawValue) -> (r: Result<TypedValue, Diagnostic>)
    requires
        raw_wf(raw_model(v)),
        kind == FieldKind::KGoods || kind == FieldKind::KCGoods || kind == FieldKind::KAbundances
            || kind == FieldKind::KStations || kind == FieldKind::KFilters
            || kind == FieldKind::KAugEffects || kind == FieldKind::KTraitEffects
            || kind == FieldKind::KNatResources || kind == FieldKind::KPlanetList
            || kind == FieldKind::KMoonList,
    ensures
        match (r, spec_convert(kind, raw_model(v))) {
            (Ok(tv), Ok(mtv)) => tv_model(tv) == mtv,
            (Err(d), Err(md)) => d@ == md,
            _ => false,
        },
{
    proof {
        reveal(spec_convert);
    }    match v.node {
        RawNode::List(items) => match kind {
            FieldKind::KGoods => match conv_goods(items) {
                Ok(gs) => Ok(TypedValue::TGoods(gs)),
                Err(e) => Err(e),
            },
            FieldKind::KCGoods => match conv_cgoods(items) {
                Ok(gs) => Ok(TypedValue::TCGoods(gs)),
                Err(e) => Err(e),
            },
            FieldKind::KAbundances => match conv_abunds(items) {
                Ok(gs) => Ok(TypedValue::TAbunds(gs)),
                Err(e) => Err(e),
            },
            FieldKind::KStations => match conv_stations(items) {
                Ok(gs) => Ok(TypedValue::TStations(gs)),
                Err(e) => Err(e),
            },
            FieldKind::KFilters => match conv_filters(items) {
                Ok(gs) => Ok(TypedValue::TFilters(gs)),
                Err(e) => Err(e),
            },
            FieldKind::KAugEffects => match conv_aug_effects(items) {
                Ok(gs) => Ok(TypedValue::TAugEffects(gs)),
                Err(e) => Err(e),
            },
            FieldKind::KTraitEffects => match conv_trait_effects(items) {
                Ok(gs) => Ok(TypedValue::TTraitEffects(gs)),
                Err(e) => Err(e),
            },
            FieldKind::KNatResources => match conv_natres(items) {
                Ok(gs) => Ok(TypedValue::TNatRes(gs)),
                Err(e) => Err(e),
            },
            FieldKind::KPlanetList => match conv_planets(items) {
                Ok(gs) => Ok(TypedValue::TPlanets(gs)),
                Err(e) => Err(e),
            },
            _ => match conv_moons(items) {
                Ok(ms) => Ok(TypedValue::TMoons(ms)),
                Err(e) => Err(e),
            },
        },
        other => {
            let v2 = RawValue { node: other, start: v.start, end: v.end };
            Err(bad_value(&v2, exp1("list")))
        },
    }
}

/// Converts a raw value to a keyword-like or record-shaped kind.
fn convert_other(kind: FieldKind, v: RawValue) -> (r: Result<TypedValue, Diagnostic>)
    requires
        raw_wf(raw_model(v)),
        kind == FieldKind::KGoodType || kind == FieldKind::KConsumption
            || kind == FieldKind::KPlanetClass || kind == FieldKind::KShipClass
            || kind == FieldKind::KBuildingLimit || kind == FieldKind::KHousing
            || kind == FieldKind::KPrivateBuildings || kind == FieldKind::KPopImpact
            || kind == FieldKind::KImpact || kind == FieldKind::KStar
            || kind == FieldKind::KBranch || kind == FieldKind::KBranchList,
    ensures
        match (r, spec_convert(kind, raw_model(v))) {
            (Ok(tv), Ok(mtv)) => tv_model(tv) == mtv,
            (Err(d), Err(md)) => d@ == md,
            _ => false,
        },
{
    proof {
        reveal(spec_convert);
    }    match kind {
        FieldKind::KGoodType => match conv_good_type(&v) {
            Ok(g) => Ok(TypedValue::TGoodType(g)),
            Err(e) => Err(e),
        },
        FieldKind::KConsumption => match conv_consumption(v) {
            Ok(c) => Ok(TypedValue::TCons(c)),
            Err(e) => Err(e),
        },
        FieldKind::KPlanetClass => match conv_planet_class(&v) {
            Ok(c) => Ok(TypedValue::TPClass(c)),
            Err(e) => Err(e),
        },
        FieldKind::KShipClass => match conv_ship_class(&v) {
            Ok(c) => Ok(TypedValue::TSClass(c)),
            Err(e) => Err(e),
        },
        FieldKind::KBuildingLimit => match conv_blimit(&v) {
            Ok(b) => Ok(TypedValue::TBLimit(b)),
            Err(e) => Err(e),
        },
        FieldKind::KHousing => match conv_housing(&v) {
            Ok(h) => Ok(TypedValue::THousing(h)),
            Err(e) => Err(e),
        },
        FieldKind::KPrivateBuildings => match conv_pbuild(&v) {
            Ok(p) => Ok(TypedValue::TPBuild(p)),
            Err(e) => Err(e),
        },
        FieldKind::KPopImpact => match v.node {
            RawNode::Rec(fs) => match popimp_fold(
                PopulationImpact { growth: Decimal::zero(), min_population: 0 },
                fs,
            ) {
                Ok(p) => Ok(TypedValue::TPopImp(p)),
                Err(e) => Err(e),
            },
            other => {
                let v2 = RawValue { node: other, start: v.start, end: v.end };
                Err(bad_value(&v2, exp1("record")))
            },
        },
        FieldKind::KImpact => match v.node {
            RawNode::Rec(fs) => match impact_fold((Decimal::zero(), Decimal::zero()), fs) {
                Ok(p) => Ok(TypedValue::TImpact(p.0, p.1)),
                Err(e) => Err(e),
            },
            other => {
                let v2 = RawValue { node: other, start: v.start, end: v.end };
                Err(bad_value(&v2, exp1("record")))
            },
        },
        FieldKind::KStar => match star_rec(v) {
            Ok(s) => Ok(TypedValue::TStar(s)),
            Err(e) => Err(e),
        },
        _ => {
            let exp = exp1("rule branch");
            Err(bad_value(&v, exp))
        },
    }
}

/// Converts a raw value to the declared kind, mirroring [`spec_convert`].
pub fn convert(kind: FieldKind, v: RawValue) -> (r: Result<TypedValue, Diagnostic>)
    requires
        raw_wf(raw_model(v)),
    ensures
        match (r, spec_convert(kind, raw_model(v))) {
            (Ok(tv), Ok(mtv)) => tv_model(tv) == mtv,
            (Err(d), Err(md)) => d@ == md,
            _ => false,
        },
{
    proof {
        reveal(spec_convert);
    }    match kind {
        FieldKind::KStr => convert_scalar(kind, v),
        FieldKind::KBool => convert_scalar(kind, v),
        FieldKind::KU8 => convert_scalar(kind, v),
        FieldKind::KU16 => convert_scalar(kind, v),
        FieldKind::KU64 => convert_scalar(kind, v),
        FieldKind::KDec => convert_scalar(kind, v),
        FieldKind::KTempC => convert_scalar(kind, v),
        FieldKind::KTempK => convert_scalar(kind, v),
        FieldKind::KGoods => convert_list(kind, v),
        FieldKind::KCGoods => convert_list(kind, v),
        FieldKind::KAbundances => convert_list(kind, v),
        FieldKind::KStations => convert_list(kind, v),
        FieldKind::KFilters => convert_list(kind, v),
        FieldKind::KAugEffects => convert_list(kind, v),
        FieldKind::KTraitEffects => convert_list(kind, v),
        FieldKind::KNatResources => convert_list(kind, v),
        FieldKind::KPlanetList => convert_list(kind, v),
        FieldKind::KMoonList => convert_list(kind, v),
        _ => convert_other(kind, v),
    }
}

} // verus!

//! The goods schema: `#goods` sections.

use vstd::prelude::*;

use crate::decimal::Decimal;

verus! {

/// Who may trade the good.
#[derive(Clone, Copy, Debug, PartialEq, Eq, Structural, Default)]
pub enum GoodType {
    #[default]
    Public,
    Private,
    Tender,
}

/// Thresholds under which a survival good is demanded, and the price of
/// lacking it.
#[derive(Clone, Debug, PartialEq)]
pub struct SurvivalConditions {
    pub magnetosphere: Option<Decimal>,
    pub atmosphere: Option<Decimal>,
    pub temperature: Option<Decimal>,
    pub water: Option<Decimal>,
    pub breathability: Option<Decimal>,
    pub served_step: Decimal,
    pub lack_of_service_penalty: Decimal,
}

pub open spec fn survival_default() -> SurvivalConditions {
    SurvivalConditions {
        magnetosphere: None,
        atmosphere: None,
        temperature: None,
        water: None,
        breathability: None,
        served_step: Decimal { mant: 1, scale: 0 },
        lack_of_service_penalty: Decimal { mant: 0, scale: 0 },
    }
}

impl Default for SurvivalConditions {
    fn default() -> (r: SurvivalConditions)
        ensures
            r == survival_default(),
    {
        SurvivalConditions {
            magnetosphere: None,
            atmosphere: None,
            temperature: None,
            water: None,
            breathability: None,
            served_step: Decimal::one(),
            lack_of_service_penalty: Decimal::zero(),
        }
    }
}

/// How the population consumes the good.
#[derive(Clone, Debug, PartialEq, Default)]
pub enum ConsumptionType {
    #[default]
    NotConsumed,
    Amenity,
    Survival(SurvivalConditions),
    Essential,
}

/// One tradable good.
#[derive(Clone, Debug, PartialEq)]
pub struct GoodData {
    pub id: String,
    pub hardcoded_id: Option<u8>,
    pub icon: String,
    pub name: String,
    pub good_type: GoodType,
    pub consumption_type: ConsumptionType,
    pub prosperity_bonus: Decimal,
    pub prosperity_cost: Decimal,
    pub buy_value: Decimal,
    pub sell_value: Decimal,
}

pub struct MGoodData {
    pub id: Seq<char>,
    pub hardcoded_id: Option<u8>,
    pub icon: Seq<char>,
    pub name: Seq<char>,
    pub good_type: GoodType,
    pub consumption_type: ConsumptionType,
    pub prosperity_bonus: Decimal,
    pub prosperity_cost: Decimal,
    pub buy_value: Decimal,
    pub sell_value: Decimal,
}

impl View for GoodData {
    type V = MGoodData;

    open spec fn view(&self) -> MGoodData {
        MGoodData {
            id: self.id@,
            hardcoded_id: self.hardcoded_id,
            icon: self.icon@,
            name: self.name@,
            good_type: self.good_type,
            consumption_type: self.consumption_type,
            prosperity_bonus: self.prosperity_bonus,
            prosperity_cost: self.prosperity_cost,
            buy_value: self.buy_value,
            sell_value: self.sell_value,
        }
    }
}

pub open spec fn good_default() -> MGoodData {
    MGoodData {
        id: Seq::empty(),
        hardcoded_id: None,
        icon: Seq::empty(),
        name: Seq::empty(),
        good_type: GoodType::Public,
        consumption_type: ConsumptionType::NotConsumed,
        prosperity_bonus: Decimal { mant: 0, scale: 0 },
        prosperity_cost: Decimal { mant: 0, scale: 0 },
        buy_value: Decimal { mant: 0, scale: 0 },
        sell_value: Decimal { mant: 0, scale: 0 },
    }
}

impl Default for GoodData {
    fn default() -> (r: GoodData)
        ensures
            r@ == good_default(),
    {
        GoodData {
            id: String::new(),
            hardcoded_id: None,
            icon: String::new(),
            name: String::new(),
            good_type: GoodType::Public,
            consumption_type: ConsumptionType::NotConsumed,
            prosperity_bonus: Decimal::zero(),
            prosperity_cost: Decimal::zero(),
            buy_value: Decimal::zero(),
            sell_value: Decimal::zero(),
        }
    }
}

/// The record an entry list denotes: each field holds the last occurrence
/// of its keyword, or the default.
pub open spec fn good_of(m: crate::engine::MRec) -> MGoodData {
    MGoodData {
        id: m.id->S_0,
        hardcoded_id: crate::engine::last_u8_opt(m.entries, crate::schema::F_HARDCODED_ID),
        icon: crate::engine::last_str(m.entries, crate::schema::F_ICON, Seq::empty()),
        name: crate::engine::last_str(m.entries, crate::schema::F_NAME, Seq::empty()),
        good_type: crate::engine::last_good_type(m.entries, crate::schema::F_GOOD_TYPE),
        consumption_type: crate::engine::last_cons(m.entries, crate::schema::F_CONSUMPTION_TYPE),
        prosperity_bonus: crate::engine::last_dec(m.entries, crate::schema::F_PROSPERITY_BONUS, crate::decimal::Decimal { mant: 0, scale: 0 }),
        prosperity_cost: crate::engine::last_dec(m.entries, crate::schema::F_PROSPERITY_COST, crate::decimal::Decimal { mant: 0, scale: 0 }),
        buy_value: crate::engine::last_dec(m.entries, crate::schema::F_BUY_VALUE, crate::decimal::Decimal { mant: 0, scale: 0 }),
        sell_value: crate::engine::last_dec(m.entries, crate::schema::F_SELL_VALUE, crate::decimal::Decimal { mant: 0, scale: 0 }),
    }
}

proof fn lemma_good_entry(e: (u32, crate::schema::MTypedValue))
    requires
        crate::engine::entry_wf(crate::schema::SchemaId::Goods, e),
    ensures
        (e.0 == crate::schema::F_HARDCODED_ID && e.1 is TU8) || (e.0 == crate::schema::F_ICON && e.1 is TStr) || (e.0 == crate::schema::F_NAME && e.1 is TStr) || (e.0 == crate::schema::F_GOOD_TYPE && e.1 is TGoodType) || (e.0 == crate::schema::F_CONSUMPTION_TYPE && e.1 is TCons) || (e.0 == crate::schema::F_PROSPERITY_BONUS && e.1 is TDec) || (e.0 == crate::schema::F_PROSPERITY_COST && e.1 is TDec) || (e.0 == crate::schema::F_BUY_VALUE && e.1 is TDec) || (e.0 == crate::schema::F_SELL_VALUE && e.1 is TDec),
{
    reveal(crate::schema::field_of);
    let kw = choose|kw: Seq<char>|
        #![trigger crate::schema::field_of(crate::schema::SchemaId::Goods, kw)]
        match crate::schema::field_of(crate::schema::SchemaId::Goods, kw) {
            Some(p) => p.0 == e.0 && crate::engine::tv_matches(p.1, e.1),
            None => false,
        };
}

fn build_good(rec: crate::engine::Rec) -> (r: GoodData)
    requires
        crate::engine::mrec_wf(crate::schema::SchemaId::Goods, crate::engine::rec_model(rec)),
    ensures
        r@ == good_of(crate::engine::rec_model(rec)),
{
    let ghost m = crate::engine::rec_model(rec);
    let mut r = GoodData::default();
    let crate::engine::Rec { id, id_start, id_end, entries } = rec;
    match id {
        crate::engine::RecId::S(s) => {
            r.id = s;
        },
        crate::engine::RecId::N(_) => {
            proof {
                assert(false);
            }
        },
    }
    let mut es = entries;
    let ghost mut processed: Seq<(u32, crate::schema::MTypedValue)> = Seq::empty();
    proof {
        assert(processed + crate::engine::entries_model(es@) =~= m.entries);
    }
    while es.len() > 0
        invariant
            processed + crate::engine::entries_model(es@) =~= m.entries,
            crate::engine::entries_ok(crate::schema::SchemaId::Goods, crate::engine::entries_model(es@)),
            r@.id == m.id->S_0,
            r@.hardcoded_id == crate::engine::last_u8_opt(processed, crate::schema::F_HARDCODED_ID),
            r@.icon == crate::engine::last_str(processed, crate::schema::F_ICON, Seq::empty()),
            r@.name == crate::engine::last_str(processed, crate::schema::F_NAME, Seq::empty()),
            r@.good_type == crate::engine::last_good_type(processed, crate::schema::F_GOOD_TYPE),
            r@.consumption_type == crate::engine::last_cons(processed, crate::schema::F_CONSUMPTION_TYPE),
            r@.prosperity_bonus == crate::engine::last_dec(processed, crate::schema::F_PROSPERITY_BONUS, crate::decimal::Decimal { mant: 0, scale: 0 }),
            r@.prosperity_cost == crate::engine::last_dec(processed, crate::schema::F_PROSPERITY_COST, crate::decimal::Decimal { mant: 0, scale: 0 }),
            r@.buy_value == crate::engine::last_dec(processed, crate::schema::F_BUY_VALUE, crate::decimal::Decimal { mant: 0, scale: 0 }),
            r@.sell_value == crate::engine::last_dec(processed, crate::schema::F_SELL_VALUE, crate::decimal::Decimal { mant: 0, scale: 0 }),
        decreases es@.len(),
    {
        let ghost es_old = es@;
        let e = es.remove(0);
        let ghost em = (e.0, crate::schema::tv_model(e.1));
        proof {
            assert(es@ =~= es_old.drop_first());
            assert(crate::engine::entries_model(es_old) == seq![(es_old[0].0, crate::schema::tv_model(es_old[0].1))]
                + crate::engine::entries_model(es_old.drop_first()));
            assert(crate::engine::entries_model(es_old)[0] == em);
            assert(crate::engine::entry_wf(crate::schema::SchemaId::Goods, em));
            lemma_good_entry(em);
            assert forall|j: int| 0 <= j < crate::engine::entries_model(es@).len() implies crate::engine::entry_wf(
                crate::schema::SchemaId::Goods,
                #[trigger] crate::engine::entries_model(es@)[j],
            ) by {
                assert(crate::engine::entries_model(es@)[j] == crate::engine::entries_model(es_old)[j + 1]);
            }
            crate::engine::lemma_last_entry_push(processed, em, crate::schema::F_HARDCODED_ID);
            crate::engine::lemma_last_entry_push(processed, em, crate::schema::F_ICON);
            crate::engine::lemma_last_entry_push(processed, em, crate::schema::F_NAME);
            crate::engine::lemma_last_entry_push(processed, em, crate::schema::F_GOOD_TYPE);
            crate::engine::lemma_last_entry_push(processed, em, crate::schema::F_CONSUMPTION_TYPE);
            crate::engine::lemma_last_entry_push(processed, em, crate::schema::F_PROSPERITY_BONUS);
            crate::engine::lemma_last_entry_push(processed, em, crate::schema::F_PROSPERITY_COST);
            crate::engine::lemma_last_entry_push(processed, em, crate::schema::F_BUY_VALUE);
            crate::engine::lemma_last_entry_push(processed, em, crate::schema::F_SELL_VALUE);
            assert(processed.push(em) + crate::engine::entries_model(es@) =~= m.entries);
        }
        let (fid, tv) = e;
        if fid == crate::schema::F_HARDCODED_ID {
            match tv {
                crate::schema::TypedValue::TU8(s) => {
                    r.hardcoded_id = Some(s);
                },
                _ => {
                    proof {
                        assert(false);
                    }
                },
            }
        } else if fid == crate::schema::F_ICON {
            match tv {
                crate::schema::TypedValue::TStr(s) => {
                    r.icon = s;
                },
                _ => {
                    proof {
                        assert(false);
                    }
                },
            }
        } else if fid == crate::schema::F_NAME {
            match tv {
                crate::schema::TypedValue::TStr(s) => {
                    r.name = s;
                },
                _ => {
                    proof {
                        assert(false);
                    }
                },
            }
        } else if fid == crate::schema::F_GOOD_TYPE {
            match tv {
                crate::schema::TypedValue::TGoodType(s) => {
                    r.good_type = s;
                },
                _ => {
                    proof {
                        assert(false);
                    }
                },
            }
        } else if fid == crate::schema::F_CONSUMPTION_TYPE {
            match tv {
                crate::schema::TypedValue::TCons(s) => {
                    r.consumption_type = s;
                },
                _ => {
                    proof {
                        assert(false);
                    }
                },
            }
        } else if fid == crate::schema::F_PROSPERITY_BONUS {
            match tv {
                crate::schema::TypedValue::TDec(s) => {
                    r.prosperity_bonus = s;
                },
                _ => {
                    proof {
                        assert(false);
                    }
                },
            }
        } else if fid == crate::schema::F_PROSPERITY_COST {
            match tv {
                crate::schema::TypedValue::TDec(s) => {
                    r.prosperity_cost = s;
                },
                _ => {
                    proof {
                        assert(false);
                    }
                },
            }
        } else if fid == crate::schema::F_BUY_VALUE {
            match tv {
                crate::schema::TypedValue::TDec(s) => {
                    r.buy_value = s;
                },
                _ => {
                    proof {
                        assert(false);
                    }
                },
            }
        } else {
            proof {
                assert(fid == crate::schema::F_SELL_VALUE);
            }
            match tv {
                crate::schema::TypedValue::TDec(s) => {
                    r.sell_value = s;
                },
                _ => {
                    proof {
                        assert(false);
                    }
                },
            }
        }
        proof {
            processed = processed.push(em);
        }
    }
    proof {
        assert(crate::engine::entries_model(es@) =~= Seq::<(u32, crate::schema::MTypedValue)>::empty());
        assert(processed =~= m.entries);
    }
    r
}

/// The typed records a section's record list denotes, in order.
pub open spec fn goods_of(rs: Seq<crate::engine::MRec>) -> Seq<MGoodData>
    decreases rs,
{
    if rs.len() == 0 {
        Seq::empty()
    } else {
        seq![good_of(rs[0])] + goods_of(rs.drop_first())
    }
}

fn build_good_list(recs: Vec<crate::engine::Rec>) -> (r: Vec<GoodData>)
    requires
        crate::engine::mrecs_wf(crate::schema::SchemaId::Goods, crate::engine::recs_model(recs@)),
    ensures
        crate::common::seq_view(r@) == goods_of(crate::engine::recs_model(recs@)),
    decreases recs@.len(),
{
    let mut recs = recs;
    if recs.len() == 0 {
        let r: Vec<GoodData> = Vec::new();
        proof {
            assert(crate::common::seq_view(r@) =~= Seq::<MGoodData>::empty());
        }
        return r;
    }
    let ghost rs0 = recs@;
    let first = recs.remove(0);
    proof {
        assert(recs@ =~= rs0.drop_first());
        assert(crate::engine::recs_model(rs0) == seq![crate::engine::rec_model(rs0[0])] + crate::engine::recs_model(rs0.drop_first()));
        assert(crate::engine::recs_model(rs0)[0] == crate::engine::rec_model(first));
        assert(crate::engine::recs_model(rs0).drop_first() =~= crate::engine::recs_model(recs@));
        assert(crate::engine::mrec_wf(crate::schema::SchemaId::Goods, crate::engine::rec_model(first)));
        assert forall|j: int| 0 <= j < crate::engine::recs_model(recs@).len() implies crate::engine::mrec_wf(
            crate::schema::SchemaId::Goods,
            #[trigger] crate::engine::recs_model(recs@)[j],
        ) by {
            assert(crate::engine::recs_model(recs@)[j] == crate::engine::recs_model(rs0)[j + 1]);
        }
    }
    let d = build_good(first);
    let mut rest = build_good_list(recs);
    let ghost r0 = rest@;
    rest.insert(0, d);
    proof {
        assert(rest@ =~= seq![rest@[0]] + r0);
        assert(crate::common::seq_view(rest@) =~= seq![rest@[0]@] + crate::common::seq_view(r0));
    }
    rest
}

impl GoodData {
    /// Parses every record of a `#goods` section body from its tokens.
    pub fn parse_tokens(toks: &Vec<crate::lexer::Tok>) -> (r: Result<Vec<GoodData>, crate::diag::Diagnostic>)
        requires
            crate::lexer::mtoks_wf(crate::lexer::toks_model(toks@)),
        ensures
            match (r, crate::engine::spec_records(crate::schema::SchemaId::Goods, crate::lexer::toks_model(toks@), 0)) {
                (Ok(ds), Ok(mrs)) => crate::common::seq_view(ds@) == goods_of(mrs),
                (Err(d), Err(md)) => d@ == md,
                _ => false,
            },
    {
        match crate::engine::p_records(crate::schema::SchemaId::Goods, toks, 0) {
            Ok(recs) => Ok(build_good_list(recs)),
            Err(d) => Err(d),
        }
    }
}

} // verus!

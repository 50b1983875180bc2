//! The stapledon-swarm schema: `#stapledon_swarm` sections.

use vstd::prelude::*;

use crate::common::{seq_view, MGoodConsumes, GoodConsumes};
use crate::decimal::Decimal;

verus! {

/// One swarm structure level.
#[derive(Clone, Debug, PartialEq)]
pub struct StapledonSwarmData {
    pub level: u8,
    pub name: String,
    pub swarm_asset: String,
    pub receiver_asset: String,
    pub power: Decimal,
    pub time: u8,
    pub costs: Vec<GoodConsumes>,
    pub upkeep: Vec<GoodConsumes>,
}

pub struct MStapledonSwarmData {
    pub level: u8,
    pub name: Seq<char>,
    pub swarm_asset: Seq<char>,
    pub receiver_asset: Seq<char>,
    pub power: Decimal,
    pub time: u8,
    pub costs: Seq<MGoodConsumes>,
    pub upkeep: Seq<MGoodConsumes>,
}

impl View for StapledonSwarmData {
    type V = MStapledonSwarmData;

    open spec fn view(&self) -> MStapledonSwarmData {
        MStapledonSwarmData {
            level: self.level,
            name: self.name@,
            swarm_asset: self.swarm_asset@,
            receiver_asset: self.receiver_asset@,
            power: self.power,
            time: self.time,
            costs: seq_view(self.costs@),
            upkeep: seq_view(self.upkeep@),
        }
    }
}

pub open spec fn stapledon_default() -> MStapledonSwarmData {
    MStapledonSwarmData {
        level: 0,
        name: Seq::empty(),
        swarm_asset: Seq::empty(),
        receiver_asset: Seq::empty(),
        power: Decimal { mant: 0, scale: 0 },
        time: 0,
        costs: Seq::empty(),
        upkeep: Seq::empty(),
    }
}

impl Default for StapledonSwarmData {
    fn default() -> (r: StapledonSwarmData)
        ensures
            r@ == stapledon_default(),
    {
        let r = StapledonSwarmData {
            level: 0,
            name: String::new(),
            swarm_asset: String::new(),
            receiver_asset: String::new(),
            power: Decimal::zero(),
            time: 0,
            costs: Vec::new(),
            upkeep: Vec::new(),
        };
        proof {
            assert(r@.costs =~= stapledon_default().costs);
            assert(r@.upkeep =~= stapledon_default().upkeep);
        }
        r
    }
}

/// The record an entry list denotes: each field holds the last occurrence
/// of its keyword, or the default.
pub open spec fn stapledon_of(m: crate::engine::MRec) -> Result<MStapledonSwarmData, crate::diag::MDiag> {
    if m.id->N_0 <= 255 {
        Ok(MStapledonSwarmData {
            level: m.id->N_0 as u8,
            name: crate::engine::last_str(m.entries, crate::schema::F_NAME, Seq::empty()),
            swarm_asset: crate::engine::last_str(m.entries, crate::schema::F_SWARM_ASSET, Seq::empty()),
            receiver_asset: crate::engine::last_str(m.entries, crate::schema::F_RECEIVER_ASSET, Seq::empty()),
            power: crate::engine::last_dec(m.entries, crate::schema::F_POWER, crate::decimal::Decimal { mant: 0, scale: 0 }),
            time: crate::engine::last_u8(m.entries, crate::schema::F_TIME, 0),
            costs: crate::engine::last_goods(m.entries, crate::schema::F_COSTS),
            upkeep: crate::engine::last_goods(m.entries, crate::schema::F_UPKEEP),
        })
    } else {
        Err(crate::diag::MDiag {
            kind: crate::diag::DiagKind::OutOfRange,
            start: m.id_start,
            end: m.id_end,
            expected: seq!["integer 0..=255"@],
            found: "integer"@,
        })
    }
}

proof fn lemma_stapledon_entry(e: (u32, crate::schema::MTypedValue))
    requires
        crate::engine::entry_wf(crate::schema::SchemaId::StapledonSwarms, e),
    ensures
        (e.0 == crate::schema::F_NAME && e.1 is TStr) || (e.0 == crate::schema::F_SWARM_ASSET && e.1 is TStr) || (e.0 == crate::schema::F_RECEIVER_ASSET && e.1 is TStr) || (e.0 == crate::schema::F_POWER && e.1 is TDec) || (e.0 == crate::schema::F_TIME && e.1 is TU8) || (e.0 == crate::schema::F_COSTS && e.1 is TGoods) || (e.0 == crate::schema::F_UPKEEP && e.1 is TGoods),
{
    reveal(crate::schema::field_of);
    let kw = choose|kw: Seq<char>|
        #![trigger crate::schema::field_of(crate::schema::SchemaId::StapledonSwarms, kw)]
        match crate::schema::field_of(crate::schema::SchemaId::StapledonSwarms, kw) {
            Some(p) => p.0 == e.0 && crate::engine::tv_matches(p.1, e.1),
            None => false,
        };
}

fn build_stapledon(rec: crate::engine::Rec) -> (r: Result<StapledonSwarmData, crate::diag::Diagnostic>)
    requires
        crate::engine::mrec_wf(crate::schema::SchemaId::StapledonSwarms, crate::engine::rec_model(rec)),
    ensures
        match (r, stapledon_of(crate::engine::rec_model(rec))) {
            (Ok(d), Ok(md)) => d@ == md,
            (Err(d), Err(md)) => d@ == md,
            _ => false,
        },
{
    let ghost m = crate::engine::rec_model(rec);
    let mut r = StapledonSwarmData::default();
    let crate::engine::Rec { id, id_start, id_end, entries } = rec;
    match id {
        crate::engine::RecId::N(x) => {
            if x <= 255 {
                r.level = x as u8;
            } else {
                let mut exp: Vec<String> = Vec::new();
                exp.push(String::from_str("integer 0..=255"));
                let d = crate::diag::Diagnostic {
                    kind: crate::diag::DiagKind::OutOfRange,
                    start: id_start,
                    end: id_end,
                    expected: exp,
                    found: String::from_str("integer"),
                };
                proof {
                    assert(d@.expected =~= seq!["integer 0..=255"@]);
                }
                return Err(d);
            }
        },
        crate::engine::RecId::S(_) => {
            proof {
                assert(false);
            }
        },
    }
    let mut es = entries;
    let ghost mut processed: Seq<(u32, crate::schema::MTypedValue)> = Seq::empty();
    proof {
        assert(processed + crate::engine::entries_model(es@) =~= m.entries);
    }
    while es.len() > 0
        invariant
            processed + crate::engine::entries_model(es@) =~= m.entries,
            crate::engine::entries_ok(crate::schema::SchemaId::StapledonSwarms, crate::engine::entries_model(es@)),
            r@.level == m.id->N_0 as u8,
            r@.name == crate::engine::last_str(processed, crate::schema::F_NAME, Seq::empty()),
            r@.swarm_asset == crate::engine::last_str(processed, crate::schema::F_SWARM_ASSET, Seq::empty()),
            r@.receiver_asset == crate::engine::last_str(processed, crate::schema::F_RECEIVER_ASSET, Seq::empty()),
            r@.power == crate::engine::last_dec(processed, crate::schema::F_POWER, crate::decimal::Decimal { mant: 0, scale: 0 }),
            r@.time == crate::engine::last_u8(processed, crate::schema::F_TIME, 0),
            r@.costs == crate::engine::last_goods(processed, crate::schema::F_COSTS),
            r@.upkeep == crate::engine::last_goods(processed, crate::schema::F_UPKEEP),
        decreases es@.len(),
    {
        let ghost es_old = es@;
        let e = es.remove(0);
        let ghost em = (e.0, crate::schema::tv_model(e.1));
        proof {
            assert(es@ =~= es_old.drop_first());
            assert(crate::engine::entries_model(es_old) == seq![(es_old[0].0, crate::schema::tv_model(es_old[0].1))]
                + crate::engine::entries_model(es_old.drop_first()));
            assert(crate::engine::entries_model(es_old)[0] == em);
            assert(crate::engine::entry_wf(crate::schema::SchemaId::StapledonSwarms, em));
            lemma_stapledon_entry(em);
            assert forall|j: int| 0 <= j < crate::engine::entries_model(es@).len() implies crate::engine::entry_wf(
                crate::schema::SchemaId::StapledonSwarms,
                #[trigger] crate::engine::entries_model(es@)[j],
            ) by {
                assert(crate::engine::entries_model(es@)[j] == crate::engine::entries_model(es_old)[j + 1]);
            }
            crate::engine::lemma_last_entry_push(processed, em, crate::schema::F_NAME);
            crate::engine::lemma_last_entry_push(processed, em, crate::schema::F_SWARM_ASSET);
            crate::engine::lemma_last_entry_push(processed, em, crate::schema::F_RECEIVER_ASSET);
            crate::engine::lemma_last_entry_push(processed, em, crate::schema::F_POWER);
            crate::engine::lemma_last_entry_push(processed, em, crate::schema::F_TIME);
            crate::engine::lemma_last_entry_push(processed, em, crate::schema::F_COSTS);
            crate::engine::lemma_last_entry_push(processed, em, crate::schema::F_UPKEEP);
            assert(processed.push(em) + crate::engine::entries_model(es@) =~= m.entries);
        }
        let (fid, tv) = e;
        if fid == crate::schema::F_NAME {
            match tv {
                crate::schema::TypedValue::TStr(s) => {
                    r.name = s;
                },
                _ => {
                    proof {
                        assert(false);
                    }
                },
            }
        } else if fid == crate::schema::F_SWARM_ASSET {
            match tv {
                crate::schema::TypedValue::TStr(s) => {
                    r.swarm_asset = s;
                },
                _ => {
                    proof {
                        assert(false);
                    }
                },
            }
        } else if fid == crate::schema::F_RECEIVER_ASSET {
            match tv {
                crate::schema::TypedValue::TStr(s) => {
                    r.receiver_asset = s;
                },
                _ => {
                    proof {
                        assert(false);
                    }
                },
            }
        } else if fid == crate::schema::F_POWER {
            match tv {
                crate::schema::TypedValue::TDec(s) => {
                    r.power = s;
                },
                _ => {
                    proof {
                        assert(false);
                    }
                },
            }
        } else if fid == crate::schema::F_TIME {
            match tv {
                crate::schema::TypedValue::TU8(s) => {
                    r.time = s;
                },
                _ => {
                    proof {
                        assert(false);
                    }
                },
            }
        } else if fid == crate::schema::F_COSTS {
            match tv {
                crate::schema::TypedValue::TGoods(s) => {
                    r.costs = s;
                },
                _ => {
                    proof {
                        assert(false);
                    }
                },
            }
        } else {
            proof {
                assert(fid == crate::schema::F_UPKEEP);
            }
            match tv {
                crate::schema::TypedValue::TGoods(s) => {
                    r.upkeep = s;
                },
                _ => {
                    proof {
                        assert(false);
                    }
                },
            }
        }
        proof {
            processed = processed.push(em);
        }
    }
    proof {
        assert(crate::engine::entries_model(es@) =~= Seq::<(u32, crate::schema::MTypedValue)>::empty());
        assert(processed =~= m.entries);
    }
    Ok(r)
}

/// The typed records a section's record list denotes, in order.
pub open spec fn stapledons_of(rs: Seq<crate::engine::MRec>) -> Result<Seq<MStapledonSwarmData>, crate::diag::MDiag>
    decreases rs,
{
    if rs.len() == 0 {
        Ok(Seq::empty())
    } else {
        match stapledon_of(rs[0]) {
            Ok(d) => match stapledons_of(rs.drop_first()) {
                Ok(ds) => Ok(seq![d] + ds),
                Err(e) => Err(e),
            },
            Err(e) => Err(e),
        }
    }
}

fn build_stapledon_list(recs: Vec<crate::engine::Rec>) -> (r: Result<Vec<StapledonSwarmData>, crate::diag::Diagnostic>)
    requires
        crate::engine::mrecs_wf(crate::schema::SchemaId::StapledonSwarms, crate::engine::recs_model(recs@)),
    ensures
        match (r, stapledons_of(crate::engine::recs_model(recs@))) {
            (Ok(ds), Ok(mds)) => crate::common::seq_view(ds@) == mds,
            (Err(d), Err(md)) => d@ == md,
            _ => false,
        },
    decreases recs@.len(),
{
    let mut recs = recs;
    if recs.len() == 0 {
        let r: Vec<StapledonSwarmData> = Vec::new();
        proof {
            assert(crate::common::seq_view(r@) =~= Seq::<MStapledonSwarmData>::empty());
        }
        return Ok(r);
    }
    let ghost rs0 = recs@;
    let first = recs.remove(0);
    proof {
        assert(recs@ =~= rs0.drop_first());
        assert(crate::engine::recs_model(rs0) == seq![crate::engine::rec_model(rs0[0])] + crate::engine::recs_model(rs0.drop_first()));
        assert(crate::engine::recs_model(rs0)[0] == crate::engine::rec_model(first));
        assert(crate::engine::recs_model(rs0).drop_first() =~= crate::engine::recs_model(recs@));
        assert(crate::engine::mrec_wf(crate::schema::SchemaId::StapledonSwarms, crate::engine::rec_model(first)));
        assert forall|j: int| 0 <= j < crate::engine::recs_model(recs@).len() implies crate::engine::mrec_wf(
            crate::schema::SchemaId::StapledonSwarms,
            #[trigger] crate::engine::recs_model(recs@)[j],
        ) by {
            assert(crate::engine::recs_model(recs@)[j] == crate::engine::recs_model(rs0)[j + 1]);
        }
    }
    match build_stapledon(first) {
        Ok(d) => {
            match build_stapledon_list(recs) {
                Ok(mut rest) => {
                    let ghost r0 = rest@;
                    rest.insert(0, d);
                    proof {
                        assert(rest@ =~= seq![rest@[0]] + r0);
                        assert(crate::common::seq_view(rest@) =~= seq![rest@[0]@] + crate::common::seq_view(r0));
                    }
                    Ok(rest)
                },
                Err(d2) => Err(d2),
            }
        },
        Err(d2) => Err(d2),
    }
}

impl StapledonSwarmData {
    /// Parses every record of a `#stapledon_swarm` section body from its tokens.
    pub fn parse_tokens(toks: &Vec<crate::lexer::Tok>) -> (r: Result<Vec<StapledonSwarmData>, crate::diag::Diagnostic>)
        requires
            crate::lexer::mtoks_wf(crate::lexer::toks_model(toks@)),
        ensures
            match (r, crate::engine::spec_records(crate::schema::SchemaId::StapledonSwarms, crate::lexer::toks_model(toks@), 0)) {
                (Ok(ds), Ok(mrs)) => match stapledons_of(mrs) {
                    Ok(mds) => crate::common::seq_view(ds@) == mds,
                    Err(_) => false,
                },
                (Err(d), Ok(mrs)) => match stapledons_of(mrs) {
                    Ok(_) => false,
                    Err(md) => d@ == md,
                },
                (Err(d), Err(md)) => d@ == md,
                _ => false,
            },
    {
        match crate::engine::p_records(crate::schema::SchemaId::StapledonSwarms, toks, 0) {
            Ok(recs) => build_stapledon_list(recs),
            Err(d) => Err(d),
        }
    }
}

} // verus!

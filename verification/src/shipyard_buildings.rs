//! The shipyard-upgrades schema: buildings raised inside a shipyard.

use vstd::prelude::*;

use crate::building::{CustomGood, MCustomGood};
use crate::common::seq_view;
use crate::decimal::Decimal;

verus! {

/// One shipyard upgrade building.
#[derive(Clone, Debug, PartialEq)]
pub struct ShipyardBuildingData {
    pub id: String,
    pub name: String,
    /// Shipyard level needed to build this.
    pub level_required: u8,
    /// How much the building adds to the base's strength.
    pub base_strength: Decimal,
    /// How much the building adds to the fleet's strength.
    pub fleet_strength: Decimal,
    pub costs: Vec<CustomGood>,
    /// How much each building costs to maintain.
    pub upkeep: Decimal,
    /// How much power the station costs to use.
    pub power: Decimal,
    pub time: u8,
}

pub struct MShipyardBuildingData {
    pub id: Seq<char>,
    pub name: Seq<char>,
    pub level_required: u8,
    pub base_strength: Decimal,
    pub fleet_strength: Decimal,
    pub costs: Seq<MCustomGood>,
    pub upkeep: Decimal,
    pub power: Decimal,
    pub time: u8,
}

impl View for ShipyardBuildingData {
    type V = MShipyardBuildingData;

    open spec fn view(&self) -> MShipyardBuildingData {
        MShipyardBuildingData {
            id: self.id@,
            name: self.name@,
            level_required: self.level_required,
            base_strength: self.base_strength,
            fleet_strength: self.fleet_strength,
            costs: seq_view(self.costs@),
            upkeep: self.upkeep,
            power: self.power,
            time: self.time,
        }
    }
}

pub open spec fn shipyard_building_default() -> MShipyardBuildingData {
    MShipyardBuildingData {
        id: Seq::empty(),
        name: Seq::empty(),
        level_required: 0,
        base_strength: Decimal { mant: 0, scale: 0 },
        fleet_strength: Decimal { mant: 0, scale: 0 },
        costs: Seq::empty(),
        upkeep: Decimal { mant: 0, scale: 0 },
        power: Decimal { mant: 0, scale: 0 },
        time: 0,
    }
}

impl Default for ShipyardBuildingData {
    fn default() -> (r: ShipyardBuildingData)
        ensures
            r@ == shipyard_building_default(),
    {
        let r = ShipyardBuildingData {
            id: String::new(),
            name: String::new(),
            level_required: 0,
            base_strength: Decimal::zero(),
            fleet_strength: Decimal::zero(),
            costs: Vec::new(),
            upkeep: Decimal::zero(),
            power: Decimal::zero(),
            time: 0,
        };
        proof {
            assert(r@.costs =~= shipyard_building_default().costs);
        }
        r
    }
}

/// The record an entry list denotes: each field holds the last occurrence
/// of its keyword, or the default.
pub open spec fn shipyard_building_of(m: crate::engine::MRec) -> MShipyardBuildingData {
    MShipyardBuildingData {
        id: m.id->S_0,
        name: crate::engine::last_str(m.entries, crate::schema::F_NAME, Seq::empty()),
        level_required: crate::engine::last_u8(m.entries, crate::schema::F_LEVEL_REQUIRED, 0),
        base_strength: crate::engine::last_dec(m.entries, crate::schema::F_BASE_STRENGTH, crate::decimal::Decimal { mant: 0, scale: 0 }),
        fleet_strength: crate::engine::last_dec(m.entries, crate::schema::F_FLEET_STRENGTH, crate::decimal::Decimal { mant: 0, scale: 0 }),
        costs: crate::engine::last_cgoods(m.entries, crate::schema::F_COSTS),
        upkeep: crate::engine::last_dec(m.entries, crate::schema::F_UPKEEP, crate::decimal::Decimal { mant: 0, scale: 0 }),
        power: crate::engine::last_dec(m.entries, crate::schema::F_POWER, crate::decimal::Decimal { mant: 0, scale: 0 }),
        time: crate::engine::last_u8(m.entries, crate::schema::F_TIME, 0),
    }
}

proof fn lemma_shipyard_building_entry(e: (u32, crate::schema::MTypedValue))
    requires
        crate::engine::entry_wf(crate::schema::SchemaId::ShipyardBuildings, e),
    ensures
        (e.0 == crate::schema::F_NAME && e.1 is TStr) || (e.0 == crate::schema::F_LEVEL_REQUIRED && e.1 is TU8) || (e.0 == crate::schema::F_BASE_STRENGTH && e.1 is TDec) || (e.0 == crate::schema::F_FLEET_STRENGTH && e.1 is TDec) || (e.0 == crate::schema::F_COSTS && e.1 is TCGoods) || (e.0 == crate::schema::F_UPKEEP && e.1 is TDec) || (e.0 == crate::schema::F_POWER && e.1 is TDec) || (e.0 == crate::schema::F_TIME && e.1 is TU8),
{
    reveal(crate::schema::field_of);
    let kw = choose|kw: Seq<char>|
        #![trigger crate::schema::field_of(crate::schema::SchemaId::ShipyardBuildings, kw)]
        match crate::schema::field_of(crate::schema::SchemaId::ShipyardBuildings, kw) {
            Some(p) => p.0 == e.0 && crate::engine::tv_matches(p.1, e.1),
            None => false,
        };
}

fn build_shipyard_building(rec: crate::engine::Rec) -> (r: ShipyardBuildingData)
    requires
        crate::engine::mrec_wf(crate::schema::SchemaId::ShipyardBuildings, crate::engine::rec_model(rec)),
    ensures
        r@ == shipyard_building_of(crate::engine::rec_model(rec)),
{
    let ghost m = crate::engine::rec_model(rec);
    let mut r = ShipyardBuildingData::default();
    let crate::engine::Rec { id, id_start, id_end, entries } = rec;
    match id {
        crate::engine::RecId::S(s) => {
            r.id = s;
        },
        crate::engine::RecId::N(_) => {
            proof {
                assert(false);
            }
        },
    }
    let mut es = entries;
    let ghost mut processed: Seq<(u32, crate::schema::MTypedValue)> = Seq::empty();
    proof {
        assert(processed + crate::engine::entries_model(es@) =~= m.entries);
    }
    while es.len() > 0
        invariant
            processed + crate::engine::entries_model(es@) =~= m.entries,
            crate::engine::entries_ok(crate::schema::SchemaId::ShipyardBuildings, crate::engine::entries_model(es@)),
            r@.id == m.id->S_0,
            r@.name == crate::engine::last_str(processed, crate::schema::F_NAME, Seq::empty()),
            r@.level_required == crate::engine::last_u8(processed, crate::schema::F_LEVEL_REQUIRED, 0),
            r@.base_strength == crate::engine::last_dec(processed, crate::schema::F_BASE_STRENGTH, crate::decimal::Decimal { mant: 0, scale: 0 }),
            r@.fleet_strength == crate::engine::last_dec(processed, crate::schema::F_FLEET_STRENGTH, crate::decimal::Decimal { mant: 0, scale: 0 }),
            r@.costs == crate::engine::last_cgoods(processed, crate::schema::F_COSTS),
            r@.upkeep == crate::engine::last_dec(processed, crate::schema::F_UPKEEP, crate::decimal::Decimal { mant: 0, scale: 0 }),
            r@.power == crate::engine::last_dec(processed, crate::schema::F_POWER, crate::decimal::Decimal { mant: 0, scale: 0 }),
            r@.time == crate::engine::last_u8(processed, crate::schema::F_TIME, 0),
        decreases es@.len(),
    {
        let ghost es_old = es@;
        let e = es.remove(0);
        let ghost em = (e.0, crate::schema::tv_model(e.1));
        proof {
            assert(es@ =~= es_old.drop_first());
            assert(crate::engine::entries_model(es_old) == seq![(es_old[0].0, crate::schema::tv_model(es_old[0].1))]
                + crate::engine::entries_model(es_old.drop_first()));
            assert(crate::engine::entries_model(es_old)[0] == em);
            assert(crate::engine::entry_wf(crate::schema::SchemaId::ShipyardBuildings, em));
            lemma_shipyard_building_entry(em);
            assert forall|j: int| 0 <= j < crate::engine::entries_model(es@).len() implies crate::engine::entry_wf(
                crate::schema::SchemaId::ShipyardBuildings,
                #[trigger] crate::engine::entries_model(es@)[j],
            ) by {
                assert(crate::engine::entries_model(es@)[j] == crate::engine::entries_model(es_old)[j + 1]);
            }
            crate::engine::lemma_last_entry_push(processed, em, crate::schema::F_NAME);
            crate::engine::lemma_last_entry_push(processed, em, crate::schema::F_LEVEL_REQUIRED);
            crate::engine::lemma_last_entry_push(processed, em, crate::schema::F_BASE_STRENGTH);
            crate::engine::lemma_last_entry_push(processed, em, crate::schema::F_FLEET_STRENGTH);
            crate::engine::lemma_last_entry_push(processed, em, crate::schema::F_COSTS);
            crate::engine::lemma_last_entry_push(processed, em, crate::schema::F_UPKEEP);
            crate::engine::lemma_last_entry_push(processed, em, crate::schema::F_POWER);
            crate::engine::lemma_last_entry_push(processed, em, crate::schema::F_TIME);
            assert(processed.push(em) + crate::engine::entries_model(es@) =~= m.entries);
        }
        let (fid, tv) = e;
        if fid == crate::schema::F_NAME {
            match tv {
                crate::schema::TypedValue::TStr(s) => {
                    r.name = s;
                },
                _ => {
                    proof {
                        assert(false);
                    }
                },
            }
        } else if fid == crate::schema::F_LEVEL_REQUIRED {
            match tv {
                crate::schema::TypedValue::TU8(s) => {
                    r.level_required = s;
                },
                _ => {
                    proof {
                        assert(false);
                    }
                },
            }
        } else if fid == crate::schema::F_BASE_STRENGTH {
            match tv {
                crate::schema::TypedValue::TDec(s) => {
                    r.base_strength = s;
                },
                _ => {
                    proof {
                        assert(false);
                    }
                },
            }
        } else if fid == crate::schema::F_FLEET_STRENGTH {
            match tv {
                crate::schema::TypedValue::TDec(s) => {
                    r.fleet_strength = s;
                },
                _ => {
                    proof {
                        assert(false);
                    }
                },
            }
        } else if fid == crate::schema::F_COSTS {
            match tv {
                crate::schema::TypedValue::TCGoods(s) => {
                    r.costs = s;
                },
                _ => {
                    proof {
                        assert(false);
                    }
                },
            }
        } else if fid == crate::schema::F_UPKEEP {
            match tv {
                crate::schema::TypedValue::TDec(s) => {
                    r.upkeep = s;
                },
                _ => {
                    proof {
                        assert(false);
                    }
                },
            }
        } else if fid == crate::schema::F_POWER {
            match tv {
                crate::schema::TypedValue::TDec(s) => {
                    r.power = s;
                },
                _ => {
                    proof {
                        assert(false);
                    }
                },
            }
        } else {
            proof {
                assert(fid == crate::schema::F_TIME);
            }
            match tv {
                crate::schema::TypedValue::TU8(s) => {
                    r.time = s;
                },
                _ => {
                    proof {
                        assert(false);
                    }
                },
            }
        }
        proof {
            processed = processed.push(em);
        }
    }
    proof {
        assert(crate::engine::entries_model(es@) =~= Seq::<(u32, crate::schema::MTypedValue)>::empty());
        assert(processed =~= m.entries);
    }
    r
}

/// The typed records a section's record list denotes, in order.
pub open spec fn shipyard_buildings_of(rs: Seq<crate::engine::MRec>) -> Seq<MShipyardBuildingData>
    decreases rs,
{
    if rs.len() == 0 {
        Seq::empty()
    } else {
        seq![shipyard_building_of(rs[0])] + shipyard_buildings_of(rs.drop_first())
    }
}

fn build_shipyard_building_list(recs: Vec<crate::engine::Rec>) -> (r: Vec<ShipyardBuildingData>)
    requires
        crate::engine::mrecs_wf(crate::schema::SchemaId::ShipyardBuildings, crate::engine::recs_model(recs@)),
    ensures
        crate::common::seq_view(r@) == shipyard_buildings_of(crate::engine::recs_model(recs@)),
    decreases recs@.len(),
{
    let mut recs = recs;
    if recs.len() == 0 {
        let r: Vec<ShipyardBuildingData> = Vec::new();
        proof {
            assert(crate::common::seq_view(r@) =~= Seq::<MShipyardBuildingData>::empty());
        }
        return r;
    }
    let ghost rs0 = recs@;
    let first = recs.remove(0);
    proof {
        assert(recs@ =~= rs0.drop_first());
        assert(crate::engine::recs_model(rs0) == seq![crate::engine::rec_model(rs0[0])] + crate::engine::recs_model(rs0.drop_first()));
        assert(crate::engine::recs_model(rs0)[0] == crate::engine::rec_model(first));
        assert(crate::engine::recs_model(rs0).drop_first() =~= crate::engine::recs_model(recs@));
        assert(crate::engine::mrec_wf(crate::schema::SchemaId::ShipyardBuildings, crate::engine::rec_model(first)));
        assert forall|j: int| 0 <= j < crate::engine::recs_model(recs@).len() implies crate::engine::mrec_wf(
            crate::schema::SchemaId::ShipyardBuildings,
            #[trigger] crate::engine::recs_model(recs@)[j],
        ) by {
            assert(crate::engine::recs_model(recs@)[j] == crate::engine::recs_model(rs0)[j + 1]);
        }
    }
    let d = build_shipyard_building(first);
    let mut rest = build_shipyard_building_list(recs);
    let ghost r0 = rest@;
    rest.insert(0, d);
    proof {
        assert(rest@ =~= seq![rest@[0]] + r0);
        assert(crate::common::seq_view(rest@) =~= seq![rest@[0]@] + crate::common::seq_view(r0));
    }
    rest
}

impl ShipyardBuildingData {
    /// Parses every record of a shipyard upgrades section body from its tokens.
    pub fn parse_tokens(toks: &Vec<crate::lexer::Tok>) -> (r: Result<Vec<ShipyardBuildingData>, crate::diag::Diagnostic>)
        requires
            crate::lexer::mtoks_wf(crate::lexer::toks_model(toks@)),
        ensures
            match (r, crate::engine::spec_records(crate::schema::SchemaId::ShipyardBuildings, crate::lexer::toks_model(toks@), 0)) {
                (Ok(ds), Ok(mrs)) => crate::common::seq_view(ds@) == shipyard_buildings_of(mrs),
                (Err(d), Err(md)) => d@ == md,
                _ => false,
            },
    {
        match crate::engine::p_records(crate::schema::SchemaId::ShipyardBuildings, toks, 0) {
            Ok(recs) => Ok(build_shipyard_building_list(recs)),
            Err(d) => Err(d),
        }
    }
}

} // verus!

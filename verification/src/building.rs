//! The buildings schema: `#buildings` sections.

use vstd::prelude::*;

use crate::common::seq_view;
use crate::decimal::Decimal;

verus! {

/// One good with its exact amount, as a building cost or flow.
#[derive(Clone, Debug, PartialEq)]
pub struct CustomGood {
    pub id: String,
    pub amount: Decimal,
}

pub struct MCustomGood {
    pub id: Seq<char>,
    pub amount: Decimal,
}

impl View for CustomGood {
    type V = MCustomGood;

    open spec fn view(&self) -> MCustomGood {
        MCustomGood { id: self.id@, amount: self.amount }
    }
}

/// Contribution of the building to the atmosphere equilibrium.
#[derive(Clone, Copy, Debug, PartialEq, Eq, Structural, Default)]
pub struct AtmosphereImpact {
    pub added_equilibrium: Decimal,
    pub rate: Decimal,
}

/// Contribution of the building to the magnetosphere equilibrium.
#[derive(Clone, Copy, Debug, PartialEq, Eq, Structural, Default)]
pub struct MagnetosphereImpact {
    pub added_equilibrium: Decimal,
    pub rate: Decimal,
}

/// A station model placed in orbit by the building.
#[derive(Clone, Debug, PartialEq)]
pub struct Station {
    pub x: Decimal,
    pub y: Decimal,
    pub z: Decimal,
    pub scale: Decimal,
    pub path: String,
}

pub struct MStation {
    pub x: Decimal,
    pub y: Decimal,
    pub z: Decimal,
    pub scale: Decimal,
    pub path: Seq<char>,
}

impl View for Station {
    type V = MStation;

    open spec fn view(&self) -> MStation {
        MStation { x: self.x, y: self.y, z: self.z, scale: self.scale, path: self.path@ }
    }
}

pub open spec fn station_default() -> MStation {
    MStation {
        x: Decimal { mant: 0, scale: 0 },
        y: Decimal { mant: 0, scale: 0 },
        z: Decimal { mant: 0, scale: 0 },
        scale: Decimal { mant: 0, scale: 0 },
        path: Seq::empty(),
    }
}

/// Where the building may stand.
#[derive(Clone, Debug, PartialEq)]
pub enum PlanetFilter {
    PlanetSide(String),
    Orbital(String),
}

pub enum MPlanetFilter {
    PlanetSide(Seq<char>),
    Orbital(Seq<char>),
}

impl View for PlanetFilter {
    type V = MPlanetFilter;

    open spec fn view(&self) -> MPlanetFilter {
        match self {
            PlanetFilter::PlanetSide(s) => MPlanetFilter::PlanetSide(s@),
            PlanetFilter::Orbital(s) => MPlanetFilter::Orbital(s@),
        }
    }
}

/// One constructible building.
#[derive(Clone, Debug, PartialEq)]
pub struct BuildingData {
    pub id: String,
    pub name: String,
    pub planet_filters: Vec<PlanetFilter>,
    pub initial: bool,
    pub unique: bool,
    pub energy: Decimal,
    pub costs: Vec<CustomGood>,
    pub private_costs: Decimal,
    pub consumes: Vec<CustomGood>,
    pub upkeep: Vec<CustomGood>,
    pub produces: Vec<CustomGood>,
    pub housing: u64,
    pub workers: u64,
    pub private_sector: bool,
    pub stations: Vec<Station>,
    pub magnetosphere_equilibrium: MagnetosphereImpact,
    pub atmosphere_equilibrium: AtmosphereImpact,
    pub temperature_change: Decimal,
    pub water_change: Decimal,
    pub breathable_change: Decimal,
    pub tech_needed: Option<String>,
    pub upgrades_from: Option<String>,
    pub prosperity_per_job: Decimal,
}

pub struct MBuildingData {
    pub id: Seq<char>,
    pub name: Seq<char>,
    pub planet_filters: Seq<MPlanetFilter>,
    pub initial: bool,
    pub unique: bool,
    pub energy: Decimal,
    pub costs: Seq<MCustomGood>,
    pub private_costs: Decimal,
    pub consumes: Seq<MCustomGood>,
    pub upkeep: Seq<MCustomGood>,
    pub produces: Seq<MCustomGood>,
    pub housing: u64,
    pub workers: u64,
    pub private_sector: bool,
    pub stations: Seq<MStation>,
    pub magnetosphere_equilibrium: MagnetosphereImpact,
    pub atmosphere_equilibrium: AtmosphereImpact,
    pub temperature_change: Decimal,
    pub water_change: Decimal,
    pub breathable_change: Decimal,
    pub tech_needed: Option<Seq<char>>,
    pub upgrades_from: Option<Seq<char>>,
    pub prosperity_per_job: Decimal,
}

/// The model of an optional owned string.
pub open spec fn opt_str_view(o: Option<String>) -> Option<Seq<char>> {
    match o {
        Some(s) => Some(s@),
        None => None,
    }
}

impl View for BuildingData {
    type V = MBuildingData;

    open spec fn view(&self) -> MBuildingData {
        MBuildingData {
            id: self.id@,
            name: self.name@,
            planet_filters: seq_view(self.planet_filters@),
            initial: self.initial,
            unique: self.unique,
            energy: self.energy,
            costs: seq_view(self.costs@),
            private_costs: self.private_costs,
            consumes: seq_view(self.consumes@),
            upkeep: seq_view(self.upkeep@),
            produces: seq_view(self.produces@),
            housing: self.housing,
            workers: self.workers,
            private_sector: self.private_sector,
            stations: seq_view(self.stations@),
            magnetosphere_equilibrium: self.magnetosphere_equilibrium,
            atmosphere_equilibrium: self.atmosphere_equilibrium,
            temperature_change: self.temperature_change,
            water_change: self.water_change,
            breathable_change: self.breathable_change,
            tech_needed: opt_str_view(self.tech_needed),
            upgrades_from: opt_str_view(self.upgrades_from),
            prosperity_per_job: self.prosperity_per_job,
        }
    }
}

pub open spec fn building_default() -> MBuildingData {
    MBuildingData {
        id: Seq::empty(),
        name: Seq::empty(),
        planet_filters: Seq::empty(),
        initial: false,
        unique: false,
        energy: Decimal { mant: 0, scale: 0 },
        costs: Seq::empty(),
        private_costs: Decimal { mant: 0, scale: 0 },
        consumes: Seq::empty(),
        upkeep: Seq::empty(),
        produces: Seq::empty(),
        housing: 0,
        workers: 0,
        private_sector: false,
        stations: Seq::empty(),
        magnetosphere_equilibrium: MagnetosphereImpact {
            added_equilibrium: Decimal { mant: 0, scale: 0 },
            rate: Decimal { mant: 0, scale: 0 },
        },
        atmosphere_equilibrium: AtmosphereImpact {
            added_equilibrium: Decimal { mant: 0, scale: 0 },
            rate: Decimal { mant: 0, scale: 0 },
        },
        temperature_change: Decimal { mant: 0, scale: 0 },
        water_change: Decimal { mant: 0, scale: 0 },
        breathable_change: Decimal { mant: 0, scale: 0 },
        tech_needed: None,
        upgrades_from: None,
        prosperity_per_job: Decimal { mant: 1, scale: 0 },
    }
}

impl Default for BuildingData {
    fn default() -> (r: BuildingData)
        ensures
            r@ == building_default(),
    {
        let r = BuildingData {
            id: String::new(),
            name: String::new(),
            planet_filters: Vec::new(),
            initial: false,
            unique: false,
            energy: Decimal::zero(),
            costs: Vec::new(),
            private_costs: Decimal::zero(),
            consumes: Vec::new(),
            upkeep: Vec::new(),
            produces: Vec::new(),
            housing: 0,
            workers: 0,
            private_sector: false,
            stations: Vec::new(),
            magnetosphere_equilibrium: MagnetosphereImpact {
                added_equilibrium: Decimal::zero(),
                rate: Decimal::zero(),
            },
            atmosphere_equilibrium: AtmosphereImpact {
                added_equilibrium: Decimal::zero(),
                rate: Decimal::zero(),
            },
            temperature_change: Decimal::zero(),
            water_change: Decimal::zero(),
            breathable_change: Decimal::zero(),
            tech_needed: None,
            upgrades_from: None,
            prosperity_per_job: Decimal::one(),
        };
        proof {
            assert(r@.planet_filters =~= building_default().planet_filters);
            assert(r@.costs =~= building_default().costs);
            assert(r@.consumes =~= building_default().consumes);
            assert(r@.upkeep =~= building_default().upkeep);
            assert(r@.produces =~= building_default().produces);
            assert(r@.stations =~= building_default().stations);
        }
        r
    }
}

/// The record an entry list denotes: each field holds the last occurrence
/// of its keyword, or the default.
pub open spec fn building_of(m: crate::engine::MRec) -> MBuildingData {
    MBuildingData {
        id: m.id->S_0,
        name: crate::engine::last_str(m.entries, crate::schema::F_NAME, Seq::empty()),
        planet_filters: crate::engine::last_filters(m.entries, crate::schema::F_PLANET_FILTERS),
        initial: crate::engine::last_bool(m.entries, crate::schema::F_INITIAL, false),
        unique: crate::engine::last_bool(m.entries, crate::schema::F_UNIQUE, false),
        energy: crate::engine::last_dec(m.entries, crate::schema::F_ENERGY, crate::decimal::Decimal { mant: 0, scale: 0 }),
        private_costs: crate::engine::last_dec(m.entries, crate::schema::F_PRIVATE_COSTS, crate::decimal::Decimal { mant: 0, scale: 0 }),
        stations: crate::engine::last_stations(m.entries, crate::schema::F_STATIONS),
        costs: crate::engine::last_cgoods(m.entries, crate::schema::F_COSTS),
        consumes: crate::engine::last_cgoods(m.entries, crate::schema::F_CONSUMES),
        upkeep: crate::engine::last_cgoods(m.entries, crate::schema::F_UPKEEP),
        produces: crate::engine::last_cgoods(m.entries, crate::schema::F_PRODUCES),
        housing: crate::engine::last_u64(m.entries, crate::schema::F_HOUSING, 0),
        workers: crate::engine::last_u64(m.entries, crate::schema::F_WORKERS, 0),
        private_sector: crate::engine::last_bool(m.entries, crate::schema::F_PRIVATE_SECTOR, false),
        magnetosphere_equilibrium: (crate::building::MagnetosphereImpact { added_equilibrium: crate::engine::last_impact(m.entries, crate::schema::F_MAGNETOSPHERE_EQ).0, rate: crate::engine::last_impact(m.entries, crate::schema::F_MAGNETOSPHERE_EQ).1 }),
        atmosphere_equilibrium: (crate::building::AtmosphereImpact { added_equilibrium: crate::engine::last_impact(m.entries, crate::schema::F_ATMOSPHERE_EQ).0, rate: crate::engine::last_impact(m.entries, crate::schema::F_ATMOSPHERE_EQ).1 }),
        temperature_change: crate::engine::last_dec(m.entries, crate::schema::F_TEMPERATURE_CHANGE, crate::decimal::Decimal { mant: 0, scale: 0 }),
        water_change: crate::engine::last_dec(m.entries, crate::schema::F_WATER_CHANGE, crate::decimal::Decimal { mant: 0, scale: 0 }),
        breathable_change: crate::engine::last_dec(m.entries, crate::schema::F_BREATHABLE_CHANGE, crate::decimal::Decimal { mant: 0, scale: 0 }),
        tech_needed: crate::engine::last_str_opt(m.entries, crate::schema::F_TECH_NEEDED),
        upgrades_from: crate::engine::last_str_opt(m.entries, crate::schema::F_UPGRADES_FROM),
        prosperity_per_job: crate::engine::last_dec(m.entries, crate::schema::F_PROSPERITY_PER_JOB, crate::decimal::Decimal { mant: 1, scale: 0 }),
    }
}

proof fn lemma_building_entry(e: (u32, crate::schema::MTypedValue))
    requires
        crate::engine::entry_wf(crate::schema::SchemaId::Buildings, e),
    ensures
        (e.0 == crate::schema::F_NAME && e.1 is TStr) || (e.0 == crate::schema::F_PLANET_FILTERS && e.1 is TFilters) || (e.0 == crate::schema::F_INITIAL && e.1 is TBool) || (e.0 == crate::schema::F_UNIQUE && e.1 is TBool) || (e.0 == crate::schema::F_ENERGY && e.1 is TDec) || (e.0 == crate::schema::F_PRIVATE_COSTS && e.1 is TDec) || (e.0 == crate::schema::F_STATIONS && e.1 is TStations) || (e.0 == crate::schema::F_COSTS && e.1 is TCGoods) || (e.0 == crate::schema::F_CONSUMES && e.1 is TCGoods) || (e.0 == crate::schema::F_UPKEEP && e.1 is TCGoods) || (e.0 == crate::schema::F_PRODUCES && e.1 is TCGoods) || (e.0 == crate::schema::F_HOUSING && e.1 is TU64) || (e.0 == crate::schema::F_WORKERS && e.1 is TU64) || (e.0 == crate::schema::F_PRIVATE_SECTOR && e.1 is TBool) || (e.0 == crate::schema::F_MAGNETOSPHERE_EQ && e.1 is TImpact) || (e.0 == crate::schema::F_ATMOSPHERE_EQ && e.1 is TImpact) || (e.0 == crate::schema::F_TEMPERATURE_CHANGE && e.1 is TDec) || (e.0 == crate::schema::F_WATER_CHANGE && e.1 is TDec) || (e.0 == crate::schema::F_BREATHABLE_CHANGE && e.1 is TDec) || (e.0 == crate::schema::F_TECH_NEEDED && e.1 is TStr) || (e.0 == crate::schema::F_UPGRADES_FROM && e.1 is TStr) || (e.0 == crate::schema::F_PROSPERITY_PER_JOB && e.1 is TDec),
{
    reveal(crate::schema::field_of);
    let kw = choose|kw: Seq<char>|
        #![trigger crate::schema::field_of(crate::schema::SchemaId::Buildings, kw)]
        match crate::schema::field_of(crate::schema::SchemaId::Buildings, kw) {
            Some(p) => p.0 == e.0 && crate::engine::tv_matches(p.1, e.1),
            None => false,
        };
}

fn build_building(rec: crate::engine::Rec) -> (r: BuildingData)
    requires
        crate::engine::mrec_wf(crate::schema::SchemaId::Buildings, crate::engine::rec_model(rec)),
    ensures
        r@ == building_of(crate::engine::rec_model(rec)),
{
    let ghost m = crate::engine::rec_model(rec);
    let mut r = BuildingData::default();
    let crate::engine::Rec { id, id_start, id_end, entries } = rec;
    match id {
        crate::engine::RecId::S(s) => {
            r.id = s;
        },
        crate::engine::RecId::N(_) => {
            proof {
                assert(false);
            }
        },
    }
    let mut es = entries;
    let ghost mut processed: Seq<(u32, crate::schema::MTypedValue)> = Seq::empty();
    proof {
        assert(processed + crate::engine::entries_model(es@) =~= m.entries);
    }
    while es.len() > 0
        invariant
            processed + crate::engine::entries_model(es@) =~= m.entries,
            crate::engine::entries_ok(crate::schema::SchemaId::Buildings, crate::engine::entries_model(es@)),
            r@.id == m.id->S_0,
            r@.name == crate::engine::last_str(processed, crate::schema::F_NAME, Seq::empty()),
            r@.planet_filters == crate::engine::last_filters(processed, crate::schema::F_PLANET_FILTERS),
            r@.initial == crate::engine::last_bool(processed, crate::schema::F_INITIAL, false),
            r@.unique == crate::engine::last_bool(processed, crate::schema::F_UNIQUE, false),
            r@.energy == crate::engine::last_dec(processed, crate::schema::F_ENERGY, crate::decimal::Decimal { mant: 0, scale: 0 }),
            r@.private_costs == crate::engine::last_dec(processed, crate::schema::F_PRIVATE_COSTS, crate::decimal::Decimal { mant: 0, scale: 0 }),
            r@.stations == crate::engine::last_stations(processed, crate::schema::F_STATIONS),
            r@.costs == crate::engine::last_cgoods(processed, crate::schema::F_COSTS),
            r@.consumes == crate::engine::last_cgoods(processed, crate::schema::F_CONSUMES),
            r@.upkeep == crate::engine::last_cgoods(processed, crate::schema::F_UPKEEP),
            r@.produces == crate::engine::last_cgoods(processed, crate::schema::F_PRODUCES),
            r@.housing == crate::engine::last_u64(processed, crate::schema::F_HOUSING, 0),
            r@.workers == crate::engine::last_u64(processed, crate::schema::F_WORKERS, 0),
            r@.private_sector == crate::engine::last_bool(processed, crate::schema::F_PRIVATE_SECTOR, false),
            r@.magnetosphere_equilibrium == (crate::building::MagnetosphereImpact { added_equilibrium: crate::engine::last_impact(processed, crate::schema::F_MAGNETOSPHERE_EQ).0, rate: crate::engine::last_impact(processed, crate::schema::F_MAGNETOSPHERE_EQ).1 }),
            r@.atmosphere_equilibrium == (crate::building::AtmosphereImpact { added_equilibrium: crate::engine::last_impact(processed, crate::schema::F_ATMOSPHERE_EQ).0, rate: crate::engine::last_impact(processed, crate::schema::F_ATMOSPHERE_EQ).1 }),
            r@.temperature_change == crate::engine::last_dec(processed, crate::schema::F_TEMPERATURE_CHANGE, crate::decimal::Decimal { mant: 0, scale: 0 }),
            r@.water_change == crate::engine::last_dec(processed, crate::schema::F_WATER_CHANGE, crate::decimal::Decimal { mant: 0, scale: 0 }),
            r@.breathable_change == crate::engine::last_dec(processed, crate::schema::F_BREATHABLE_CHANGE, crate::decimal::Decimal { mant: 0, scale: 0 }),
            r@.tech_needed == crate::engine::last_str_opt(processed, crate::schema::F_TECH_NEEDED),
            r@.upgrades_from == crate::engine::last_str_opt(processed, crate::schema::F_UPGRADES_FROM),
            r@.prosperity_per_job == crate::engine::last_dec(processed, crate::schema::F_PROSPERITY_PER_JOB, crate::decimal::Decimal { mant: 1, scale: 0 }),
        decreases es@.len(),
    {
        let ghost es_old = es@;
        let e = es.remove(0);
        let ghost em = (e.0, crate::schema::tv_model(e.1));
        proof {
            assert(es@ =~= es_old.drop_first());
            assert(crate::engine::entries_model(es_old) == seq![(es_old[0].0, crate::schema::tv_model(es_old[0].1))]
                + crate::engine::entries_model(es_old.drop_first()));
            assert(crate::engine::entries_model(es_old)[0] == em);
            assert(crate::engine::entry_wf(crate::schema::SchemaId::Buildings, em));
            lemma_building_entry(em);
            assert forall|j: int| 0 <= j < crate::engine::entries_model(es@).len() implies crate::engine::entry_wf(
                crate::schema::SchemaId::Buildings,
                #[trigger] crate::engine::entries_model(es@)[j],
            ) by {
                assert(crate::engine::entries_model(es@)[j] == crate::engine::entries_model(es_old)[j + 1]);
            }
            crate::engine::lemma_last_entry_push(processed, em, crate::schema::F_NAME);
            crate::engine::lemma_last_entry_push(processed, em, crate::schema::F_PLANET_FILTERS);
            crate::engine::lemma_last_entry_push(processed, em, crate::schema::F_INITIAL);
            crate::engine::lemma_last_entry_push(processed, em, crate::schema::F_UNIQUE);
            crate::engine::lemma_last_entry_push(processed, em, crate::schema::F_ENERGY);
            crate::engine::lemma_last_entry_push(processed, em, crate::schema::F_PRIVATE_COSTS);
            crate::engine::lemma_last_entry_push(processed, em, crate::schema::F_STATIONS);
            crate::engine::lemma_last_entry_push(processed, em, crate::schema::F_COSTS);
            crate::engine::lemma_last_entry_push(processed, em, crate::schema::F_CONSUMES);
            crate::engine::lemma_last_entry_push(processed, em, crate::schema::F_UPKEEP);
            crate::engine::lemma_last_entry_push(processed, em, crate::schema::F_PRODUCES);
            crate::engine::lemma_last_entry_push(processed, em, crate::schema::F_HOUSING);
            crate::engine::lemma_last_entry_push(processed, em, crate::schema::F_WORKERS);
            crate::engine::lemma_last_entry_push(processed, em, crate::schema::F_PRIVATE_SECTOR);
            crate::engine::lemma_last_entry_push(processed, em, crate::schema::F_MAGNETOSPHERE_EQ);
            crate::engine::lemma_last_entry_push(processed, em, crate::schema::F_ATMOSPHERE_EQ);
            crate::engine::lemma_last_entry_push(processed, em, crate::schema::F_TEMPERATURE_CHANGE);
            crate::engine::lemma_last_entry_push(processed, em, crate::schema::F_WATER_CHANGE);
            crate::engine::lemma_last_entry_push(processed, em, crate::schema::F_BREATHABLE_CHANGE);
            crate::engine::lemma_last_entry_push(processed, em, crate::schema::F_TECH_NEEDED);
            crate::engine::lemma_last_entry_push(processed, em, crate::schema::F_UPGRADES_FROM);
            crate::engine::lemma_last_entry_push(processed, em, crate::schema::F_PROSPERITY_PER_JOB);
            assert(processed.push(em) + crate::engine::entries_model(es@) =~= m.entries);
        }
        let (fid, tv) = e;
        if fid == crate::schema::F_NAME {
            match tv {
                crate::schema::TypedValue::TStr(s) => {
                    r.name = s;
                },
                _ => {
                    proof {
                        assert(false);
                    }
                },
            }
        } else if fid == crate::schema::F_PLANET_FILTERS {
            match tv {
                crate::schema::TypedValue::TFilters(s) => {
                    r.planet_filters = s;
                },
                _ => {
                    proof {
                        assert(false);
                    }
                },
            }
        } else if fid == crate::schema::F_INITIAL {
            match tv {
                crate::schema::TypedValue::TBool(s) => {
                    r.initial = s;
                },
                _ => {
                    proof {
                        assert(false);
                    }
                },
            }
        } else if fid == crate::schema::F_UNIQUE {
            match tv {
                crate::schema::TypedValue::TBool(s) => {
                    r.unique = s;
                },
                _ => {
                    proof {
                        assert(false);
                    }
                },
            }
        } else if fid == crate::schema::F_ENERGY {
            match tv {
                crate::schema::TypedValue::TDec(s) => {
                    r.energy = s;
                },
                _ => {
                    proof {
                        assert(false);
                    }
                },
            }
        } else if fid == crate::schema::F_PRIVATE_COSTS {
            match tv {
                crate::schema::TypedValue::TDec(s) => {
                    r.private_costs = s;
                },
                _ => {
                    proof {
                        assert(false);
                    }
                },
            }
        } else if fid == crate::schema::F_STATIONS {
            match tv {
                crate::schema::TypedValue::TStations(s) => {
                    r.stations = s;
                },
                _ => {
                    proof {
                        assert(false);
                    }
                },
            }
        } else if fid == crate::schema::F_COSTS {
            match tv {
                crate::schema::TypedValue::TCGoods(s) => {
                    r.costs = s;
                },
                _ => {
                    proof {
                        assert(false);
                    }
                },
            }
        } else if fid == crate::schema::F_CONSUMES {
            match tv {
                crate::schema::TypedValue::TCGoods(s) => {
                    r.consumes = s;
                },
                _ => {
                    proof {
                        assert(false);
                    }
                },
            }
        } else if fid == crate::schema::F_UPKEEP {
            match tv {
                crate::schema::TypedValue::TCGoods(s) => {
                    r.upkeep = s;
                },
                _ => {
                    proof {
                        assert(false);
                    }
                },
            }
        } else if fid == crate::schema::F_PRODUCES {
            match tv {
                crate::schema::TypedValue::TCGoods(s) => {
                    r.produces = s;
                },
                _ => {
                    proof {
                        assert(false);
                    }
                },
            }
        } else if fid == crate::schema::F_HOUSING {
            match tv {
                crate::schema::TypedValue::TU64(s) => {
                    r.housing = s;
                },
                _ => {
                    proof {
                        assert(false);
                    }
                },
            }
        } else if fid == crate::schema::F_WORKERS {
            match tv {
                crate::schema::TypedValue::TU64(s) => {
                    r.workers = s;
                },
                _ => {
                    proof {
                        assert(false);
                    }
                },
            }
        } else if fid == crate::schema::F_PRIVATE_SECTOR {
            match tv {
                crate::schema::TypedValue::TBool(s) => {
                    r.private_sector = s;
                },
                _ => {
                    proof {
                        assert(false);
                    }
                },
            }
        } else if fid == crate::schema::F_MAGNETOSPHERE_EQ {
            match tv {
                crate::schema::TypedValue::TImpact(a, b) => {
                    r.magnetosphere_equilibrium = crate::building::MagnetosphereImpact { added_equilibrium: a, rate: b };
                },
                _ => {
                    proof {
                        assert(false);
                    }
                },
            }
        } else if fid == crate::schema::F_ATMOSPHERE_EQ {
            match tv {
                crate::schema::TypedValue::TImpact(a, b) => {
                    r.atmosphere_equilibrium = crate::building::AtmosphereImpact { added_equilibrium: a, rate: b };
                },
                _ => {
                    proof {
                        assert(false);
                    }
                },
            }
        } else if fid == crate::schema::F_TEMPERATURE_CHANGE {
            match tv {
                crate::schema::TypedValue::TDec(s) => {
                    r.temperature_change = s;
                },
                _ => {
                    proof {
                        assert(false);
                    }
                },
            }
        } else if fid == crate::schema::F_WATER_CHANGE {
            match tv {
                crate::schema::TypedValue::TDec(s) => {
                    r.water_change = s;
                },
                _ => {
                    proof {
                        assert(false);
                    }
                },
            }
        } else if fid == crate::schema::F_BREATHABLE_CHANGE {
            match tv {
                crate::schema::TypedValue::TDec(s) => {
                    r.breathable_change = s;
                },
                _ => {
                    proof {
                        assert(false);
                    }
                },
            }
        } else if fid == crate::schema::F_TECH_NEEDED {
            match tv {
                crate::schema::TypedValue::TStr(s) => {
                    r.tech_needed = Some(s);
                },
                _ => {
                    proof {
                        assert(false);
                    }
                },
            }
        } else if fid == crate::schema::F_UPGRADES_FROM {
            match tv {
                crate::schema::TypedValue::TStr(s) => {
                    r.upgrades_from = Some(s);
                },
                _ => {
                    proof {
                        assert(false);
                    }
                },
            }
        } else {
            proof {
                assert(fid == crate::schema::F_PROSPERITY_PER_JOB);
            }
            match tv {
                crate::schema::TypedValue::TDec(s) => {
                    r.prosperity_per_job = s;
                },
                _ => {
                    proof {
                        assert(false);
                    }
                },
            }
        }
        proof {
            processed = processed.push(em);
        }
    }
    proof {
        assert(crate::engine::entries_model(es@) =~= Seq::<(u32, crate::schema::MTypedValue)>::empty());
        assert(processed =~= m.entries);
    }
    r
}

/// The typed records a section's record list denotes, in order.
pub open spec fn buildings_of(rs: Seq<crate::engine::MRec>) -> Seq<MBuildingData>
    decreases rs,
{
    if rs.len() == 0 {
        Seq::empty()
    } else {
        seq![building_of(rs[0])] + buildings_of(rs.drop_first())
    }
}

fn build_building_list(recs: Vec<crate::engine::Rec>) -> (r: Vec<BuildingData>)
    requires
        crate::engine::mrecs_wf(crate::schema::SchemaId::Buildings, crate::engine::recs_model(recs@)),
    ensures
        crate::common::seq_view(r@) == buildings_of(crate::engine::recs_model(recs@)),
    decreases recs@.len(),
{
    let mut recs = recs;
    if recs.len() == 0 {
        let r: Vec<BuildingData> = Vec::new();
        proof {
            assert(crate::common::seq_view(r@) =~= Seq::<MBuildingData>::empty());
        }
        return r;
    }
    let ghost rs0 = recs@;
    let first = recs.remove(0);
    proof {
        assert(recs@ =~= rs0.drop_first());
        assert(crate::engine::recs_model(rs0) == seq![crate::engine::rec_model(rs0[0])] + crate::engine::recs_model(rs0.drop_first()));
        assert(crate::engine::recs_model(rs0)[0] == crate::engine::rec_model(first));
        assert(crate::engine::recs_model(rs0).drop_first() =~= crate::engine::recs_model(recs@));
        assert(crate::engine::mrec_wf(crate::schema::SchemaId::Buildings, crate::engine::rec_model(first)));
        assert forall|j: int| 0 <= j < crate::engine::recs_model(recs@).len() implies crate::engine::mrec_wf(
            crate::schema::SchemaId::Buildings,
            #[trigger] crate::engine::recs_model(recs@)[j],
        ) by {
            assert(crate::engine::recs_model(recs@)[j] == crate::engine::recs_model(rs0)[j + 1]);
        }
    }
    let d = build_building(first);
    let mut rest = build_building_list(recs);
    let ghost r0 = rest@;
    rest.insert(0, d);
    proof {
        assert(rest@ =~= seq![rest@[0]] + r0);
        assert(crate::common::seq_view(rest@) =~= seq![rest@[0]@] + crate::common::seq_view(r0));
    }
    rest
}

impl BuildingData {
    /// Parses every record of a `#buildings` section body from its tokens.
    pub fn parse_tokens(toks: &Vec<crate::lexer::Tok>) -> (r: Result<Vec<BuildingData>, crate::diag::Diagnostic>)
        requires
            crate::lexer::mtoks_wf(crate::lexer::toks_model(toks@)),
        ensures
            match (r, crate::engine::spec_records(crate::schema::SchemaId::Buildings, crate::lexer::toks_model(toks@), 0)) {
                (Ok(ds), Ok(mrs)) => crate::common::seq_view(ds@) == buildings_of(mrs),
                (Err(d), Err(md)) => d@ == md,
                _ => false,
            },
    {
        match crate::engine::p_records(crate::schema::SchemaId::Buildings, toks, 0) {
            Ok(recs) => Ok(build_building_list(recs)),
            Err(d) => Err(d),
        }
    }
}

} // verus!

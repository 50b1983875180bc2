//! The planetary-designations schema.

use vstd::prelude::*;

use crate::building::{opt_str_view, MPlanetFilter, PlanetFilter};
use crate::common::seq_view;
use crate::decimal::Decimal;

verus! {

/// How many buildings a designated planet may raise.
#[derive(Clone, Copy, Debug, PartialEq, Eq, Structural, Default)]
pub enum BuildingLimit {
    #[default]
    Unlimited,
    Limited(u8),
}

/// Whether housing is managed for the player on this designation.
#[derive(Clone, Copy, Debug, PartialEq, Eq, Structural, Default)]
pub enum Housing {
    #[default]
    Managed,
    Unmanaged,
}

/// When the private sector may raise buildings here.
#[derive(Clone, Copy, Debug, PartialEq, Eq, Structural, Default)]
pub enum PrivateBuildings {
    #[default]
    Never,
    MinPopulation(u8),
    Always,
}

/// Population drift forced by the designation.
#[derive(Clone, Copy, Debug, PartialEq, Eq, Structural, Default)]
pub struct PopulationImpact {
    pub growth: Decimal,
    pub min_population: u8,
}

/// One planetary designation.
#[derive(Clone, Debug, PartialEq)]
pub struct DesignationData {
    pub id: String,
    pub name: String,
    pub description: String,
    pub building_limit: BuildingLimit,
    pub housing: Housing,
    pub population_impact: PopulationImpact,
    pub tech_required: Option<String>,
    pub planet_filters: Vec<PlanetFilter>,
    pub private_buildings: PrivateBuildings,
}

pub struct MDesignationData {
    pub id: Seq<char>,
    pub name: Seq<char>,
    pub description: Seq<char>,
    pub building_limit: BuildingLimit,
    pub housing: Housing,
    pub population_impact: PopulationImpact,
    pub tech_required: Option<Seq<char>>,
    pub planet_filters: Seq<MPlanetFilter>,
    pub private_buildings: PrivateBuildings,
}

impl View for DesignationData {
    type V = MDesignationData;

    open spec fn view(&self) -> MDesignationData {
        MDesignationData {
            id: self.id@,
            name: self.name@,
            description: self.description@,
            building_limit: self.building_limit,
            housing: self.housing,
            population_impact: self.population_impact,
            tech_required: opt_str_view(self.tech_required),
            planet_filters: seq_view(self.planet_filters@),
            private_buildings: self.private_buildings,
        }
    }
}

pub open spec fn designation_default() -> MDesignationData {
    MDesignationData {
        id: Seq::empty(),
        name: Seq::empty(),
        description: Seq::empty(),
        building_limit: BuildingLimit::Unlimited,
        housing: Housing::Managed,
        population_impact: PopulationImpact {
            growth: Decimal { mant: 0, scale: 0 },
            min_population: 0,
        },
        tech_required: None,
        planet_filters: Seq::empty(),
        private_buildings: PrivateBuildings::Never,
    }
}

impl Default for DesignationData {
    fn default() -> (r: DesignationData)
        ensures
            r@ == designation_default(),
    {
        let r = DesignationData {
            id: String::new(),
            name: String::new(),
            description: String::new(),
            building_limit: BuildingLimit::Unlimited,
            housing: Housing::Managed,
            population_impact: PopulationImpact { growth: Decimal::zero(), min_population: 0 },
            tech_required: None,
            planet_filters: Vec::new(),
            private_buildings: PrivateBuildings::Never,
        };
        proof {
            assert(r@.planet_filters =~= designation_default().planet_filters);
        }
        r
    }
}

/// The record an entry list denotes: each field holds the last occurrence
/// of its keyword, or the default.
pub open spec fn designation_of(m: crate::engine::MRec) -> MDesignationData {
    MDesignationData {
        id: m.id->S_0,
        name: crate::engine::last_str(m.entries, crate::schema::F_NAME, Seq::empty()),
        description: crate::engine::last_str(m.entries, crate::schema::F_DESCRIPTION, Seq::empty()),
        building_limit: crate::engine::last_blimit(m.entries, crate::schema::F_BUILDING_LIMIT),
        housing: crate::engine::last_housing(m.entries, crate::schema::F_HOUSING),
        population_impact: crate::engine::last_popimp(m.entries, crate::schema::F_POPULATION_IMPACT),
        tech_required: crate::engine::last_str_opt(m.entries, crate::schema::F_TECH_REQUIRED),
        planet_filters: crate::engine::last_filters(m.entries, crate::schema::F_PLANET_FILTERS),
        private_buildings: crate::engine::last_pbuild(m.entries, crate::schema::F_PRIVATE_BUILDINGS),
    }
}

proof fn lemma_designation_entry(e: (u32, crate::schema::MTypedValue))
    requires
        crate::engine::entry_wf(crate::schema::SchemaId::Designations, e),
    ensures
        (e.0 == crate::schema::F_NAME && e.1 is TStr) || (e.0 == crate::schema::F_DESCRIPTION && e.1 is TStr) || (e.0 == crate::schema::F_BUILDING_LIMIT && e.1 is TBLimit) || (e.0 == crate::schema::F_HOUSING && e.1 is THousing) || (e.0 == crate::schema::F_POPULATION_IMPACT && e.1 is TPopImp) || (e.0 == crate::schema::F_TECH_REQUIRED && e.1 is TStr) || (e.0 == crate::schema::F_PLANET_FILTERS && e.1 is TFilters) || (e.0 == crate::schema::F_PRIVATE_BUILDINGS && e.1 is TPBuild),
{
    reveal(crate::schema::field_of);
    let kw = choose|kw: Seq<char>|
        #![trigger crate::schema::field_of(crate::schema::SchemaId::Designations, kw)]
        match crate::schema::field_of(crate::schema::SchemaId::Designations, kw) {
            Some(p) => p.0 == e.0 && crate::engine::tv_matches(p.1, e.1),
            None => false,
        };
}

fn build_designation(rec: crate::engine::Rec) -> (r: DesignationData)
    requires
        crate::engine::mrec_wf(crate::schema::SchemaId::Designations, crate::engine::rec_model(rec)),
    ensures
        r@ == designation_of(crate::engine::rec_model(rec)),
{
    let ghost m = crate::engine::rec_model(rec);
    let mut r = DesignationData::default();
    let crate::engine::Rec { id, id_start, id_end, entries } = rec;
    match id {
        crate::engine::RecId::S(s) => {
            r.id = s;
        },
        crate::engine::RecId::N(_) => {
            proof {
                assert(false);
            }
        },
    }
    let mut es = entries;
    let ghost mut processed: Seq<(u32, crate::schema::MTypedValue)> = Seq::empty();
    proof {
        assert(processed + crate::engine::entries_model(es@) =~= m.entries);
    }
    while es.len() > 0
        invariant
            processed + crate::engine::entries_model(es@) =~= m.entries,
            crate::engine::entries_ok(crate::schema::SchemaId::Designations, crate::engine::entries_model(es@)),
            r@.id == m.id->S_0,
            r@.name == crate::engine::last_str(processed, crate::schema::F_NAME, Seq::empty()),
            r@.description == crate::engine::last_str(processed, crate::schema::F_DESCRIPTION, Seq::empty()),
            r@.building_limit == crate::engine::last_blimit(processed, crate::schema::F_BUILDING_LIMIT),
            r@.housing == crate::engine::last_housing(processed, crate::schema::F_HOUSING),
            r@.population_impact == crate::engine::last_popimp(processed, crate::schema::F_POPULATION_IMPACT),
            r@.tech_required == crate::engine::last_str_opt(processed, crate::schema::F_TECH_REQUIRED),
            r@.planet_filters == crate::engine::last_filters(processed, crate::schema::F_PLANET_FILTERS),
            r@.private_buildings == crate::engine::last_pbuild(processed, crate::schema::F_PRIVATE_BUILDINGS),
        decreases es@.len(),
    {
        let ghost es_old = es@;
        let e = es.remove(0);
        let ghost em = (e.0, crate::schema::tv_model(e.1));
        proof {
            assert(es@ =~= es_old.drop_first());
            assert(crate::engine::entries_model(es_old) == seq![(es_old[0].0, crate::schema::tv_model(es_old[0].1))]
                + crate::engine::entries_model(es_old.drop_first()));
            assert(crate::engine::entries_model(es_old)[0] == em);
            assert(crate::engine::entry_wf(crate::schema::SchemaId::Designations, em));
            lemma_designation_entry(em);
            assert forall|j: int| 0 <= j < crate::engine::entries_model(es@).len() implies crate::engine::entry_wf(
                crate::schema::SchemaId::Designations,
                #[trigger] crate::engine::entries_model(es@)[j],
            ) by {
                assert(crate::engine::entries_model(es@)[j] == crate::engine::entries_model(es_old)[j + 1]);
            }
            crate::engine::lemma_last_entry_push(processed, em, crate::schema::F_NAME);
            crate::engine::lemma_last_entry_push(processed, em, crate::schema::F_DESCRIPTION);
            crate::engine::lemma_last_entry_push(processed, em, crate::schema::F_BUILDING_LIMIT);
            crate::engine::lemma_last_entry_push(processed, em, crate::schema::F_HOUSING);
            crate::engine::lemma_last_entry_push(processed, em, crate::schema::F_POPULATION_IMPACT);
            crate::engine::lemma_last_entry_push(processed, em, crate::schema::F_TECH_REQUIRED);
            crate::engine::lemma_last_entry_push(processed, em, crate::schema::F_PLANET_FILTERS);
            crate::engine::lemma_last_entry_push(processed, em, crate::schema::F_PRIVATE_BUILDINGS);
            assert(processed.push(em) + crate::engine::entries_model(es@) =~= m.entries);
        }
        let (fid, tv) = e;
        if fid == crate::schema::F_NAME {
            match tv {
                crate::schema::TypedValue::TStr(s) => {
                    r.name = s;
                },
                _ => {
                    proof {
                        assert(false);
                    }
                },
            }
        } else if fid == crate::schema::F_DESCRIPTION {
            match tv {
                crate::schema::TypedValue::TStr(s) => {
                    r.description = s;
                },
                _ => {
                    proof {
                        assert(false);
                    }
                },
            }
        } else if fid == crate::schema::F_BUILDING_LIMIT {
            match tv {
                crate::schema::TypedValue::TBLimit(s) => {
                    r.building_limit = s;
                },
                _ => {
                    proof {
                        assert(false);
                    }
                },
            }
        } else if fid == crate::schema::F_HOUSING {
            match tv {
                crate::schema::TypedValue::THousing(s) => {
                    r.housing = s;
                },
                _ => {
                    proof {
                        assert(false);
                    }
                },
            }
        } else if fid == crate::schema::F_POPULATION_IMPACT {
            match tv {
                crate::schema::TypedValue::TPopImp(s) => {
                    r.population_impact = s;
                },
                _ => {
                    proof {
                        assert(false);
                    }
                },
            }
        } else if fid == crate::schema::F_TECH_REQUIRED {
            match tv {
                crate::schema::TypedValue::TStr(s) => {
                    r.tech_required = Some(s);
                },
                _ => {
                    proof {
                        assert(false);
                    }
                },
            }
        } else if fid == crate::schema::F_PLANET_FILTERS {
            match tv {
                crate::schema::TypedValue::TFilters(s) => {
                    r.planet_filters = s;
                },
                _ => {
                    proof {
                        assert(false);
                    }
                },
            }
        } else {
            proof {
                assert(fid == crate::schema::F_PRIVATE_BUILDINGS);
            }
            match tv {
                crate::schema::TypedValue::TPBuild(s) => {
                    r.private_buildings = s;
                },
                _ => {
                    proof {
                        assert(false);
                    }
                },
            }
        }
        proof {
            processed = processed.push(em);
        }
    }
    proof {
        assert(crate::engine::entries_model(es@) =~= Seq::<(u32, crate::schema::MTypedValue)>::empty());
        assert(processed =~= m.entries);
    }
    r
}

/// The typed records a section's record list denotes, in order.
pub open spec fn designations_of(rs: Seq<crate::engine::MRec>) -> Seq<MDesignationData>
    decreases rs,
{
    if rs.len() == 0 {
        Seq::empty()
    } else {
        seq![designation_of(rs[0])] + designations_of(rs.drop_first())
    }
}

fn build_designation_list(recs: Vec<crate::engine::Rec>) -> (r: Vec<DesignationData>)
    requires
        crate::engine::mrecs_wf(crate::schema::SchemaId::Designations, crate::engine::recs_model(recs@)),
    ensures
        crate::common::seq_view(r@) == designations_of(crate::engine::recs_model(recs@)),
    decreases recs@.len(),
{
    let mut recs = recs;
    if recs.len() == 0 {
        let r: Vec<DesignationData> = Vec::new();
        proof {
            assert(crate::common::seq_view(r@) =~= Seq::<MDesignationData>::empty());
        }
        return r;
    }
    let ghost rs0 = recs@;
    let first = recs.remove(0);
    proof {
        assert(recs@ =~= rs0.drop_first());
        assert(crate::engine::recs_model(rs0) == seq![crate::engine::rec_model(rs0[0])] + crate::engine::recs_model(rs0.drop_first()));
        assert(crate::engine::recs_model(rs0)[0] == crate::engine::rec_model(first));
        assert(crate::engine::recs_model(rs0).drop_first() =~= crate::engine::recs_model(recs@));
        assert(crate::engine::mrec_wf(crate::schema::SchemaId::Designations, crate::engine::rec_model(first)));
        assert forall|j: int| 0 <= j < crate::engine::recs_model(recs@).len() implies crate::engine::mrec_wf(
            crate::schema::SchemaId::Designations,
            #[trigger] crate::engine::recs_model(recs@)[j],
        ) by {
            assert(crate::engine::recs_model(recs@)[j] == crate::engine::recs_model(rs0)[j + 1]);
        }
    }
    let d = build_designation(first);
    let mut rest = build_designation_list(recs);
    let ghost r0 = rest@;
    rest.insert(0, d);
    proof {
        assert(rest@ =~= seq![rest@[0]] + r0);
        assert(crate::common::seq_view(rest@) =~= seq![rest@[0]@] + crate::common::seq_view(r0));
    }
    rest
}

impl DesignationData {
    /// Parses every record of a designations section body from its tokens.
    pub fn parse_tokens(toks: &Vec<crate::lexer::Tok>) -> (r: Result<Vec<DesignationData>, crate::diag::Diagnostic>)
        requires
            crate::lexer::mtoks_wf(crate::lexer::toks_model(toks@)),
        ensures
            match (r, crate::engine::spec_records(crate::schema::SchemaId::Designations, crate::lexer::toks_model(toks@), 0)) {
                (Ok(ds), Ok(mrs)) => crate::common::seq_view(ds@) == designations_of(mrs),
                (Err(d), Err(md)) => d@ == md,
                _ => false,
            },
    {
        match crate::engine::p_records(crate::schema::SchemaId::Designations, toks, 0) {
            Ok(recs) => Ok(build_designation_list(recs)),
            Err(d) => Err(d),
        }
    }
}

} // verus!

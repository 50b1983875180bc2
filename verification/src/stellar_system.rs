//! The stellar-systems schema: a star, its planets and their moons.

use vstd::prelude::*;

use crate::common::{seq_view, Temperature};
use crate::decimal::Decimal;

verus! {

/// The star of a system.
#[derive(Clone, Debug, PartialEq)]
pub struct StarData {
    pub name: String,
    pub asset_location: String,
    pub size: u16,
    pub temperature: Temperature,
    pub star_type: String,
}

pub struct MStarData {
    pub name: Seq<char>,
    pub asset_location: Seq<char>,
    pub size: u16,
    pub temperature: Temperature,
    pub star_type: Seq<char>,
}

impl View for StarData {
    type V = MStarData;

    open spec fn view(&self) -> MStarData {
        MStarData {
            name: self.name@,
            asset_location: self.asset_location@,
            size: self.size,
            temperature: self.temperature,
            star_type: self.star_type@,
        }
    }
}

pub open spec fn star_default() -> MStarData {
    MStarData {
        name: Seq::empty(),
        asset_location: Seq::empty(),
        size: 0,
        temperature: Temperature { kelvin_exact: Decimal { mant: 0, scale: 0 } },
        star_type: Seq::empty(),
    }
}

impl Default for StarData {
    fn default() -> (r: StarData)
        ensures
            r@ == star_default(),
    {
        StarData {
            name: String::new(),
            asset_location: String::new(),
            size: 0,
            temperature: Temperature { kelvin_exact: Decimal::zero() },
            star_type: String::new(),
        }
    }
}

/// A naturally occurring good deposit.
#[derive(Clone, Debug, PartialEq)]
pub struct NaturalResource {
    pub id: String,
    pub amount: Decimal,
}

pub struct MNaturalResource {
    pub id: Seq<char>,
    pub amount: Decimal,
}

impl View for NaturalResource {
    type V = MNaturalResource;

    open spec fn view(&self) -> MNaturalResource {
        MNaturalResource { id: self.id@, amount: self.amount }
    }
}

/// A moon of a planet.
#[derive(Clone, Debug, PartialEq)]
pub struct MoonData {
    pub name: String,
    pub asset_location: String,
    pub size: u16,
    pub planet_type: String,
    pub magnetosphere: Decimal,
    pub atmosphere: Decimal,
    pub temperature: Temperature,
    pub water: Decimal,
    pub breathability: Decimal,
    pub natural_resources: Vec<NaturalResource>,
}

pub struct MMoonData {
    pub name: Seq<char>,
    pub asset_location: Seq<char>,
    pub size: u16,
    pub planet_type: Seq<char>,
    pub magnetosphere: Decimal,
    pub atmosphere: Decimal,
    pub temperature: Temperature,
    pub water: Decimal,
    pub breathability: Decimal,
    pub natural_resources: Seq<MNaturalResource>,
}

impl View for MoonData {
    type V = MMoonData;

    open spec fn view(&self) -> MMoonData {
        MMoonData {
            name: self.name@,
            asset_location: self.asset_location@,
            size: self.size,
            planet_type: self.planet_type@,
            magnetosphere: self.magnetosphere,
            atmosphere: self.atmosphere,
            temperature: self.temperature,
            water: self.water,
            breathability: self.breathability,
            natural_resources: seq_view(self.natural_resources@),
        }
    }
}

pub open spec fn moon_default() -> MMoonData {
    MMoonData {
        name: Seq::empty(),
        asset_location: Seq::empty(),
        size: 0,
        planet_type: Seq::empty(),
        magnetosphere: Decimal { mant: 0, scale: 0 },
        atmosphere: Decimal { mant: 0, scale: 0 },
        temperature: Temperature { kelvin_exact: Decimal { mant: 0, scale: 0 } },
        water: Decimal { mant: 0, scale: 0 },
        breathability: Decimal { mant: 0, scale: 0 },
        natural_resources: Seq::empty(),
    }
}

impl Default for MoonData {
    fn default() -> (r: MoonData)
        ensures
            r@ == moon_default(),
    {
        let r = MoonData {
            name: String::new(),
            asset_location: String::new(),
            size: 0,
            planet_type: String::new(),
            magnetosphere: Decimal::zero(),
            atmosphere: Decimal::zero(),
            temperature: Temperature { kelvin_exact: Decimal::zero() },
            water: Decimal::zero(),
            breathability: Decimal::zero(),
            natural_resources: Vec::new(),
        };
        proof {
            assert(r@.natural_resources =~= moon_default().natural_resources);
        }
        r
    }
}

/// A planet, with its environment and moons.
#[derive(Clone, Debug, PartialEq)]
pub struct PlanetData {
    pub name: String,
    pub asset_location: String,
    pub size: u16,
    pub planet_type: String,
    pub magnetosphere: Decimal,
    pub atmosphere: Decimal,
    pub temperature: Temperature,
    pub water: Decimal,
    pub breathability: Decimal,
    pub natural_resources: Vec<NaturalResource>,
    pub ring: bool,
    pub moons: Vec<MoonData>,
}

pub struct MPlanetData {
    pub name: Seq<char>,
    pub asset_location: Seq<char>,
    pub size: u16,
    pub planet_type: Seq<char>,
    pub magnetosphere: Decimal,
    pub atmosphere: Decimal,
    pub temperature: Temperature,
    pub water: Decimal,
    pub breathability: Decimal,
    pub natural_resources: Seq<MNaturalResource>,
    pub ring: bool,
    pub moons: Seq<MMoonData>,
}

impl View for PlanetData {
    type V = MPlanetData;

    open spec fn view(&self) -> MPlanetData {
        MPlanetData {
            name: self.name@,
            asset_location: self.asset_location@,
            size: self.size,
            planet_type: self.planet_type@,
            magnetosphere: self.magnetosphere,
            atmosphere: self.atmosphere,
            temperature: self.temperature,
            water: self.water,
            breathability: self.breathability,
            natural_resources: seq_view(self.natural_resources@),
            ring: self.ring,
            moons: seq_view(self.moons@),
        }
    }
}

/// A new planet record starts at size ten.
pub open spec fn planet_default() -> MPlanetData {
    MPlanetData {
        name: Seq::empty(),
        asset_location: Seq::empty(),
        size: 10,
        planet_type: Seq::empty(),
        magnetosphere: Decimal { mant: 0, scale: 0 },
        atmosphere: Decimal { mant: 0, scale: 0 },
        temperature: Temperature { kelvin_exact: Decimal { mant: 0, scale: 0 } },
        water: Decimal { mant: 0, scale: 0 },
        breathability: Decimal { mant: 0, scale: 0 },
        natural_resources: Seq::empty(),
        ring: false,
        moons: Seq::empty(),
    }
}

impl Default for PlanetData {
    fn default() -> (r: PlanetData)
        ensures
            r@ == planet_default(),
    {
        let r = PlanetData {
            name: String::new(),
            asset_location: String::new(),
            size: 10,
            planet_type: String::new(),
            magnetosphere: Decimal::zero(),
            atmosphere: Decimal::zero(),
            temperature: Temperature { kelvin_exact: Decimal::zero() },
            water: Decimal::zero(),
            breathability: Decimal::zero(),
            natural_resources: Vec::new(),
            ring: false,
            moons: Vec::new(),
        };
        proof {
            assert(r@.natural_resources =~= planet_default().natural_resources);
            assert(r@.moons =~= planet_default().moons);
        }
        r
    }
}

/// Something orbiting the star: one planet, or a belt of dwarf planets.
#[derive(Clone, Debug, PartialEq)]
pub enum StellarObject {
    PlanetData(PlanetData),
    AsteroidBelt(Vec<PlanetData>),
}

pub enum MStellarObject {
    PlanetData(MPlanetData),
    AsteroidBelt(Seq<MPlanetData>),
}

impl View for StellarObject {
    type V = MStellarObject;

    open spec fn view(&self) -> MStellarObject {
        match self {
            StellarObject::PlanetData(p) => MStellarObject::PlanetData(p@),
            StellarObject::AsteroidBelt(ps) => MStellarObject::AsteroidBelt(seq_view(ps@)),
        }
    }
}

/// One stellar system.
#[derive(Clone, Debug, PartialEq)]
pub struct StellarData {
    pub id: u16,
    pub star_data: StarData,
    pub orbiting: Vec<StellarObject>,
    pub surveyed: bool,
}

pub struct MStellarData {
    pub id: u16,
    pub star_data: MStarData,
    pub orbiting: Seq<MStellarObject>,
    pub surveyed: bool,
}

impl View for StellarData {
    type V = MStellarData;

    open spec fn view(&self) -> MStellarData {
        MStellarData {
            id: self.id,
            star_data: self.star_data@,
            orbiting: seq_view(self.orbiting@),
            surveyed: self.surveyed,
        }
    }
}

pub open spec fn stellar_default() -> MStellarData {
    MStellarData { id: 0, star_data: star_default(), orbiting: Seq::empty(), surveyed: false }
}

impl Default for StellarData {
    fn default() -> (r: StellarData)
        ensures
            r@ == stellar_default(),
    {
        let r = StellarData {
            id: 0,
            star_data: StarData::default(),
            orbiting: Vec::new(),
            surveyed: false,
        };
        proof {
            assert(r@.orbiting =~= stellar_default().orbiting);
        }
        r
    }
}

/// The orbiting objects an entry list denotes: the planets in order, then
/// one asteroid belt when that field was written.
pub open spec fn orbiting_of(es: Seq<(u32, crate::schema::MTypedValue)>) -> Seq<MStellarObject> {
    crate::engine::last_planets(es, crate::schema::F_PLANET_DATA).map_values(
        |p: MPlanetData| MStellarObject::PlanetData(p),
    ) + if crate::engine::has_entry(es, crate::schema::F_ASTEROID_BELT) {
        seq![
            MStellarObject::AsteroidBelt(
                crate::engine::last_planets(es, crate::schema::F_ASTEROID_BELT),
            ),
        ]
    } else {
        Seq::empty()
    }
}

/// The record an entry list denotes: each field holds the last occurrence
/// of its keyword, or the default.
pub open spec fn stellar_of(m: crate::engine::MRec) -> Result<MStellarData, crate::diag::MDiag> {
    if m.id->N_0 <= 65535 {
        Ok(MStellarData {
            id: m.id->N_0 as u16,
            star_data: crate::engine::last_star(m.entries, crate::schema::F_STAR_DATA),
            orbiting: orbiting_of(m.entries),
            surveyed: crate::engine::last_bool(m.entries, crate::schema::F_SURVEYED, false),
        })
    } else {
        Err(crate::diag::MDiag {
            kind: crate::diag::DiagKind::OutOfRange,
            start: m.id_start,
            end: m.id_end,
            expected: seq!["integer 0..=65535"@],
            found: "integer"@,
        })
    }
}

proof fn lemma_stellar_entry(e: (u32, crate::schema::MTypedValue))
    requires
        crate::engine::entry_wf(crate::schema::SchemaId::StellarSystems, e),
    ensures
        (e.0 == crate::schema::F_STAR_DATA && e.1 is TStar) || (e.0 == crate::schema::F_PLANET_DATA
            && e.1 is TPlanets) || (e.0 == crate::schema::F_ASTEROID_BELT && e.1 is TPlanets) || (
        e.0 == crate::schema::F_SURVEYED && e.1 is TBool),
{
    reveal(crate::schema::field_of);
    let kw = choose|kw: Seq<char>|
        #![trigger crate::schema::field_of(crate::schema::SchemaId::StellarSystems, kw)]
        match crate::schema::field_of(crate::schema::SchemaId::StellarSystems, kw) {
            Some(p) => p.0 == e.0 && crate::engine::tv_matches(p.1, e.1),
            None => false,
        };
}

#[verifier::rlimit(50)]
fn build_stellar(rec: crate::engine::Rec) -> (r: Result<StellarData, crate::diag::Diagnostic>)
    requires
        crate::engine::mrec_wf(crate::schema::SchemaId::StellarSystems, crate::engine::rec_model(rec)),
    ensures
        match (r, stellar_of(crate::engine::rec_model(rec))) {
            (Ok(d), Ok(md)) => d@ == md,
            (Err(d), Err(md)) => d@ == md,
            _ => false,
        },
{
    let ghost m = crate::engine::rec_model(rec);
    let mut r = StellarData::default();
    let crate::engine::Rec { id, id_start, id_end, entries } = rec;
    match id {
        crate::engine::RecId::N(x) => {
            if x <= 65535 {
                r.id = x as u16;
            } else {
                let mut exp: Vec<String> = Vec::new();
                exp.push(String::from_str("integer 0..=65535"));
                let d = crate::diag::Diagnostic {
                    kind: crate::diag::DiagKind::OutOfRange,
                    start: id_start,
                    end: id_end,
                    expected: exp,
                    found: String::from_str("integer"),
                };
                proof {
                    assert(d@.expected =~= seq!["integer 0..=65535"@]);
                }
                return Err(d);
            }
        },
        crate::engine::RecId::S(_) => {
            proof {
                assert(false);
            }
        },
    }
    let mut planets: Vec<PlanetData> = Vec::new();
    let mut belt: Option<Vec<PlanetData>> = None;
    let mut es = entries;
    let ghost mut processed: Seq<(u32, crate::schema::MTypedValue)> = Seq::empty();
    proof {
        assert(processed + crate::engine::entries_model(es@) =~= m.entries);
        assert(crate::common::seq_view(planets@) =~= Seq::<MPlanetData>::empty());
    }
    while es.len() > 0
        invariant
            processed + crate::engine::entries_model(es@) =~= m.entries,
            crate::engine::entries_ok(
                crate::schema::SchemaId::StellarSystems,
                crate::engine::entries_model(es@),
            ),
            r@.id == m.id->N_0 as u16,
            r@.star_data == crate::engine::last_star(processed, crate::schema::F_STAR_DATA),
            r@.surveyed == crate::engine::last_bool(processed, crate::schema::F_SURVEYED, false),
            crate::common::seq_view(planets@) == crate::engine::last_planets(
                processed,
                crate::schema::F_PLANET_DATA,
            ),
            match belt {
                Some(b) => crate::engine::has_entry(processed, crate::schema::F_ASTEROID_BELT)
                    && crate::common::seq_view(b@) == crate::engine::last_planets(
                    processed,
                    crate::schema::F_ASTEROID_BELT,
                ),
                None => !crate::engine::has_entry(processed, crate::schema::F_ASTEROID_BELT),
            },
        decreases es@.len(),
    {
        let ghost es_old = es@;
        let e = es.remove(0);
        let ghost em = (e.0, crate::schema::tv_model(e.1));
        proof {
            assert(es@ =~= es_old.drop_first());
            assert(crate::engine::entries_model(es_old) == seq![
                (es_old[0].0, crate::schema::tv_model(es_old[0].1)),
            ] + crate::engine::entries_model(es_old.drop_first()));
            assert(crate::engine::entries_model(es_old)[0] == em);
            assert(crate::engine::entry_wf(crate::schema::SchemaId::StellarSystems, em));
            lemma_stellar_entry(em);
            assert forall|j: int|
                0 <= j < crate::engine::entries_model(es@).len() implies crate::engine::entry_wf(
                crate::schema::SchemaId::StellarSystems,
                #[trigger] crate::engine::entries_model(es@)[j],
            ) by {
                assert(crate::engine::entries_model(es@)[j] == crate::engine::entries_model(
                    es_old,
                )[j + 1]);
            }
            crate::engine::lemma_last_entry_push(processed, em, crate::schema::F_STAR_DATA);
            crate::engine::lemma_last_entry_push(processed, em, crate::schema::F_PLANET_DATA);
            crate::engine::lemma_last_entry_push(processed, em, crate::schema::F_ASTEROID_BELT);
            crate::engine::lemma_last_entry_push(processed, em, crate::schema::F_SURVEYED);
            assert(processed.push(em) + crate::engine::entries_model(es@) =~= m.entries);
        }
        let (fid, tv) = e;
        if fid == crate::schema::F_STAR_DATA {
            match tv {
                crate::schema::TypedValue::TStar(s) => {
                    r.star_data = s;
                },
                _ => {
                    proof {
                        assert(false);
                    }
                },
            }
        } else if fid == crate::schema::F_PLANET_DATA {
            match tv {
                crate::schema::TypedValue::TPlanets(ps) => {
                    planets = ps;
                },
                _ => {
                    proof {
                        assert(false);
                    }
                },
            }
        } else if fid == crate::schema::F_ASTEROID_BELT {
            match tv {
                crate::schema::TypedValue::TPlanets(ps) => {
                    belt = Some(ps);
                },
                _ => {
                    proof {
                        assert(false);
                    }
                },
            }
        } else {
            proof {
                assert(fid == crate::schema::F_SURVEYED);
            }
            match tv {
                crate::schema::TypedValue::TBool(b) => {
                    r.surveyed = b;
                },
                _ => {
                    proof {
                        assert(false);
                    }
                },
            }
        }
        proof {
            processed = processed.push(em);
        }
    }
    proof {
        assert(crate::engine::entries_model(es@) =~= Seq::<
            (u32, crate::schema::MTypedValue),
        >::empty());
        assert(processed =~= m.entries);
    }
    let ghost mp = crate::engine::last_planets(m.entries, crate::schema::F_PLANET_DATA).map_values(
        |p: MPlanetData| MStellarObject::PlanetData(p),
    );
    let ghost ps0 = crate::common::seq_view(planets@);
    let mut orbiting: Vec<StellarObject> = Vec::new();
    let n = planets.len();
    let mut i: usize = 0;
    proof {
        assert(crate::common::seq_view(orbiting@) =~= mp.take(0));
        assert(crate::common::seq_view(planets@) =~= ps0.skip(0));
    }
    while i < n
        invariant
            i <= n,
            n == ps0.len(),
            planets@.len() + i == n,
            mp == ps0.map_values(|p: MPlanetData| MStellarObject::PlanetData(p)),
            crate::common::seq_view(planets@) =~= ps0.skip(i as int),
            crate::common::seq_view(orbiting@) =~= mp.take(i as int),
        decreases n - i,
    {
        let ghost pv = planets@;
        proof {
            assert(crate::common::seq_view(pv).len() == pv.len());
        }
        let p = planets.remove(0);
        proof {
            assert(crate::common::seq_view(pv)[0] == pv[0]@);
            assert(planets@ =~= pv.drop_first());
            assert(crate::common::seq_view(pv)[0] == p@);
            assert(crate::common::seq_view(pv)[0] == ps0[i as int]);
            assert(crate::common::seq_view(planets@) =~= crate::common::seq_view(pv).drop_first());
            assert(crate::common::seq_view(pv).drop_first() =~= ps0.skip(i as int).drop_first());
            assert(ps0.skip(i as int).drop_first() =~= ps0.skip(i + 1));
            assert(mp[i as int] == MStellarObject::PlanetData(ps0[i as int]));
        }
        let ghost o0 = crate::common::seq_view(orbiting@);
        orbiting.push(StellarObject::PlanetData(p));
        proof {
            assert(crate::common::seq_view(orbiting@) =~= o0.push(mp[i as int]));
            assert(mp.take(i + 1) =~= mp.take(i as int).push(mp[i as int]));
        }
        i += 1;
    }
    proof {
        assert(mp.take(n as int) =~= mp);
    }
    match belt {
        Some(b) => {
            let ghost o0 = crate::common::seq_view(orbiting@);
            let ghost bm = crate::common::seq_view(b@);
            orbiting.push(StellarObject::AsteroidBelt(b));
            proof {
                assert(crate::common::seq_view(orbiting@) =~= o0.push(
                    MStellarObject::AsteroidBelt(bm),
                ));
                assert(crate::common::seq_view(orbiting@) =~= orbiting_of(m.entries));
            }
        },
        None => {
            proof {
                assert(crate::common::seq_view(orbiting@) + Seq::<MStellarObject>::empty()
                    =~= crate::common::seq_view(orbiting@));
                assert(crate::common::seq_view(orbiting@) =~= orbiting_of(m.entries));
            }
        },
    }
    r.orbiting = orbiting;
    Ok(r)
}

/// The typed records a section's record list denotes, in order.
pub open spec fn stellars_of(rs: Seq<crate::engine::MRec>) -> Result<
    Seq<MStellarData>,
    crate::diag::MDiag,
>
    decreases rs,
{
    if rs.len() == 0 {
        Ok(Seq::empty())
    } else {
        match stellar_of(rs[0]) {
            Ok(d) => match stellars_of(rs.drop_first()) {
                Ok(ds) => Ok(seq![d] + ds),
                Err(e) => Err(e),
            },
            Err(e) => Err(e),
        }
    }
}

fn build_stellar_list(recs: Vec<crate::engine::Rec>) -> (r: Result<
    Vec<StellarData>,
    crate::diag::Diagnostic,
>)
    requires
        crate::engine::mrecs_wf(crate::schema::SchemaId::StellarSystems, crate::engine::recs_model(recs@)),
    ensures
        match (r, stellars_of(crate::engine::recs_model(recs@))) {
            (Ok(ds), Ok(mds)) => crate::common::seq_view(ds@) == mds,
            (Err(d), Err(md)) => d@ == md,
            _ => false,
        },
    decreases recs@.len(),
{
    let mut recs = recs;
    if recs.len() == 0 {
        let r: Vec<StellarData> = Vec::new();
        proof {
            assert(crate::common::seq_view(r@) =~= Seq::<MStellarData>::empty());
        }
        return Ok(r);
    }
    let ghost rs0 = recs@;
    let first = recs.remove(0);
    proof {
        assert(recs@ =~= rs0.drop_first());
        assert(crate::engine::recs_model(rs0) == seq![crate::engine::rec_model(rs0[0])]
            + crate::engine::recs_model(rs0.drop_first()));
        assert(crate::engine::recs_model(rs0)[0] == crate::engine::rec_model(first));
        assert(crate::engine::recs_model(rs0).drop_first() =~= crate::engine::recs_model(recs@));
        assert(crate::engine::mrec_wf(
            crate::schema::SchemaId::StellarSystems,
            crate::engine::rec_model(first),
        ));
        assert forall|j: int|
            0 <= j < crate::engine::recs_model(recs@).len() implies crate::engine::mrec_wf(
            crate::schema::SchemaId::StellarSystems,
            #[trigger] crate::engine::recs_model(recs@)[j],
        ) by {
            assert(crate::engine::recs_model(recs@)[j] == crate::engine::recs_model(rs0)[j + 1]);
        }
    }
    match build_stellar(first) {
        Ok(d) => {
            match build_stellar_list(recs) {
                Ok(mut rest) => {
                    let ghost r0 = rest@;
                    rest.insert(0, d);
                    proof {
                        assert(rest@ =~= seq![rest@[0]] + r0);
                        assert(crate::common::seq_view(rest@) =~= seq![rest@[0]@]
                            + crate::common::seq_view(r0));
                    }
                    Ok(rest)
                },
                Err(d2) => Err(d2),
            }
        },
        Err(d2) => Err(d2),
    }
}

impl StellarData {
    /// Parses every record of a stellar-system body from its tokens.
    pub fn parse_tokens(toks: &Vec<crate::lexer::Tok>) -> (r: Result<
        Vec<StellarData>,
        crate::diag::Diagnostic,
    >)
        requires
            crate::lexer::mtoks_wf(crate::lexer::toks_model(toks@)),
        ensures
            match (r, crate::engine::spec_records(
                crate::schema::SchemaId::StellarSystems,
                crate::lexer::toks_model(toks@),
                0,
            )) {
                (Ok(ds), Ok(mrs)) => match stellars_of(mrs) {
                    Ok(mds) => crate::common::seq_view(ds@) == mds,
                    Err(_) => false,
                },
                (Err(d), Ok(mrs)) => match stellars_of(mrs) {
                    Ok(_) => false,
                    Err(md) => d@ == md,
                },
                (Err(d), Err(md)) => d@ == md,
                _ => false,
            },
    {
        match crate::engine::p_records(crate::schema::SchemaId::StellarSystems, toks, 0) {
            Ok(recs) => build_stellar_list(recs),
            Err(d) => Err(d),
        }
    }
}

} // verus!

//! Parser for the content-catalogue data language of a space-strategy game.
//!
//! A document holds `#marker` sections; each section's body is a list of
//! records in a uniform `id { field = value ... }` grammar, parsed against a
//! per-schema field table into strongly typed records.  The planet-type
//! schema embeds a small conditional rule language whose clauses are parsed
//! into an owned tree.  Every failure is returned as a typed diagnostic, so
//! one malformed document never stops the rest of a corpus.  All offsets in
//! spans and diagnostics count Unicode characters from the start of the
//! text they refer to.

use vstd::prelude::*;

pub mod asteroid_mining;
pub mod augmentations;
pub mod building;
pub mod common;
pub mod decimal;
pub mod designation;
pub mod diag;
pub mod engine;
pub mod goods;
pub mod lexer;
pub mod orbital;
pub mod planet_types;
pub mod ranks;
pub mod raw;
pub mod rules;
pub mod ship;
pub mod schema;
pub mod shipyard;
pub mod split;
pub mod shipyard_buildings;
pub mod species_trait;
pub mod stapledon_swarm;
pub mod stellar_system;
pub mod tech;
pub mod text;
pub mod tooltips;

use crate::diag::{clamp_at, DiagKind, Diagnostic, MDiag};
use crate::schema::SchemaId;
use crate::split::{secs_model, spec_split, MSection, RawSection};

verus! {

/// The schema a section marker names.
pub open spec fn marker_sid(name: Seq<char>) -> Option<SchemaId> {
    if name == "buildings"@ {
        Some(SchemaId::Buildings)
    } else if name == "goods"@ {
        Some(SchemaId::Goods)
    } else if name == "tech"@ {
        Some(SchemaId::Techs)
    } else if name == "planet_types"@ {
        Some(SchemaId::PlanetTypes)
    } else if name == "specie_traits"@ {
        Some(SchemaId::SpecieTraits)
    } else if name == "augmentations"@ {
        Some(SchemaId::Augmentations)
    } else if name == "shipyard"@ {
        Some(SchemaId::Shipyards)
    } else if name == "asteroid_mining"@ {
        Some(SchemaId::AsteroidMining)
    } else if name == "orbital"@ {
        Some(SchemaId::Orbitals)
    } else if name == "stapledon_swarm"@ {
        Some(SchemaId::StapledonSwarms)
    } else {
        None
    }
}

/// The markers a document may use.
pub open spec fn markers() -> Seq<Seq<char>> {
    seq![
        "buildings"@,
        "goods"@,
        "tech"@,
        "planet_types"@,
        "specie_traits"@,
        "augmentations"@,
        "shipyard"@,
        "asteroid_mining"@,
        "orbital"@,
        "stapledon_swarm"@,
    ]
}

fn marker_lookup(name: &String) -> (r: Option<SchemaId>)
    ensures
        r == marker_sid(name@),
{
    if crate::text::string_is(name, "buildings") {
        Some(SchemaId::Buildings)
    } else if crate::text::string_is(name, "goods") {
        Some(SchemaId::Goods)
    } else if crate::text::string_is(name, "tech") {
        Some(SchemaId::Techs)
    } else if crate::text::string_is(name, "planet_types") {
        Some(SchemaId::PlanetTypes)
    } else if crate::text::string_is(name, "specie_traits") {
        Some(SchemaId::SpecieTraits)
    } else if crate::text::string_is(name, "augmentations") {
        Some(SchemaId::Augmentations)
    } else if crate::text::string_is(name, "shipyard") {
        Some(SchemaId::Shipyards)
    } else if crate::text::string_is(name, "asteroid_mining") {
        Some(SchemaId::AsteroidMining)
    } else if crate::text::string_is(name, "orbital") {
        Some(SchemaId::Orbitals)
    } else if crate::text::string_is(name, "stapledon_swarm") {
        Some(SchemaId::StapledonSwarms)
    } else {
        None
    }
}

fn markers_vec() -> (r: Vec<String>)
    ensures
        r.deep_view() =~= markers(),
{
    let mut v: Vec<String> = Vec::new();
    v.push(String::from_str("buildings"));
    v.push(String::from_str("goods"));
    v.push(String::from_str("tech"));
    v.push(String::from_str("planet_types"));
    v.push(String::from_str("specie_traits"));
    v.push(String::from_str("augmentations"));
    v.push(String::from_str("shipyard"));
    v.push(String::from_str("asteroid_mining"));
    v.push(String::from_str("orbital"));
    v.push(String::from_str("stapledon_swarm"));
    proof {
        assert(v.deep_view() =~= markers());
    }
    v
}

/// The diagnostic of an unrecognized section marker: its span covers
/// exactly the marker text, `#` included.
pub open spec fn m_unknown_section(sec: MSection) -> MDiag {
    MDiag {
        kind: DiagKind::UnknownSection,
        start: sec.start,
        end: sec.name_end,
        expected: markers(),
        found: sec.name,
    }
}

fn unknown_section_diag(sec: &RawSection) -> (r: Diagnostic)
    ensures
        r@ == m_unknown_section(sec@),
{
    Diagnostic {
        kind: DiagKind::UnknownSection,
        start: sec.start,
        end: sec.name_end,
        expected: markers_vec(),
        found: sec.name.clone(),
    }
}

/// One recognized section and its verbatim body.
#[derive(Debug, PartialEq)]
pub enum Section {
    AsteroidMining(String),
    Augmentations(String),
    Buildings(String),
    Goods(String),
    Orbital(String),
    PlanetTypes(String),
    SpecieTraits(String),
    Shipyard(String),
    Stapledon(String),
    Tech(String),
}

pub enum MSectionBody {
    AsteroidMining(Seq<char>),
    Augmentations(Seq<char>),
    Buildings(Seq<char>),
    Goods(Seq<char>),
    Orbital(Seq<char>),
    PlanetTypes(Seq<char>),
    SpecieTraits(Seq<char>),
    Shipyard(Seq<char>),
    Stapledon(Seq<char>),
    Tech(Seq<char>),
}

impl View for Section {
    type V = MSectionBody;

    open spec fn view(&self) -> MSectionBody {
        match self {
            Section::AsteroidMining(s) => MSectionBody::AsteroidMining(s@),
            Section::Augmentations(s) => MSectionBody::Augmentations(s@),
            Section::Buildings(s) => MSectionBody::Buildings(s@),
            Section::Goods(s) => MSectionBody::Goods(s@),
            Section::Orbital(s) => MSectionBody::Orbital(s@),
            Section::PlanetTypes(s) => MSectionBody::PlanetTypes(s@),
            Section::SpecieTraits(s) => MSectionBody::SpecieTraits(s@),
            Section::Shipyard(s) => MSectionBody::Shipyard(s@),
            Section::Stapledon(s) => MSectionBody::Stapledon(s@),
            Section::Tech(s) => MSectionBody::Tech(s@),
        }
    }
}

/// The typed section a raw section denotes.
pub open spec fn typed_section(sid: SchemaId, body: Seq<char>) -> MSectionBody {
    match sid {
        SchemaId::AsteroidMining => MSectionBody::AsteroidMining(body),
        SchemaId::Augmentations => MSectionBody::Augmentations(body),
        SchemaId::Buildings => MSectionBody::Buildings(body),
        SchemaId::Goods => MSectionBody::Goods(body),
        SchemaId::Orbitals => MSectionBody::Orbital(body),
        SchemaId::PlanetTypes => MSectionBody::PlanetTypes(body),
        SchemaId::SpecieTraits => MSectionBody::SpecieTraits(body),
        SchemaId::Shipyards => MSectionBody::Shipyard(body),
        SchemaId::StapledonSwarms => MSectionBody::Stapledon(body),
        _ => MSectionBody::Tech(body),
    }
}

/// The typed sections of a document: every marker resolved through the
/// registry, the first unknown one failing with its exact span.
pub open spec fn spec_sections_typed(secs: Seq<MSection>) -> Result<Seq<MSectionBody>, MDiag>
    decreases secs,
{
    if secs.len() == 0 {
        Ok(Seq::empty())
    } else {
        match marker_sid(secs[0].name) {
            None => Err(m_unknown_section(secs[0])),
            Some(sid) => match spec_sections_typed(secs.drop_first()) {
                Ok(rest) => Ok(seq![typed_section(sid, secs[0].body)] + rest),
                Err(d) => Err(d),
            },
        }
    }
}

fn make_section(sid: SchemaId, body: String) -> (r: Section)
    ensures
        r@ == typed_section(sid, body@),
{
    match sid {
        SchemaId::AsteroidMining => Section::AsteroidMining(body),
        SchemaId::Augmentations => Section::Augmentations(body),
        SchemaId::Buildings => Section::Buildings(body),
        SchemaId::Goods => Section::Goods(body),
        SchemaId::Orbitals => Section::Orbital(body),
        SchemaId::PlanetTypes => Section::PlanetTypes(body),
        SchemaId::SpecieTraits => Section::SpecieTraits(body),
        SchemaId::Shipyards => Section::Shipyard(body),
        SchemaId::StapledonSwarms => Section::Stapledon(body),
        _ => Section::Tech(body),
    }
}

/// Splits a document into its recognized sections; an unknown marker fails
/// with a diagnostic whose span covers exactly the marker text.
pub fn split_document(contents: &str) -> (r: Result<Vec<Section>, Diagnostic>)
    ensures
        match (r, spec_split(contents@)) {
            (Ok(ss), Ok(mss)) => match spec_sections_typed(mss) {
                Ok(mt) => common::seq_view(ss@) == mt,
                Err(_) => false,
            },
            (Err(d), Ok(mss)) => match spec_sections_typed(mss) {
                Ok(_) => false,
                Err(md) => d@ == md,
            },
            (Err(d), Err(md)) => d@ == md,
            _ => false,
        },
{
    match split::split(contents) {
        Err(d) => Err(d),
        Ok(raws) => match sections_typed(raws) {
            Ok(out) => Ok(out),
            Err(d) => Err(d),
        },
    }
}

fn sections_typed(raws: Vec<RawSection>) -> (r: Result<Vec<Section>, Diagnostic>)
    ensures
        match (r, spec_sections_typed(secs_model(raws@))) {
            (Ok(ss), Ok(mt)) => common::seq_view(ss@) == mt,
            (Err(d), Err(md)) => d@ == md,
            _ => false,
        },
    decreases raws@.len(),
{
    let mut raws = raws;
    if raws.len() == 0 {
        let out: Vec<Section> = Vec::new();
        proof {
            assert(common::seq_view(out@) =~= Seq::<MSectionBody>::empty());
        }
        return Ok(out);
    }
    let ghost rs0 = secs_model(raws@);
    let sec = raws.remove(0);
    proof {
        assert(secs_model(raws@) =~= rs0.drop_first());
        assert(rs0[0] == sec@);
    }
    match marker_lookup(&sec.name) {
        None => Err(unknown_section_diag(&sec)),
        Some(sid) => {
            let RawSection { name: _, start: _, name_end: _, body, body_start: _ } = sec;
            let first = make_section(sid, body);
            match sections_typed(raws) {
                Ok(mut rest) => {
                    let ghost r0 = rest@;
                    rest.insert(0, first);
                    proof {
                        assert(rest@ =~= seq![rest@[0]] + r0);
                        assert(common::seq_view(rest@) =~= seq![rest@[0]@] + common::seq_view(r0));
                    }
                    Ok(rest)
                },
                Err(d) => Err(d),
            }
        },
    }
}

/// The stored results of one parsed document, or of several combined.
#[derive(Debug, Default)]
pub struct ParseData {
    pub asteroid_mining: Vec<asteroid_mining::AsteroidMiningData>,
    pub augmentations: Vec<augmentations::AugmentationData>,
    pub building_data: Vec<building::BuildingData>,
    pub goods_data: Vec<goods::GoodData>,
    pub orbital_data: Vec<orbital::OrbitalData>,
    pub planet_type_data: Vec<planet_types::PlanetTypeData>,
    pub species_trait: Vec<species_trait::SpeciesTraitData>,
    pub shipyard: Vec<shipyard::ShipyardData>,
    pub stapledon: Vec<stapledon_swarm::StapledonSwarmData>,
    pub tech_data: Vec<tech::TechData>,
}

pub struct MParseData {
    pub asteroid_mining: Seq<asteroid_mining::MAsteroidMiningData>,
    pub augmentations: Seq<augmentations::MAugmentationData>,
    pub building_data: Seq<building::MBuildingData>,
    pub goods_data: Seq<goods::MGoodData>,
    pub orbital_data: Seq<orbital::MOrbitalData>,
    pub planet_type_data: Seq<planet_types::MPlanetTypeData>,
    pub species_trait: Seq<species_trait::MSpeciesTraitData>,
    pub shipyard: Seq<shipyard::MShipyardData>,
    pub stapledon: Seq<stapledon_swarm::MStapledonSwarmData>,
    pub tech_data: Seq<tech::MTechData>,
}

impl View for ParseData {
    type V = MParseData;

    open spec fn view(&self) -> MParseData {
        MParseData {
            asteroid_mining: common::seq_view(self.asteroid_mining@),
            augmentations: common::seq_view(self.augmentations@),
            building_data: common::seq_view(self.building_data@),
            goods_data: common::seq_view(self.goods_data@),
            orbital_data: common::seq_view(self.orbital_data@),
            planet_type_data: common::seq_view(self.planet_type_data@),
            species_trait: common::seq_view(self.species_trait@),
            shipyard: common::seq_view(self.shipyard@),
            stapledon: common::seq_view(self.stapledon@),
            tech_data: common::seq_view(self.tech_data@),
        }
    }
}

pub open spec fn empty_parse_data() -> MParseData {
    MParseData {
        asteroid_mining: Seq::empty(),
        augmentations: Seq::empty(),
        building_data: Seq::empty(),
        goods_data: Seq::empty(),
        orbital_data: Seq::empty(),
        planet_type_data: Seq::empty(),
        species_trait: Seq::empty(),
        shipyard: Seq::empty(),
        stapledon: Seq::empty(),
        tech_data: Seq::empty(),
    }
}

impl ParseData {
    /// The empty result set.
    pub fn new() -> (r: ParseData)
        ensures
            r@ == empty_parse_data(),
    {
        let r = ParseData {
            asteroid_mining: Vec::new(),
            augmentations: Vec::new(),
            building_data: Vec::new(),
            goods_data: Vec::new(),
            orbital_data: Vec::new(),
            planet_type_data: Vec::new(),
            species_trait: Vec::new(),
            shipyard: Vec::new(),
            stapledon: Vec::new(),
            tech_data: Vec::new(),
        };
        proof {
            assert(r@.asteroid_mining =~= empty_parse_data().asteroid_mining);
            assert(r@.augmentations =~= empty_parse_data().augmentations);
            assert(r@.building_data =~= empty_parse_data().building_data);
            assert(r@.goods_data =~= empty_parse_data().goods_data);
            assert(r@.orbital_data =~= empty_parse_data().orbital_data);
            assert(r@.planet_type_data =~= empty_parse_data().planet_type_data);
            assert(r@.species_trait =~= empty_parse_data().species_trait);
            assert(r@.shipyard =~= empty_parse_data().shipyard);
            assert(r@.stapledon =~= empty_parse_data().stapledon);
            assert(r@.tech_data =~= empty_parse_data().tech_data);
        }
        r
    }

    /// Merges another result set into this one: each schema's record list
    /// is concatenated in input order, never deduplicated.
    pub fn combine(&mut self, other: ParseData)
        ensures
            final(self)@.asteroid_mining == old(self)@.asteroid_mining + other@.asteroid_mining,
            final(self)@.augmentations == old(self)@.augmentations + other@.augmentations,
            final(self)@.building_data == old(self)@.building_data + other@.building_data,
            final(self)@.goods_data == old(self)@.goods_data + other@.goods_data,
            final(self)@.orbital_data == old(self)@.orbital_data + other@.orbital_data,
            final(self)@.planet_type_data == old(self)@.planet_type_data + other@.planet_type_data,
            final(self)@.species_trait == old(self)@.species_trait + other@.species_trait,
            final(self)@.shipyard == old(self)@.shipyard + other@.shipyard,
            final(self)@.stapledon == old(self)@.stapledon + other@.stapledon,
            final(self)@.tech_data == old(self)@.tech_data + other@.tech_data,
    {
        let mut other = other;
        let ghost om = other@;
        self.asteroid_mining.append(&mut other.asteroid_mining);
        self.augmentations.append(&mut other.augmentations);
        self.building_data.append(&mut other.building_data);
        self.goods_data.append(&mut other.goods_data);
        self.orbital_data.append(&mut other.orbital_data);
        self.planet_type_data.append(&mut other.planet_type_data);
        self.species_trait.append(&mut other.species_trait);
        self.shipyard.append(&mut other.shipyard);
        self.stapledon.append(&mut other.stapledon);
        self.tech_data.append(&mut other.tech_data);
        proof {
            assert(self@.asteroid_mining =~= old(self)@.asteroid_mining + om.asteroid_mining);
            assert(self@.augmentations =~= old(self)@.augmentations + om.augmentations);
            assert(self@.building_data =~= old(self)@.building_data + om.building_data);
            assert(self@.goods_data =~= old(self)@.goods_data + om.goods_data);
            assert(self@.orbital_data =~= old(self)@.orbital_data + om.orbital_data);
            assert(self@.planet_type_data =~= old(self)@.planet_type_data + om.planet_type_data);
            assert(self@.species_trait =~= old(self)@.species_trait + om.species_trait);
            assert(self@.shipyard =~= old(self)@.shipyard + om.shipyard);
            assert(self@.stapledon =~= old(self)@.stapledon + om.stapledon);
            assert(self@.tech_data =~= old(self)@.tech_data + om.tech_data);
        }
    }
}

/// One section's records appended onto the result set, or the section's
/// first diagnostic, still relative to the section body.
pub open spec fn spec_apply(acc: MParseData, sid: SchemaId, body: Seq<char>) -> Result<
    MParseData,
    MDiag,
> {
    match engine::spec_section_records(sid, body) {
        Err(d) => Err(d),
        Ok(mrs) => match sid {
            SchemaId::AsteroidMining => match asteroid_mining::asteroids_of(mrs) {
                Ok(ds) => Ok(MParseData { asteroid_mining: acc.asteroid_mining + ds, ..acc }),
                Err(d) => Err(d),
            },
            SchemaId::Augmentations => Ok(
                MParseData {
                    augmentations: acc.augmentations + augmentations::augmentations_of(mrs),
                    ..acc
                },
            ),
            SchemaId::Buildings => Ok(
                MParseData { building_data: acc.building_data + building::buildings_of(mrs), ..acc },
            ),
            SchemaId::Goods => Ok(
                MParseData { goods_data: acc.goods_data + goods::goods_of(mrs), ..acc },
            ),
            SchemaId::Orbitals => match orbital::orbitals_of(mrs) {
                Ok(ds) => Ok(MParseData { orbital_data: acc.orbital_data + ds, ..acc }),
                Err(d) => Err(d),
            },
            SchemaId::PlanetTypes => Ok(
                MParseData {
                    planet_type_data: acc.planet_type_data + planet_types::planet_types_of(mrs),
                    ..acc
                },
            ),
            SchemaId::SpecieTraits => Ok(
                MParseData {
                    species_trait: acc.species_trait + species_trait::species_traits_of(mrs),
                    ..acc
                },
            ),
            SchemaId::Shipyards => match shipyard::shipyards_of(mrs) {
                Ok(ds) => Ok(MParseData { shipyard: acc.shipyard + ds, ..acc }),
                Err(d) => Err(d),
            },
            SchemaId::StapledonSwarms => match stapledon_swarm::stapledons_of(mrs) {
                Ok(ds) => Ok(MParseData { stapledon: acc.stapledon + ds, ..acc }),
                Err(d) => Err(d),
            },
            SchemaId::Techs => Ok(
                MParseData { tech_data: acc.tech_data + tech::techs_of(mrs), ..acc },
            ),
            _ => Ok(acc),
        },
    }
}

/// Folds the sections into a result set, in document order; the first
/// failing section aborts with its diagnostic rebased onto the document.
pub open spec fn spec_parse_secs(acc: MParseData, secs: Seq<MSection>, n: int) -> Result<
    MParseData,
    MDiag,
>
    decreases secs,
{
    if secs.len() == 0 {
        Ok(acc)
    } else {
        let sec = secs[0];
        match marker_sid(sec.name) {
            None => Err(m_unknown_section(sec)),
            Some(sid) => match spec_apply(acc, sid, sec.body) {
                Ok(acc2) => spec_parse_secs(acc2, secs.drop_first(), n),
                Err(d) => Err(diag::spec_rebase(d, sec.body_start, n)),
            },
        }
    }
}

/// The result set a whole document denotes, or its first diagnostic with
/// document-absolute offsets.
pub open spec fn spec_parse(s: Seq<char>) -> Result<MParseData, MDiag> {
    match spec_split(s) {
        Ok(secs) => spec_parse_secs(empty_parse_data(), secs, s.len() as int),
        Err(d) => Err(d),
    }
}

/// A diagnostic wrapped with the source name and its human-readable
/// location, as the error reporter hands it to the caller.
#[derive(Debug, PartialEq)]
pub struct Report {
    pub source: String,
    pub line: usize,
    pub col: usize,
    pub diag: Diagnostic,
}

pub struct MReport {
    pub source: Seq<char>,
    pub line: int,
    pub col: int,
    pub diag: MDiag,
}

impl View for Report {
    type V = MReport;

    open spec fn view(&self) -> MReport {
        MReport {
            source: self.source@,
            line: self.line as int,
            col: self.col as int,
            diag: self.diag@,
        }
    }
}

/// The report of a diagnostic against a named source: the line and column
/// of its start offset, clipped into the document.
pub open spec fn report_of(name: Seq<char>, s: Seq<char>, d: MDiag) -> MReport {
    MReport {
        source: name,
        line: diag::spec_line(s, clamp_at(d.start, s.len() as int)),
        col: diag::spec_col(s, clamp_at(d.start, s.len() as int)),
        diag: d,
    }
}

fn mk_report(file_name: &str, contents: &str, d: Diagnostic) -> (r: Report)
    requires
        contents@.len() < usize::MAX,
    ensures
        r@ == report_of(file_name@, contents@, d@),
{
    let n = contents.unicode_len();
    let at = if d.start <= n {
        d.start
    } else {
        n
    };
    let (line, col) = diag::line_col(contents, at);
    Report { source: String::from_str(file_name), line, col, diag: d }
}

/// Parses a whole document: splits it into sections, parses each against
/// its schema, and concatenates the records in document order.  The first
/// failure is returned as a typed report; nothing panics and nothing of
/// the process state is touched.
#[verifier::rlimit(100)]
#[verifier::spinoff_prover]
pub fn parse(file_name: &str, contents: &str) -> (r: Result<ParseData, Report>)
    requires
        contents@.len() < usize::MAX,
    ensures
        match (r, spec_parse(contents@)) {
            (Ok(pd), Ok(m)) => pd@ == m,
            (Err(rep), Err(md)) => rep@ == report_of(file_name@, contents@, md),
            _ => false,
        },
{
    let n = contents.unicode_len();
    let mut secs = match split::split(contents) {
        Ok(ss) => ss,
        Err(d) => {
            return Err(mk_report(file_name, contents, d));
        },
    };
    let mut pd = ParseData::new();
    proof {
        assert(spec_parse_secs(pd@, secs_model(secs@), n as int) == spec_parse(contents@));
    }
    while secs.len() > 0
        invariant
            n == contents@.len(),
            n < usize::MAX,
            spec_parse_secs(pd@, secs_model(secs@), n as int) == spec_parse(contents@),
            split::secs_bounds(secs_model(secs@), n as int),
        decreases secs@.len(),
    {
        let ghost ss0 = secs_model(secs@);
        let sec = secs.remove(0);
        proof {
            assert(secs_model(secs@) =~= ss0.drop_first());
            assert(ss0[0] == sec@);
            assert(split::sec_bounds(sec@, n as int));
            assert forall|j: int|
                0 <= j < secs_model(secs@).len() implies split::sec_bounds(
                #[trigger] secs_model(secs@)[j],
                n as int,
            ) by {
                assert(secs_model(secs@)[j] == ss0[j + 1]);
            }
        }
        let sid = match marker_lookup(&sec.name) {
            None => {
                return Err(mk_report(file_name, contents, unknown_section_diag(&sec)));
            },
            Some(sid) => sid,
        };
        let toks = match lexer::lex(sec.body.as_str()) {
            Ok(t) => t,
            Err(d) => {
                return Err(mk_report(file_name, contents, d.rebase(sec.body_start, n)));
            },
        };
        match sid {
            SchemaId::AsteroidMining => match asteroid_mining::AsteroidMiningData::parse_tokens(
                &toks,
            ) {
                Ok(mut v) => {
                    let ghost p0 = pd@;
                    let ghost vm = common::seq_view(v@);
                    pd.asteroid_mining.append(&mut v);
                    proof {
                        assert(pd@.asteroid_mining =~= p0.asteroid_mining + vm);
                    }
                },
                Err(d) => {
                    return Err(mk_report(file_name, contents, d.rebase(sec.body_start, n)));
                },
            },
            SchemaId::Augmentations => match augmentations::AugmentationData::parse_tokens(&toks) {
                Ok(mut v) => {
                    let ghost p0 = pd@;
                    let ghost vm = common::seq_view(v@);
                    pd.augmentations.append(&mut v);
                    proof {
                        assert(pd@.augmentations =~= p0.augmentations + vm);
                    }
                },
                Err(d) => {
                    return Err(mk_report(file_name, contents, d.rebase(sec.body_start, n)));
                },
            },
            SchemaId::Buildings => match building::BuildingData::parse_tokens(&toks) {
                Ok(mut v) => {
                    let ghost p0 = pd@;
                    let ghost vm = common::seq_view(v@);
                    pd.building_data.append(&mut v);
                    proof {
                        assert(pd@.building_data =~= p0.building_data + vm);
                    }
                },
                Err(d) => {
                    return Err(mk_report(file_name, contents, d.rebase(sec.body_start, n)));
                },
            },
            SchemaId::Goods => match goods::GoodData::parse_tokens(&toks) {
                Ok(mut v) => {
                    let ghost p0 = pd@;
                    let ghost vm = common::seq_view(v@);
                    pd.goods_data.append(&mut v);
                    proof {
                        assert(pd@.goods_data =~= p0.goods_data + vm);
                    }
                },
                Err(d) => {
                    return Err(mk_report(file_name, contents, d.rebase(sec.body_start, n)));
                },
            },
            SchemaId::Orbitals => match orbital::OrbitalData::parse_tokens(&toks) {
                Ok(mut v) => {
                    let ghost p0 = pd@;
                    let ghost vm = common::seq_view(v@);
                    pd.orbital_data.append(&mut v);
                    proof {
                        assert(pd@.orbital_data =~= p0.orbital_data + vm);
                    }
                },
                Err(d) => {
                    return Err(mk_report(file_name, contents, d.rebase(sec.body_start, n)));
                },
            },
            SchemaId::PlanetTypes => match planet_types::PlanetTypeData::parse_tokens(&toks) {
                Ok(mut v) => {
                    let ghost p0 = pd@;
                    let ghost vm = common::seq_view(v@);
                    pd.planet_type_data.append(&mut v);
                    proof {
                        assert(pd@.planet_type_data =~= p0.planet_type_data + vm);
                    }
                },
                Err(d) => {
                    return Err(mk_report(file_name, contents, d.rebase(sec.body_start, n)));
                },
            },
            SchemaId::SpecieTraits => match species_trait::SpeciesTraitData::parse_tokens(&toks) {
                Ok(mut v) => {
                    let ghost p0 = pd@;
                    let ghost vm = common::seq_view(v@);
                    pd.species_trait.append(&mut v);
                    proof {
                        assert(pd@.species_trait =~= p0.species_trait + vm);
                    }
                },
                Err(d) => {
                    return Err(mk_report(file_name, contents, d.rebase(sec.body_start, n)));
                },
            },
            SchemaId::Shipyards => match shipyard::ShipyardData::parse_tokens(&toks) {
                Ok(mut v) => {
                    let ghost p0 = pd@;
                    let ghost vm = common::seq_view(v@);
                    pd.shipyard.append(&mut v);
                    proof {
                        assert(pd@.shipyard =~= p0.shipyard + vm);
                    }
                },
                Err(d) => {
                    return Err(mk_report(file_name, contents, d.rebase(sec.body_start, n)));
                },
            },
            SchemaId::StapledonSwarms => match stapledon_swarm::StapledonSwarmData::parse_tokens(
                &toks,
            ) {
                Ok(mut v) => {
                    let ghost p0 = pd@;
                    let ghost vm = common::seq_view(v@);
                    pd.stapledon.append(&mut v);
                    proof {
                        assert(pd@.stapledon =~= p0.stapledon + vm);
                    }
                },
                Err(d) => {
                    return Err(mk_report(file_name, contents, d.rebase(sec.body_start, n)));
                },
            },
            SchemaId::Techs => match tech::TechData::parse_tokens(&toks) {
                Ok(mut v) => {
                    let ghost p0 = pd@;
                    let ghost vm = common::seq_view(v@);
                    pd.tech_data.append(&mut v);
                    proof {
                        assert(pd@.tech_data =~= p0.tech_data + vm);
                    }
                },
                Err(d) => {
                    return Err(mk_report(file_name, contents, d.rebase(sec.body_start, n)));
                },
            },
            _ => {
                proof {
                    assert(false);
                }
            },
        }
    }
    proof {
        assert(secs_model(secs@).len() == 0);
    }
    Ok(pd)
}

/// A short name for each failure kind.
pub open spec fn kind_text(k: DiagKind) -> Seq<char> {
    match k {
        DiagKind::Lexical => "invalid token"@,
        DiagKind::UnexpectedEof => "unexpected end of input"@,
        DiagKind::UnexpectedToken => "unexpected token"@,
        DiagKind::UnknownSection => "unknown section marker"@,
        DiagKind::UnknownField => "unknown field keyword"@,
        DiagKind::BadValue => "wrong value kind"@,
        DiagKind::OutOfRange => "value out of range"@,
    }
}

fn kind_text_exec(k: DiagKind) -> (r: String)
    ensures
        r@ == kind_text(k),
{
    match k {
        DiagKind::Lexical => String::from_str("invalid token"),
        DiagKind::UnexpectedEof => String::from_str("unexpected end of input"),
        DiagKind::UnexpectedToken => String::from_str("unexpected token"),
        DiagKind::UnknownSection => String::from_str("unknown section marker"),
        DiagKind::UnknownField => String::from_str("unknown field keyword"),
        DiagKind::BadValue => String::from_str("wrong value kind"),
        DiagKind::OutOfRange => String::from_str("value out of range"),
    }
}

/// The expected names joined with commas.
pub open spec fn join_expected(xs: Seq<Seq<char>>) -> Seq<char>
    decreases xs,
{
    if xs.len() == 0 {
        Seq::empty()
    } else if xs.len() == 1 {
        xs[0]
    } else {
        xs[0] + ", "@ + join_expected(xs.drop_first())
    }
}

proof fn lemma_join_push(xs: Seq<Seq<char>>, x: Seq<char>)
    ensures
        join_expected(xs.push(x)) == if xs.len() == 0 {
            x
        } else {
            join_expected(xs) + ", "@ + x
        },
    decreases xs,
{
    if xs.len() == 0 {
        assert(xs.push(x)[0] == x);
        assert(join_expected(xs.push(x)) == x);
    } else {
        assert(xs.push(x).drop_first() =~= xs.drop_first().push(x));
        lemma_join_push(xs.drop_first(), x);
        if xs.len() == 1 {
            assert(xs.drop_first().len() == 0);
            assert(join_expected(xs.push(x)) == xs[0] + ", "@ + x);
            assert(join_expected(xs) == xs[0]);
        } else {
            assert(join_expected(xs) + ", "@ + x =~= xs[0] + ", "@ + (join_expected(
                xs.drop_first(),
            ) + ", "@ + x));
        }
    }
}

fn join_expected_exec(xs: &Vec<String>) -> (r: String)
    ensures
        r@ == join_expected(xs.deep_view()),
{
    let mut s = String::new();
    let n = xs.len();
    let mut i: usize = 0;
    proof {
        assert(s@ =~= Seq::<char>::empty());
        assert(xs.deep_view().take(0) =~= Seq::<Seq<char>>::empty());
    }
    while i < n
        invariant
            n == xs@.len(),
            xs.deep_view().len() == n,
            i <= n,
            s@ == join_expected(xs.deep_view().take(i as int)),
        decreases n - i,
    {
        proof {
            assert(xs.deep_view()[i as int] == xs@[i as int]@);
            assert(xs.deep_view().take(i + 1) =~= xs.deep_view().take(i as int).push(
                xs.deep_view()[i as int],
            ));
            lemma_join_push(xs.deep_view().take(i as int), xs.deep_view()[i as int]);
            assert(xs.deep_view().take(i as int).len() == i);
        }
        if i > 0 {
            s.append(", ");
            proof {
                reveal_strlit(", ");
            }
        }
        s.append(xs[i].as_str());
        i += 1;
    }
    proof {
        assert(xs.deep_view().take(n as int) =~= xs.deep_view());
    }
    s
}

/// The rendered message of a report: the source name, the one-based
/// location, the failure kind, and the expected/found pair.
pub open spec fn spec_message(rep: MReport) -> Seq<char> {
    rep.source + ":"@ + crate::text::spec_digits(rep.line as nat) + ":"@ + crate::text::spec_digits(
        rep.col as nat,
    ) + ": "@ + kind_text(rep.diag.kind) + ": expected "@ + join_expected(rep.diag.expected)
        + ", found "@ + rep.diag.found
}

impl Report {
    /// Renders the report as one human-readable line.
    pub fn message(&self) -> (r: String)
        ensures
            r@ == spec_message(self@),
    {
        let mut s = self.source.clone();
        s.append(":");
        let ls = crate::text::dec_str(self.line);
        s.append(ls.as_str());
        s.append(":");
        let cs = crate::text::dec_str(self.col);
        s.append(cs.as_str());
        s.append(": ");
        let kt = kind_text_exec(self.diag.kind);
        s.append(kt.as_str());
        s.append(": expected ");
        let je = join_expected_exec(&self.diag.expected);
        s.append(je.as_str());
        s.append(", found ");
        s.append(self.diag.found.as_str());
        s
    }
}

} // verus!

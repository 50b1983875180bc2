//! The orbital-structures schema: `#orbital` sections.

use vstd::prelude::*;

use crate::common::{seq_view, MGoodConsumes, GoodConsumes};
use crate::decimal::Decimal;

verus! {

/// One orbital structure level.
#[derive(Clone, Debug, PartialEq)]
pub struct OrbitalData {
    pub level: u8,
    pub name: String,
    pub asset_location: String,
    pub costs: Vec<GoodConsumes>,
    pub time: u8,
    pub building_limit: u8,
}

pub struct MOrbitalData {
    pub level: u8,
    pub name: Seq<char>,
    pub asset_location: Seq<char>,
    pub costs: Seq<MGoodConsumes>,
    pub time: u8,
    pub building_limit: u8,
}

impl View for OrbitalData {
    type V = MOrbitalData;

    open spec fn view(&self) -> MOrbitalData {
        MOrbitalData {
            level: self.level,
            name: self.name@,
            asset_location: self.asset_location@,
            costs: seq_view(self.costs@),
            time: self.time,
            building_limit: self.building_limit,
        }
    }
}

pub open spec fn orbital_default() -> MOrbitalData {
    MOrbitalData {
        level: 0,
        name: Seq::empty(),
        asset_location: Seq::empty(),
        costs: Seq::empty(),
        time: 0,
        building_limit: 0,
    }
}

impl Default for OrbitalData {
    fn default() -> (r: OrbitalData)
        ensures
            r@ == orbital_default(),
    {
        let r = OrbitalData {
            level: 0,
            name: String::new(),
            asset_location: String::new(),
            costs: Vec::new(),
            time: 0,
            building_limit: 0,
        };
        proof {
            assert(r@.costs =~= orbital_default().costs);
        }
        r
    }
}

/// The record an entry list denotes: each field holds the last occurrence
/// of its keyword, or the default.
pub open spec fn orbital_of(m: crate::engine::MRec) -> Result<MOrbitalData, crate::diag::MDiag> {
    if m.id->N_0 <= 255 {
        Ok(MOrbitalData {
            level: m.id->N_0 as u8,
            name: crate::engine::last_str(m.entries, crate::schema::F_NAME, Seq::empty()),
            asset_location: crate::engine::last_str(m.entries, crate::schema::F_ASSET_LOCATION, Seq::empty()),
            costs: crate::engine::last_goods(m.entries, crate::schema::F_COSTS),
            time: crate::engine::last_u8(m.entries, crate::schema::F_TIME, 0),
            building_limit: crate::engine::last_u8(m.entries, crate::schema::F_BUILDING_LIMIT, 0),
        })
    } else {
        Err(crate::diag::MDiag {
            kind: crate::diag::DiagKind::OutOfRange,
            start: m.id_start,
            end: m.id_end,
            expected: seq!["integer 0..=255"@],
            found: "integer"@,
        })
    }
}

proof fn lemma_orbital_entry(e: (u32, crate::schema::MTypedValue))
    requires
        crate::engine::entry_wf(crate::schema::SchemaId::Orbitals, e),
    ensures
        (e.0 == crate::schema::F_NAME && e.1 is TStr) || (e.0 == crate::schema::F_ASSET_LOCATION && e.1 is TStr) || (e.0 == crate::schema::F_COSTS && e.1 is TGoods) || (e.0 == crate::schema::F_TIME && e.1 is TU8) || (e.0 == crate::schema::F_BUILDING_LIMIT && e.1 is TU8),
{
    reveal(crate::schema::field_of);
    let kw = choose|kw: Seq<char>|
        #![trigger crate::schema::field_of(crate::schema::SchemaId::Orbitals, kw)]
        match crate::schema::field_of(crate::schema::SchemaId::Orbitals, kw) {
            Some(p) => p.0 == e.0 && crate::engine::tv_matches(p.1, e.1),
            None => false,
        };
}

fn build_orbital(rec: crate::engine::Rec) -> (r: Result<OrbitalData, crate::diag::Diagnostic>)
    requires
        crate::engine::mrec_wf(crate::schema::SchemaId::Orbitals, crate::engine::rec_model(rec)),
    ensures
        match (r, orbital_of(crate::engine::rec_model(rec))) {
            (Ok(d), Ok(md)) => d@ == md,
            (Err(d), Err(md)) => d@ == md,
            _ => false,
        },
{
    let ghost m = crate::engine::rec_model(rec);
    let mut r = OrbitalData::default();
    let crate::engine::Rec { id, id_start, id_end, entries } = rec;
    match id {
        crate::engine::RecId::N(x) => {
            if x <= 255 {
                r.level = x as u8;
            } else {
                let mut exp: Vec<String> = Vec::new();
                exp.push(String::from_str("integer 0..=255"));
                let d = crate::diag::Diagnostic {
                    kind: crate::diag::DiagKind::OutOfRange,
                    start: id_start,
                    end: id_end,
                    expected: exp,
                    found: String::from_str("integer"),
                };
                proof {
                    assert(d@.expected =~= seq!["integer 0..=255"@]);
                }
                return Err(d);
            }
        },
        crate::engine::RecId::S(_) => {
            proof {
                assert(false);
            }
        },
    }
    let mut es = entries;
    let ghost mut processed: Seq<(u32, crate::schema::MTypedValue)> = Seq::empty();
    proof {
        assert(processed + crate::engine::entries_model(es@) =~= m.entries);
    }
    while es.len() > 0
        invariant
            processed + crate::engine::entries_model(es@) =~= m.entries,
            crate::engine::entries_ok(crate::schema::SchemaId::Orbitals, crate::engine::entries_model(es@)),
            r@.level == m.id->N_0 as u8,
            r@.name == crate::engine::last_str(processed, crate::schema::F_NAME, Seq::empty()),
            r@.asset_location == crate::engine::last_str(processed, crate::schema::F_ASSET_LOCATION, Seq::empty()),
            r@.costs == crate::engine::last_goods(processed, crate::schema::F_COSTS),
            r@.time == crate::engine::last_u8(processed, crate::schema::F_TIME, 0),
            r@.building_limit == crate::engine::last_u8(processed, crate::schema::F_BUILDING_LIMIT, 0),
        decreases es@.len(),
    {
        let ghost es_old = es@;
        let e = es.remove(0);
        let ghost em = (e.0, crate::schema::tv_model(e.1));
        proof {
            assert(es@ =~= es_old.drop_first());
            assert(crate::engine::entries_model(es_old) == seq![(es_old[0].0, crate::schema::tv_model(es_old[0].1))]
                + crate::engine::entries_model(es_old.drop_first()));
            assert(crate::engine::entries_model(es_old)[0] == em);
            assert(crate::engine::entry_wf(crate::schema::SchemaId::Orbitals, em));
            lemma_orbital_entry(em);
            assert forall|j: int| 0 <= j < crate::engine::entries_model(es@).len() implies crate::engine::entry_wf(
                crate::schema::SchemaId::Orbitals,
                #[trigger] crate::engine::entries_model(es@)[j],
            ) by {
                assert(crate::engine::entries_model(es@)[j] == crate::engine::entries_model(es_old)[j + 1]);
            }
            crate::engine::lemma_last_entry_push(processed, em, crate::schema::F_NAME);
            crate::engine::lemma_last_entry_push(processed, em, crate::schema::F_ASSET_LOCATION);
            crate::engine::lemma_last_entry_push(processed, em, crate::schema::F_COSTS);
            crate::engine::lemma_last_entry_push(processed, em, crate::schema::F_TIME);
            crate::engine::lemma_last_entry_push(processed, em, crate::schema::F_BUILDING_LIMIT);
            assert(processed.push(em) + crate::engine::entries_model(es@) =~= m.entries);
        }
        let (fid, tv) = e;
        if fid == crate::schema::F_NAME {
            match tv {
                crate::schema::TypedValue::TStr(s) => {
                    r.name = s;
                },
                _ => {
                    proof {
                        assert(false);
                    }
                },
            }
        } else if fid == crate::schema::F_ASSET_LOCATION {
            match tv {
                crate::schema::TypedValue::TStr(s) => {
                    r.asset_location = s;
                },
                _ => {
                    proof {
                        assert(false);
                    }
                },
            }
        } else if fid == crate::schema::F_COSTS {
            match tv {
                crate::schema::TypedValue::TGoods(s) => {
                    r.costs = s;
                },
                _ => {
                    proof {
                        assert(false);
                    }
                },
            }
        } else if fid == crate::schema::F_TIME {
            match tv {
                crate::schema::TypedValue::TU8(s) => {
                    r.time = s;
                },
                _ => {
                    proof {
                        assert(false);
                    }
                },
            }
        } else {
            proof {
                assert(fid == crate::schema::F_BUILDING_LIMIT);
            }
            match tv {
                crate::schema::TypedValue::TU8(s) => {
                    r.building_limit = s;
                },
                _ => {
                    proof {
                        assert(false);
                    }
                },
            }
        }
        proof {
            processed = processed.push(em);
        }
    }
    proof {
        assert(crate::engine::entries_model(es@) =~= Seq::<(u32, crate::schema::MTypedValue)>::empty());
        assert(processed =~= m.entries);
    }
    Ok(r)
}

/// The typed records a section's record list denotes, in order.
pub open spec fn orbitals_of(rs: Seq<crate::engine::MRec>) -> Result<Seq<MOrbitalData>, crate::diag::MDiag>
    decreases rs,
{
    if rs.len() == 0 {
        Ok(Seq::empty())
    } else {
        match orbital_of(rs[0]) {
            Ok(d) => match orbitals_of(rs.drop_first()) {
                Ok(ds) => Ok(seq![d] + ds),
                Err(e) => Err(e),
            },
            Err(e) => Err(e),
        }
    }
}

fn build_orbital_list(recs: Vec<crate::engine::Rec>) -> (r: Result<Vec<OrbitalData>, crate::diag::Diagnostic>)
    requires
        crate::engine::mrecs_wf(crate::schema::SchemaId::Orbitals, crate::engine::recs_model(recs@)),
    ensures
        match (r, orbitals_of(crate::engine::recs_model(recs@))) {
            (Ok(ds), Ok(mds)) => crate::common::seq_view(ds@) == mds,
            (Err(d), Err(md)) => d@ == md,
            _ => false,
        },
    decreases recs@.len(),
{
    let mut recs = recs;
    if recs.len() == 0 {
        let r: Vec<OrbitalData> = Vec::new();
        proof {
            assert(crate::common::seq_view(r@) =~= Seq::<MOrbitalData>::empty());
        }
        return Ok(r);
    }
    let ghost rs0 = recs@;
    let first = recs.remove(0);
    proof {
        assert(recs@ =~= rs0.drop_first());
        assert(crate::engine::recs_model(rs0) == seq![crate::engine::rec_model(rs0[0])] + crate::engine::recs_model(rs0.drop_first()));
        assert(crate::engine::recs_model(rs0)[0] == crate::engine::rec_model(first));
        assert(crate::engine::recs_model(rs0).drop_first() =~= crate::engine::recs_model(recs@));
        assert(crate::engine::mrec_wf(crate::schema::SchemaId::Orbitals, crate::engine::rec_model(first)));
        assert forall|j: int| 0 <= j < crate::engine::recs_model(recs@).len() implies crate::engine::mrec_wf(
            crate::schema::SchemaId::Orbitals,
            #[trigger] crate::engine::recs_model(recs@)[j],
        ) by {
            assert(crate::engine::recs_model(recs@)[j] == crate::engine::recs_model(rs0)[j + 1]);
        }
    }
    match build_orbital(first) {
        Ok(d) => {
            match build_orbital_list(recs) {
                Ok(mut rest) => {
                    let ghost r0 = rest@;
                    rest.insert(0, d);
                    proof {
                        assert(rest@ =~= seq![rest@[0]] + r0);
                        assert(crate::common::seq_view(rest@) =~= seq![rest@[0]@] + crate::common::seq_view(r0));
                    }
                    Ok(rest)
                },
                Err(d2) => Err(d2),
            }
        },
        Err(d2) => Err(d2),
    }
}

impl OrbitalData {
    /// Parses every record of a `#orbital` section body from its tokens.
    pub fn parse_tokens(toks: &Vec<crate::lexer::Tok>) -> (r: Result<Vec<OrbitalData>, crate::diag::Diagnostic>)
        requires
            crate::lexer::mtoks_wf(crate::lexer::toks_model(toks@)),
        ensures
            match (r, crate::engine::spec_records(crate::schema::SchemaId::Orbitals, crate::lexer::toks_model(toks@), 0)) {
                (Ok(ds), Ok(mrs)) => match orbitals_of(mrs) {
                    Ok(mds) => crate::common::seq_view(ds@) == mds,
                    Err(_) => false,
                },
                (Err(d), Ok(mrs)) => match orbitals_of(mrs) {
                    Ok(_) => false,
                    Err(md) => d@ == md,
                },
                (Err(d), Err(md)) => d@ == md,
                _ => false,
            },
    {
        match crate::engine::p_records(crate::schema::SchemaId::Orbitals, toks, 0) {
            Ok(recs) => build_orbital_list(recs),
            Err(d) => Err(d),
        }
    }
}

} // verus!

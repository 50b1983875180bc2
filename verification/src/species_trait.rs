//! The species-traits schema: `#specie_traits` sections.

use vstd::prelude::*;

use crate::common::{seq_view, MGoodConsumes, GoodConsumes};
use crate::decimal::Decimal;

verus! {

/// What a trait changes about the species.
#[derive(Clone, Copy, Debug, PartialEq, Eq, Structural)]
pub enum Effect {
    GrowthRate(Decimal),
}

/// One species trait.
#[derive(Clone, Debug, PartialEq)]
pub struct SpeciesTraitData {
    pub id: String,
    pub name: String,
    pub icon: String,
    pub consumes: Vec<GoodConsumes>,
    pub effects: Vec<Effect>,
}

pub struct MSpeciesTraitData {
    pub id: Seq<char>,
    pub name: Seq<char>,
    pub icon: Seq<char>,
    pub consumes: Seq<MGoodConsumes>,
    pub effects: Seq<Effect>,
}

impl View for SpeciesTraitData {
    type V = MSpeciesTraitData;

    open spec fn view(&self) -> MSpeciesTraitData {
        MSpeciesTraitData {
            id: self.id@,
            name: self.name@,
            icon: self.icon@,
            consumes: seq_view(self.consumes@),
            effects: self.effects@,
        }
    }
}

pub open spec fn species_trait_default() -> MSpeciesTraitData {
    MSpeciesTraitData {
        id: Seq::empty(),
        name: Seq::empty(),
        icon: Seq::empty(),
        consumes: Seq::empty(),
        effects: Seq::empty(),
    }
}

impl Default for SpeciesTraitData {
    fn default() -> (r: SpeciesTraitData)
        ensures
            r@ == species_trait_default(),
    {
        let r = SpeciesTraitData {
            id: String::new(),
            name: String::new(),
            icon: String::new(),
            consumes: Vec::new(),
            effects: Vec::new(),
        };
        proof {
            assert(r@.consumes =~= species_trait_default().consumes);
            assert(r@.effects =~= species_trait_default().effects);
        }
        r
    }
}

/// The record an entry list denotes: each field holds the last occurrence
/// of its keyword, or the default.
pub open spec fn species_trait_of(m: crate::engine::MRec) -> MSpeciesTraitData {
    MSpeciesTraitData {
        id: m.id->S_0,
        name: crate::engine::last_str(m.entries, crate::schema::F_NAME, Seq::empty()),
        icon: crate::engine::last_str(m.entries, crate::schema::F_ICON, Seq::empty()),
        consumes: crate::engine::last_goods(m.entries, crate::schema::F_CONSUMES),
        effects: crate::engine::last_trait_effects(m.entries, crate::schema::F_EFFECTS),
    }
}

proof fn lemma_species_trait_entry(e: (u32, crate::schema::MTypedValue))
    requires
        crate::engine::entry_wf(crate::schema::SchemaId::SpecieTraits, e),
    ensures
        (e.0 == crate::schema::F_NAME && e.1 is TStr) || (e.0 == crate::schema::F_ICON && e.1 is TStr) || (e.0 == crate::schema::F_CONSUMES && e.1 is TGoods) || (e.0 == crate::schema::F_EFFECTS && e.1 is TTraitEffects),
{
    reveal(crate::schema::field_of);
    let kw = choose|kw: Seq<char>|
        #![trigger crate::schema::field_of(crate::schema::SchemaId::SpecieTraits, kw)]
        match crate::schema::field_of(crate::schema::SchemaId::SpecieTraits, kw) {
            Some(p) => p.0 == e.0 && crate::engine::tv_matches(p.1, e.1),
            None => false,
        };
}

fn build_species_trait(rec: crate::engine::Rec) -> (r: SpeciesTraitData)
    requires
        crate::engine::mrec_wf(crate::schema::SchemaId::SpecieTraits, crate::engine::rec_model(rec)),
    ensures
        r@ == species_trait_of(crate::engine::rec_model(rec)),
{
    let ghost m = crate::engine::rec_model(rec);
    let mut r = SpeciesTraitData::default();
    let crate::engine::Rec { id, id_start, id_end, entries } = rec;
    match id {
        crate::engine::RecId::S(s) => {
            r.id = s;
        },
        crate::engine::RecId::N(_) => {
            proof {
                assert(false);
            }
        },
    }
    let mut es = entries;
    let ghost mut processed: Seq<(u32, crate::schema::MTypedValue)> = Seq::empty();
    proof {
        assert(processed + crate::engine::entries_model(es@) =~= m.entries);
    }
    while es.len() > 0
        invariant
            processed + crate::engine::entries_model(es@) =~= m.entries,
            crate::engine::entries_ok(crate::schema::SchemaId::SpecieTraits, crate::engine::entries_model(es@)),
            r@.id == m.id->S_0,
            r@.name == crate::engine::last_str(processed, crate::schema::F_NAME, Seq::empty()),
            r@.icon == crate::engine::last_str(processed, crate::schema::F_ICON, Seq::empty()),
            r@.consumes == crate::engine::last_goods(processed, crate::schema::F_CONSUMES),
            r@.effects == crate::engine::last_trait_effects(processed, crate::schema::F_EFFECTS),
        decreases es@.len(),
    {
        let ghost es_old = es@;
        let e = es.remove(0);
        let ghost em = (e.0, crate::schema::tv_model(e.1));
        proof {
            assert(es@ =~= es_old.drop_first());
            assert(crate::engine::entries_model(es_old) == seq![(es_old[0].0, crate::schema::tv_model(es_old[0].1))]
                + crate::engine::entries_model(es_old.drop_first()));
            assert(crate::engine::entries_model(es_old)[0] == em);
            assert(crate::engine::entry_wf(crate::schema::SchemaId::SpecieTraits, em));
            lemma_species_trait_entry(em);
            assert forall|j: int| 0 <= j < crate::engine::entries_model(es@).len() implies crate::engine::entry_wf(
                crate::schema::SchemaId::SpecieTraits,
                #[trigger] crate::engine::entries_model(es@)[j],
            ) by {
                assert(crate::engine::entries_model(es@)[j] == crate::engine::entries_model(es_old)[j + 1]);
            }
            crate::engine::lemma_last_entry_push(processed, em, crate::schema::F_NAME);
            crate::engine::lemma_last_entry_push(processed, em, crate::schema::F_ICON);
            crate::engine::lemma_last_entry_push(processed, em, crate::schema::F_CONSUMES);
            crate::engine::lemma_last_entry_push(processed, em, crate::schema::F_EFFECTS);
            assert(processed.push(em) + crate::engine::entries_model(es@) =~= m.entries);
        }
        let (fid, tv) = e;
        if fid == crate::schema::F_NAME {
            match tv {
                crate::schema::TypedValue::TStr(s) => {
                    r.name = s;
                },
                _ => {
                    proof {
                        assert(false);
                    }
                },
            }
        } else if fid == crate::schema::F_ICON {
            match tv {
                crate::schema::TypedValue::TStr(s) => {
                    r.icon = s;
                },
                _ => {
                    proof {
                        assert(false);
                    }
                },
            }
        } else if fid == crate::schema::F_CONSUMES {
            match tv {
                crate::schema::TypedValue::TGoods(s) => {
                    r.consumes = s;
                },
                _ => {
                    proof {
                        assert(false);
                    }
                },
            }
        } else {
            proof {
                assert(fid == crate::schema::F_EFFECTS);
            }
            match tv {
                crate::schema::TypedValue::TTraitEffects(s) => {
                    r.effects = s;
                },
                _ => {
                    proof {
                        assert(false);
                    }
                },
            }
        }
        proof {
            processed = processed.push(em);
        }
    }
    proof {
        assert(crate::engine::entries_model(es@) =~= Seq::<(u32, crate::schema::MTypedValue)>::empty());
        assert(processed =~= m.entries);
    }
    r
}

/// The typed records a section's record list denotes, in order.
pub open spec fn species_traits_of(rs: Seq<crate::engine::MRec>) -> Seq<MSpeciesTraitData>
    decreases rs,
{
    if rs.len() == 0 {
        Seq::empty()
    } else {
        seq![species_trait_of(rs[0])] + species_traits_of(rs.drop_first())
    }
}

fn build_species_trait_list(recs: Vec<crate::engine::Rec>) -> (r: Vec<SpeciesTraitData>)
    requires
        crate::engine::mrecs_wf(crate::schema::SchemaId::SpecieTraits, crate::engine::recs_model(recs@)),
    ensures
        crate::common::seq_view(r@) == species_traits_of(crate::engine::recs_model(recs@)),
    decreases recs@.len(),
{
    let mut recs = recs;
    if recs.len() == 0 {
        let r: Vec<SpeciesTraitData> = Vec::new();
        proof {
            assert(crate::common::seq_view(r@) =~= Seq::<MSpeciesTraitData>::empty());
        }
        return r;
    }
    let ghost rs0 = recs@;
    let first = recs.remove(0);
    proof {
        assert(recs@ =~= rs0.drop_first());
        assert(crate::engine::recs_model(rs0) == seq![crate::engine::rec_model(rs0[0])] + crate::engine::recs_model(rs0.drop_first()));
        assert(crate::engine::recs_model(rs0)[0] == crate::engine::rec_model(first));
        assert(crate::engine::recs_model(rs0).drop_first() =~= crate::engine::recs_model(recs@));
        assert(crate::engine::mrec_wf(crate::schema::SchemaId::SpecieTraits, crate::engine::rec_model(first)));
        assert forall|j: int| 0 <= j < crate::engine::recs_model(recs@).len() implies crate::engine::mrec_wf(
            crate::schema::SchemaId::SpecieTraits,
            #[trigger] crate::engine::recs_model(recs@)[j],
        ) by {
            assert(crate::engine::recs_model(recs@)[j] == crate::engine::recs_model(rs0)[j + 1]);
        }
    }
    let d = build_species_trait(first);
    let mut rest = build_species_trait_list(recs);
    let ghost r0 = rest@;
    rest.insert(0, d);
    proof {
        assert(rest@ =~= seq![rest@[0]] + r0);
        assert(crate::common::seq_view(rest@) =~= seq![rest@[0]@] + crate::common::seq_view(r0));
    }
    rest
}

impl SpeciesTraitData {
    /// Parses every record of a `#specie_traits` section body from its tokens.
    pub fn parse_tokens(toks: &Vec<crate::lexer::Tok>) -> (r: Result<Vec<SpeciesTraitData>, crate::diag::Diagnostic>)
        requires
            crate::lexer::mtoks_wf(crate::lexer::toks_model(toks@)),
        ensures
            match (r, crate::engine::spec_records(crate::schema::SchemaId::SpecieTraits, crate::lexer::toks_model(toks@), 0)) {
                (Ok(ds), Ok(mrs)) => crate::common::seq_view(ds@) == species_traits_of(mrs),
                (Err(d), Err(md)) => d@ == md,
                _ => false,
            },
    {
        match crate::engine::p_records(crate::schema::SchemaId::SpecieTraits, toks, 0) {
            Ok(recs) => Ok(build_species_trait_list(recs)),
            Err(d) => Err(d),
        }
    }
}

} // verus!

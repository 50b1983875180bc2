//! The technology schema: `#tech` sections.

use vstd::prelude::*;

use crate::diag::Diagnostic;
use crate::engine::{
    entries_model, entries_ok, entry_wf, last_str, last_u8, lemma_last_entry_push, mrec_wf,
    mrecs_wf, rec_model, recs_model, spec_records, tv_matches, MRec, Rec, RecId,
};
use crate::lexer::{mtoks_wf, toks_model, Tok};
use crate::schema::{
    field_of, tv_model, MTypedValue, SchemaId, TypedValue, F_DESCRIPTION, F_NAME, F_TIME,
};

verus! {

/// One researched technology.
#[derive(Clone, Debug, PartialEq)]
pub struct TechData {
    pub id: String,
    pub name: String,
    pub time: u8,
    pub description: String,
}

pub struct MTechData {
    pub id: Seq<char>,
    pub name: Seq<char>,
    pub time: u8,
    pub description: Seq<char>,
}

impl View for TechData {
    type V = MTechData;

    open spec fn view(&self) -> MTechData {
        MTechData {
            id: self.id@,
            name: self.name@,
            time: self.time,
            description: self.description@,
        }
    }
}

/// The record before any field is applied.
pub open spec fn tech_default() -> MTechData {
    MTechData { id: Seq::empty(), name: Seq::empty(), time: 0, description: Seq::empty() }
}

impl Default for TechData {
    fn default() -> (r: TechData)
        ensures
            r@ == tech_default(),
    {
        TechData { id: String::new(), name: String::new(), time: 0, description: String::new() }
    }
}

/// The record an entry list denotes: each field holds the last occurrence
/// of its keyword, or the default.
pub open spec fn tech_of(m: MRec) -> MTechData {
    MTechData {
        id: m.id->S_0,
        name: last_str(m.entries, F_NAME, Seq::empty()),
        time: last_u8(m.entries, F_TIME, 0),
        description: last_str(m.entries, F_DESCRIPTION, Seq::empty()),
    }
}

proof fn lemma_tech_entry(e: (u32, MTypedValue))
    requires
        entry_wf(SchemaId::Techs, e),
    ensures
        (e.0 == F_NAME && e.1 is TStr) || (e.0 == F_TIME && e.1 is TU8) || (e.0 == F_DESCRIPTION
            && e.1 is TStr),
{
    reveal(crate::schema::field_of);
    let kw = choose|kw: Seq<char>|
        #![trigger field_of(SchemaId::Techs, kw)]
        match field_of(SchemaId::Techs, kw) {
            Some(p) => p.0 == e.0 && tv_matches(p.1, e.1),
            None => false,
        };
}

fn build_tech(rec: Rec) -> (r: TechData)
    requires
        mrec_wf(SchemaId::Techs, rec_model(rec)),
    ensures
        r@ == tech_of(rec_model(rec)),
{
    let ghost m = rec_model(rec);
    let mut r = TechData::default();
    let Rec { id, id_start: _, id_end: _, entries } = rec;
    match id {
        RecId::S(s) => {
            r.id = s;
        },
        RecId::N(_) => {
            proof {
                assert(false);
            }
        },
    }
    let mut es = entries;
    let ghost mut processed: Seq<(u32, MTypedValue)> = Seq::empty();
    proof {
        assert(processed + entries_model(es@) =~= m.entries);
    }
    while es.len() > 0
        invariant
            processed + entries_model(es@) =~= m.entries,
            entries_ok(SchemaId::Techs, entries_model(es@)),
            r@.id == m.id->S_0,
            r@.name == last_str(processed, F_NAME, Seq::empty()),
            r@.time == last_u8(processed, F_TIME, 0),
            r@.description == last_str(processed, F_DESCRIPTION, Seq::empty()),
        decreases es@.len(),
    {
        let ghost es_old = es@;
        let e = es.remove(0);
        let ghost em = (e.0, tv_model(e.1));
        proof {
            assert(es@ =~= es_old.drop_first());
            assert(entries_model(es_old) == seq![(es_old[0].0, tv_model(es_old[0].1))]
                + entries_model(es_old.drop_first()));
            assert(entries_model(es_old)[0] == em);
            assert(entry_wf(SchemaId::Techs, em));
            lemma_tech_entry(em);
            assert forall|j: int| 0 <= j < entries_model(es@).len() implies entry_wf(
                SchemaId::Techs,
                #[trigger] entries_model(es@)[j],
            ) by {
                assert(entries_model(es@)[j] == entries_model(es_old)[j + 1]);
            }
            lemma_last_entry_push(processed, em, F_NAME);
            lemma_last_entry_push(processed, em, F_TIME);
            lemma_last_entry_push(processed, em, F_DESCRIPTION);
            assert(processed.push(em) + entries_model(es@) =~= m.entries);
        }
        let (fid, tv) = e;
        if fid == F_NAME {
            match tv {
                TypedValue::TStr(s) => {
                    r.name = s;
                },
                _ => {
                    proof {
                        assert(false);
                    }
                },
            }
        } else if fid == F_TIME {
            match tv {
                TypedValue::TU8(x) => {
                    r.time = x;
                },
                _ => {
                    proof {
                        assert(false);
                    }
                },
            }
        } else {
            proof {
                assert(fid == F_DESCRIPTION);
            }
            match tv {
                TypedValue::TStr(s) => {
                    r.description = s;
                },
                _ => {
                    proof {
                        assert(false);
                    }
                },
            }
        }
        proof {
            processed = processed.push(em);
        }
    }
    proof {
        assert(entries_model(es@) =~= Seq::<(u32, MTypedValue)>::empty());
        assert(processed =~= m.entries);
    }
    r
}

/// The typed records a section's record list denotes, in order.
pub open spec fn techs_of(rs: Seq<MRec>) -> Seq<MTechData>
    decreases rs,
{
    if rs.len() == 0 {
        Seq::empty()
    } else {
        seq![tech_of(rs[0])] + techs_of(rs.drop_first())
    }
}

fn build_tech_list(recs: Vec<Rec>) -> (r: Vec<TechData>)
    requires
        mrecs_wf(SchemaId::Techs, recs_model(recs@)),
    ensures
        crate::common::seq_view(r@) == techs_of(recs_model(recs@)),
    decreases recs@.len(),
{
    let mut recs = recs;
    if recs.len() == 0 {
        let r: Vec<TechData> = Vec::new();
        proof {
            assert(crate::common::seq_view(r@) =~= Seq::<MTechData>::empty());
        }
        return r;
    }
    let ghost rs0 = recs@;
    let first = recs.remove(0);
    proof {
        assert(recs@ =~= rs0.drop_first());
        assert(recs_model(rs0) == seq![rec_model(rs0[0])] + recs_model(rs0.drop_first()));
        assert(recs_model(rs0)[0] == rec_model(first));
        assert(recs_model(rs0).drop_first() =~= recs_model(recs@));
        assert(mrec_wf(SchemaId::Techs, rec_model(first)));
        assert forall|j: int| 0 <= j < recs_model(recs@).len() implies mrec_wf(
            SchemaId::Techs,
            #[trigger] recs_model(recs@)[j],
        ) by {
            assert(recs_model(recs@)[j] == recs_model(rs0)[j + 1]);
        }
    }
    let d = build_tech(first);
    let mut rest = build_tech_list(recs);
    let ghost r0 = rest@;
    rest.insert(0, d);
    proof {
        assert(rest@ =~= seq![rest@[0]] + r0);
        assert(crate::common::seq_view(rest@) =~= seq![rest@[0]@] + crate::common::seq_view(r0));
    }
    rest
}

impl TechData {
    /// Parses every record of a `#tech` section body from its tokens.
    pub fn parse_tokens(toks: &Vec<Tok>) -> (r: Result<Vec<TechData>, Diagnostic>)
        requires
            mtoks_wf(toks_model(toks@)),
        ensures
            match (r, spec_records(SchemaId::Techs, toks_model(toks@), 0)) {
                (Ok(ds), Ok(mrs)) => crate::common::seq_view(ds@) == techs_of(mrs),
                (Err(d), Err(md)) => d@ == md,
                _ => false,
            },
    {
        match crate::engine::p_records(SchemaId::Techs, toks, 0) {
            Ok(recs) => Ok(build_tech_list(recs)),
            Err(d) => Err(d),
        }
    }
}

/// Field order independence at the record level: two records with the same
/// identity whose entry lists write the same slot/value pairs, each slot
/// once, denote identical technologies, whatever the field order.
pub proof fn lemma_tech_order_independence(m1: MRec, m2: MRec)
    requires
        m1.id == m2.id,
        crate::engine::distinct_slots(m1.entries),
        crate::engine::distinct_slots(m2.entries),
        m1.entries.to_multiset() == m2.entries.to_multiset(),
    ensures
        tech_of(m1) == tech_of(m2),
{
    crate::engine::lemma_field_order_independence(m1.entries, m2.entries, F_NAME);
    crate::engine::lemma_field_order_independence(m1.entries, m2.entries, F_TIME);
    crate::engine::lemma_field_order_independence(m1.entries, m2.entries, F_DESCRIPTION);
}

} // verus!

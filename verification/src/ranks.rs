//! The ranks schema.

use vstd::prelude::*;

use crate::building::opt_str_view;
use crate::decimal::Decimal;

verus! {

/// One player rank.
#[derive(Clone, Debug, PartialEq)]
pub struct RankData {
    pub level: u16,
    pub name: String,
    pub number_of_stars: u16,
    pub stockpile_max: u16,
    pub huck_max: Decimal,
    pub description: Option<String>,
}

pub struct MRankData {
    pub level: u16,
    pub name: Seq<char>,
    pub number_of_stars: u16,
    pub stockpile_max: u16,
    pub huck_max: Decimal,
    pub description: Option<Seq<char>>,
}

impl View for RankData {
    type V = MRankData;

    open spec fn view(&self) -> MRankData {
        MRankData {
            level: self.level,
            name: self.name@,
            number_of_stars: self.number_of_stars,
            stockpile_max: self.stockpile_max,
            huck_max: self.huck_max,
            description: opt_str_view(self.description),
        }
    }
}

pub open spec fn rank_default() -> MRankData {
    MRankData {
        level: 0,
        name: Seq::empty(),
        number_of_stars: 0,
        stockpile_max: 0,
        huck_max: Decimal { mant: 0, scale: 0 },
        description: None,
    }
}

impl Default for RankData {
    fn default() -> (r: RankData)
        ensures
            r@ == rank_default(),
    {
        RankData {
            level: 0,
            name: String::new(),
            number_of_stars: 0,
            stockpile_max: 0,
            huck_max: Decimal::zero(),
            description: None,
        }
    }
}

/// The record an entry list denotes: each field holds the last occurrence
/// of its keyword, or the default.
pub open spec fn rank_of(m: crate::engine::MRec) -> Result<MRankData, crate::diag::MDiag> {
    if m.id->N_0 <= 65535 {
        Ok(MRankData {
            level: m.id->N_0 as u16,
            name: crate::engine::last_str(m.entries, crate::schema::F_NAME, Seq::empty()),
            number_of_stars: crate::engine::last_u16(m.entries, crate::schema::F_NUMBER_OF_STARS, 0),
            stockpile_max: crate::engine::last_u16(m.entries, crate::schema::F_STOCKPILE_MAX, 0),
            huck_max: crate::engine::last_dec(m.entries, crate::schema::F_HUCK_MAX, crate::decimal::Decimal { mant: 0, scale: 0 }),
            description: crate::engine::last_str_opt(m.entries, crate::schema::F_DESCRIPTION),
        })
    } else {
        Err(crate::diag::MDiag {
            kind: crate::diag::DiagKind::OutOfRange,
            start: m.id_start,
            end: m.id_end,
            expected: seq!["integer 0..=65535"@],
            found: "integer"@,
        })
    }
}

proof fn lemma_rank_entry(e: (u32, crate::schema::MTypedValue))
    requires
        crate::engine::entry_wf(crate::schema::SchemaId::Ranks, e),
    ensures
        (e.0 == crate::schema::F_NAME && e.1 is TStr) || (e.0 == crate::schema::F_NUMBER_OF_STARS && e.1 is TU16) || (e.0 == crate::schema::F_STOCKPILE_MAX && e.1 is TU16) || (e.0 == crate::schema::F_HUCK_MAX && e.1 is TDec) || (e.0 == crate::schema::F_DESCRIPTION && e.1 is TStr),
{
    reveal(crate::schema::field_of);
    let kw = choose|kw: Seq<char>|
        #![trigger crate::schema::field_of(crate::schema::SchemaId::Ranks, kw)]
        match crate::schema::field_of(crate::schema::SchemaId::Ranks, kw) {
            Some(p) => p.0 == e.0 && crate::engine::tv_matches(p.1, e.1),
            None => false,
        };
}

fn build_rank(rec: crate::engine::Rec) -> (r: Result<RankData, crate::diag::Diagnostic>)
    requires
        crate::engine::mrec_wf(crate::schema::SchemaId::Ranks, crate::engine::rec_model(rec)),
    ensures
        match (r, rank_of(crate::engine::rec_model(rec))) {
            (Ok(d), Ok(md)) => d@ == md,
            (Err(d), Err(md)) => d@ == md,
            _ => false,
        },
{
    let ghost m = crate::engine::rec_model(rec);
    let mut r = RankData::default();
    let crate::engine::Rec { id, id_start, id_end, entries } = rec;
    match id {
        crate::engine::RecId::N(x) => {
            if x <= 65535 {
                r.level = x as u16;
            } else {
                let mut exp: Vec<String> = Vec::new();
                exp.push(String::from_str("integer 0..=65535"));
                let d = crate::diag::Diagnostic {
                    kind: crate::diag::DiagKind::OutOfRange,
                    start: id_start,
                    end: id_end,
                    expected: exp,
                    found: String::from_str("integer"),
                };
                proof {
                    assert(d@.expected =~= seq!["integer 0..=65535"@]);
                }
                return Err(d);
            }
        },
        crate::engine::RecId::S(_) => {
            proof {
                assert(false);
            }
        },
    }
    let mut es = entries;
    let ghost mut processed: Seq<(u32, crate::schema::MTypedValue)> = Seq::empty();
    proof {
        assert(processed + crate::engine::entries_model(es@) =~= m.entries);
    }
    while es.len() > 0
        invariant
            processed + crate::engine::entries_model(es@) =~= m.entries,
            crate::engine::entries_ok(crate::schema::SchemaId::Ranks, crate::engine::entries_model(es@)),
            r@.level == m.id->N_0 as u16,
            r@.name == crate::engine::last_str(processed, crate::schema::F_NAME, Seq::empty()),
            r@.number_of_stars == crate::engine::last_u16(processed, crate::schema::F_NUMBER_OF_STARS, 0),
            r@.stockpile_max == crate::engine::last_u16(processed, crate::schema::F_STOCKPILE_MAX, 0),
            r@.huck_max == crate::engine::last_dec(processed, crate::schema::F_HUCK_MAX, crate::decimal::Decimal { mant: 0, scale: 0 }),
            r@.description == crate::engine::last_str_opt(processed, crate::schema::F_DESCRIPTION),
        decreases es@.len(),
    {
        let ghost es_old = es@;
        let e = es.remove(0);
        let ghost em = (e.0, crate::schema::tv_model(e.1));
        proof {
            assert(es@ =~= es_old.drop_first());
            assert(crate::engine::entries_model(es_old) == seq![(es_old[0].0, crate::schema::tv_model(es_old[0].1))]
                + crate::engine::entries_model(es_old.drop_first()));
            assert(crate::engine::entries_model(es_old)[0] == em);
            assert(crate::engine::entry_wf(crate::schema::SchemaId::Ranks, em));
            lemma_rank_entry(em);
            assert forall|j: int| 0 <= j < crate::engine::entries_model(es@).len() implies crate::engine::entry_wf(
                crate::schema::SchemaId::Ranks,
                #[trigger] crate::engine::entries_model(es@)[j],
            ) by {
                assert(crate::engine::entries_model(es@)[j] == crate::engine::entries_model(es_old)[j + 1]);
            }
            crate::engine::lemma_last_entry_push(processed, em, crate::schema::F_NAME);
            crate::engine::lemma_last_entry_push(processed, em, crate::schema::F_NUMBER_OF_STARS);
            crate::engine::lemma_last_entry_push(processed, em, crate::schema::F_STOCKPILE_MAX);
            crate::engine::lemma_last_entry_push(processed, em, crate::schema::F_HUCK_MAX);
            crate::engine::lemma_last_entry_push(processed, em, crate::schema::F_DESCRIPTION);
            assert(processed.push(em) + crate::engine::entries_model(es@) =~= m.entries);
        }
        let (fid, tv) = e;
        if fid == crate::schema::F_NAME {
            match tv {
                crate::schema::TypedValue::TStr(s) => {
                    r.name = s;
                },
                _ => {
                    proof {
                        assert(false);
                    }
                },
            }
        } else if fid == crate::schema::F_NUMBER_OF_STARS {
            match tv {
                crate::schema::TypedValue::TU16(s) => {
                    r.number_of_stars = s;
                },
                _ => {
                    proof {
                        assert(false);
                    }
                },
            }
        } else if fid == crate::schema::F_STOCKPILE_MAX {
            match tv {
                crate::schema::TypedValue::TU16(s) => {
                    r.stockpile_max = s;
                },
                _ => {
                    proof {
                        assert(false);
                    }
                },
            }
        } else if fid == crate::schema::F_HUCK_MAX {
            match tv {
                crate::schema::TypedValue::TDec(s) => {
                    r.huck_max = s;
                },
                _ => {
                    proof {
                        assert(false);
                    }
                },
            }
        } else {
            proof {
                assert(fid == crate::schema::F_DESCRIPTION);
            }
            match tv {
                crate::schema::TypedValue::TStr(s) => {
                    r.description = Some(s);
                },
                _ => {
                    proof {
                        assert(false);
                    }
                },
            }
        }
        proof {
            processed = processed.push(em);
        }
    }
    proof {
        assert(crate::engine::entries_model(es@) =~= Seq::<(u32, crate::schema::MTypedValue)>::empty());
        assert(processed =~= m.entries);
    }
    Ok(r)
}

/// The typed records a section's record list denotes, in order.
pub open spec fn ranks_of(rs: Seq<crate::engine::MRec>) -> Result<Seq<MRankData>, crate::diag::MDiag>
    decreases rs,
{
    if rs.len() == 0 {
        Ok(Seq::empty())
    } else {
        match rank_of(rs[0]) {
            Ok(d) => match ranks_of(rs.drop_first()) {
                Ok(ds) => Ok(seq![d] + ds),
                Err(e) => Err(e),
            },
            Err(e) => Err(e),
        }
    }
}

fn build_rank_list(recs: Vec<crate::engine::Rec>) -> (r: Result<Vec<RankData>, crate::diag::Diagnostic>)
    requires
        crate::engine::mrecs_wf(crate::schema::SchemaId::Ranks, crate::engine::recs_model(recs@)),
    ensures
        match (r, ranks_of(crate::engine::recs_model(recs@))) {
            (Ok(ds), Ok(mds)) => crate::common::seq_view(ds@) == mds,
            (Err(d), Err(md)) => d@ == md,
            _ => false,
        },
    decreases recs@.len(),
{
    let mut recs = recs;
    if recs.len() == 0 {
        let r: Vec<RankData> = Vec::new();
        proof {
            assert(crate::common::seq_view(r@) =~= Seq::<MRankData>::empty());
        }
        return Ok(r);
    }
    let ghost rs0 = recs@;
    let first = recs.remove(0);
    proof {
        assert(recs@ =~= rs0.drop_first());
        assert(crate::engine::recs_model(rs0) == seq![crate::engine::rec_model(rs0[0])] + crate::engine::recs_model(rs0.drop_first()));
        assert(crate::engine::recs_model(rs0)[0] == crate::engine::rec_model(first));
        assert(crate::engine::recs_model(rs0).drop_first() =~= crate::engine::recs_model(recs@));
        assert(crate::engine::mrec_wf(crate::schema::SchemaId::Ranks, crate::engine::rec_model(first)));
        assert forall|j: int| 0 <= j < crate::engine::recs_model(recs@).len() implies crate::engine::mrec_wf(
            crate::schema::SchemaId::Ranks,
            #[trigger] crate::engine::recs_model(recs@)[j],
        ) by {
            assert(crate::engine::recs_model(recs@)[j] == crate::engine::recs_model(rs0)[j + 1]);
        }
    }
    match build_rank(first) {
        Ok(d) => {
            match build_rank_list(recs) {
                Ok(mut rest) => {
                    let ghost r0 = rest@;
                    rest.insert(0, d);
                    proof {
                        assert(rest@ =~= seq![rest@[0]] + r0);
                        assert(crate::common::seq_view(rest@) =~= seq![rest@[0]@] + crate::common::seq_view(r0));
                    }
                    Ok(rest)
                },
                Err(d2) => Err(d2),
            }
        },
        Err(d2) => Err(d2),
    }
}

impl RankData {
    /// Parses every record of a ranks section body from its tokens.
    pub fn parse_tokens(toks: &Vec<crate::lexer::Tok>) -> (r: Result<Vec<RankData>, crate::diag::Diagnostic>)
        requires
            crate::lexer::mtoks_wf(crate::lexer::toks_model(toks@)),
        ensures
            match (r, crate::engine::spec_records(crate::schema::SchemaId::Ranks, crate::lexer::toks_model(toks@), 0)) {
                (Ok(ds), Ok(mrs)) => match ranks_of(mrs) {
                    Ok(mds) => crate::common::seq_view(ds@) == mds,
                    Err(_) => false,
                },
                (Err(d), Ok(mrs)) => match ranks_of(mrs) {
                    Ok(_) => false,
                    Err(md) => d@ == md,
                },
                (Err(d), Err(md)) => d@ == md,
                _ => false,
            },
    {
        match crate::engine::p_records(crate::schema::SchemaId::Ranks, toks, 0) {
            Ok(recs) => build_rank_list(recs),
            Err(d) => Err(d),
        }
    }
}

} // verus!

//! The ships schema.

use vstd::prelude::*;

use crate::decimal::Decimal;

verus! {

/// The role a ship plays.
#[derive(Clone, Copy, Debug, PartialEq, Eq, Structural, Default)]
pub enum ShipClass {
    #[default]
    Survey,
}

/// One ship design.
#[derive(Clone, Debug, PartialEq)]
pub struct ShipData {
    pub id: String,
    pub name: String,
    pub asset_location: String,
    pub ship_class: ShipClass,
    pub scale: Decimal,
    pub starts_with: bool,
}

pub struct MShipData {
    pub id: Seq<char>,
    pub name: Seq<char>,
    pub asset_location: Seq<char>,
    pub ship_class: ShipClass,
    pub scale: Decimal,
    pub starts_with: bool,
}

impl View for ShipData {
    type V = MShipData;

    open spec fn view(&self) -> MShipData {
        MShipData {
            id: self.id@,
            name: self.name@,
            asset_location: self.asset_location@,
            ship_class: self.ship_class,
            scale: self.scale,
            starts_with: self.starts_with,
        }
    }
}

pub open spec fn ship_default() -> MShipData {
    MShipData {
        id: Seq::empty(),
        name: Seq::empty(),
        asset_location: Seq::empty(),
        ship_class: ShipClass::Survey,
        scale: Decimal { mant: 0, scale: 0 },
        starts_with: false,
    }
}

impl Default for ShipData {
    fn default() -> (r: ShipData)
        ensures
            r@ == ship_default(),
    {
        ShipData {
            id: String::new(),
            name: String::new(),
            asset_location: String::new(),
            ship_class: ShipClass::Survey,
            scale: Decimal::zero(),
            starts_with: false,
        }
    }
}

/// The record an entry list denotes: each field holds the last occurrence
/// of its keyword, or the default.
pub open spec fn ship_of(m: crate::engine::MRec) -> MShipData {
    MShipData {
        id: m.id->S_0,
        name: crate::engine::last_str(m.entries, crate::schema::F_NAME, Seq::empty()),
        asset_location: crate::engine::last_str(m.entries, crate::schema::F_ASSET_LOCATION, Seq::empty()),
        ship_class: crate::engine::last_sclass(m.entries, crate::schema::F_SHIP_CLASS),
        scale: crate::engine::last_dec(m.entries, crate::schema::F_SCALE, crate::decimal::Decimal { mant: 0, scale: 0 }),
        starts_with: crate::engine::last_bool(m.entries, crate::schema::F_STARTS_WITH, false),
    }
}

proof fn lemma_ship_entry(e: (u32, crate::schema::MTypedValue))
    requires
        crate::engine::entry_wf(crate::schema::SchemaId::Ships, e),
    ensures
        (e.0 == crate::schema::F_NAME && e.1 is TStr) || (e.0 == crate::schema::F_ASSET_LOCATION && e.1 is TStr) || (e.0 == crate::schema::F_SHIP_CLASS && e.1 is TSClass) || (e.0 == crate::schema::F_SCALE && e.1 is TDec) || (e.0 == crate::schema::F_STARTS_WITH && e.1 is TBool),
{
    reveal(crate::schema::field_of);
    let kw = choose|kw: Seq<char>|
        #![trigger crate::schema::field_of(crate::schema::SchemaId::Ships, kw)]
        match crate::schema::field_of(crate::schema::SchemaId::Ships, kw) {
            Some(p) => p.0 == e.0 && crate::engine::tv_matches(p.1, e.1),
            None => false,
        };
}

fn build_ship(rec: crate::engine::Rec) -> (r: ShipData)
    requires
        crate::engine::mrec_wf(crate::schema::SchemaId::Ships, crate::engine::rec_model(rec)),
    ensures
        r@ == ship_of(crate::engine::rec_model(rec)),
{
    let ghost m = crate::engine::rec_model(rec);
    let mut r = ShipData::default();
    let crate::engine::Rec { id, id_start, id_end, entries } = rec;
    match id {
        crate::engine::RecId::S(s) => {
            r.id = s;
        },
        crate::engine::RecId::N(_) => {
            proof {
                assert(false);
            }
        },
    }
    let mut es = entries;
    let ghost mut processed: Seq<(u32, crate::schema::MTypedValue)> = Seq::empty();
    proof {
        assert(processed + crate::engine::entries_model(es@) =~= m.entries);
    }
    while es.len() > 0
        invariant
            processed + crate::engine::entries_model(es@) =~= m.entries,
            crate::engine::entries_ok(crate::schema::SchemaId::Ships, crate::engine::entries_model(es@)),
            r@.id == m.id->S_0,
            r@.name == crate::engine::last_str(processed, crate::schema::F_NAME, Seq::empty()),
            r@.asset_location == crate::engine::last_str(processed, crate::schema::F_ASSET_LOCATION, Seq::empty()),
            r@.ship_class == crate::engine::last_sclass(processed, crate::schema::F_SHIP_CLASS),
            r@.scale == crate::engine::last_dec(processed, crate::schema::F_SCALE, crate::decimal::Decimal { mant: 0, scale: 0 }),
            r@.starts_with == crate::engine::last_bool(processed, crate::schema::F_STARTS_WITH, false),
        decreases es@.len(),
    {
        let ghost es_old = es@;
        let e = es.remove(0);
        let ghost em = (e.0, crate::schema::tv_model(e.1));
        proof {
            assert(es@ =~= es_old.drop_first());
            assert(crate::engine::entries_model(es_old) == seq![(es_old[0].0, crate::schema::tv_model(es_old[0].1))]
                + crate::engine::entries_model(es_old.drop_first()));
            assert(crate::engine::entries_model(es_old)[0] == em);
            assert(crate::engine::entry_wf(crate::schema::SchemaId::Ships, em));
            lemma_ship_entry(em);
            assert forall|j: int| 0 <= j < crate::engine::entries_model(es@).len() implies crate::engine::entry_wf(
                crate::schema::SchemaId::Ships,
                #[trigger] crate::engine::entries_model(es@)[j],
            ) by {
                assert(crate::engine::entries_model(es@)[j] == crate::engine::entries_model(es_old)[j + 1]);
            }
            crate::engine::lemma_last_entry_push(processed, em, crate::schema::F_NAME);
            crate::engine::lemma_last_entry_push(processed, em, crate::schema::F_ASSET_LOCATION);
            crate::engine::lemma_last_entry_push(processed, em, crate::schema::F_SHIP_CLASS);
            crate::engine::lemma_last_entry_push(processed, em, crate::schema::F_SCALE);
            crate::engine::lemma_last_entry_push(processed, em, crate::schema::F_STARTS_WITH);
            assert(processed.push(em) + crate::engine::entries_model(es@) =~= m.entries);
        }
        let (fid, tv) = e;
        if fid == crate::schema::F_NAME {
            match tv {
                crate::schema::TypedValue::TStr(s) => {
                    r.name = s;
                },
                _ => {
                    proof {
                        assert(false);
                    }
                },
            }
        } else if fid == crate::schema::F_ASSET_LOCATION {
            match tv {
                crate::schema::TypedValue::TStr(s) => {
                    r.asset_location = s;
                },
                _ => {
                    proof {
                        assert(false);
                    }
                },
            }
        } else if fid == crate::schema::F_SHIP_CLASS {
            match tv {
                crate::schema::TypedValue::TSClass(s) => {
                    r.ship_class = s;
                },
                _ => {
                    proof {
                        assert(false);
                    }
                },
            }
        } else if fid == crate::schema::F_SCALE {
            match tv {
                crate::schema::TypedValue::TDec(s) => {
                    r.scale = s;
                },
                _ => {
                    proof {
                        assert(false);
                    }
                },
            }
        } else {
            proof {
                assert(fid == crate::schema::F_STARTS_WITH);
            }
            match tv {
                crate::schema::TypedValue::TBool(s) => {
                    r.starts_with = s;
                },
                _ => {
                    proof {
                        assert(false);
                    }
                },
            }
        }
        proof {
            processed = processed.push(em);
        }
    }
    proof {
        assert(crate::engine::entries_model(es@) =~= Seq::<(u32, crate::schema::MTypedValue)>::empty());
        assert(processed =~= m.entries);
    }
    r
}

/// The typed records a section's record list denotes, in order.
pub open spec fn ships_of(rs: Seq<crate::engine::MRec>) -> Seq<MShipData>
    decreases rs,
{
    if rs.len() == 0 {
        Seq::empty()
    } else {
        seq![ship_of(rs[0])] + ships_of(rs.drop_first())
    }
}

fn build_ship_list(recs: Vec<crate::engine::Rec>) -> (r: Vec<ShipData>)
    requires
        crate::engine::mrecs_wf(crate::schema::SchemaId::Ships, crate::engine::recs_model(recs@)),
    ensures
        crate::common::seq_view(r@) == ships_of(crate::engine::recs_model(recs@)),
    decreases recs@.len(),
{
    let mut recs = recs;
    if recs.len() == 0 {
        let r: Vec<ShipData> = Vec::new();
        proof {
            assert(crate::common::seq_view(r@) =~= Seq::<MShipData>::empty());
        }
        return r;
    }
    let ghost rs0 = recs@;
    let first = recs.remove(0);
    proof {
        assert(recs@ =~= rs0.drop_first());
        assert(crate::engine::recs_model(rs0) == seq![crate::engine::rec_model(rs0[0])] + crate::engine::recs_model(rs0.drop_first()));
        assert(crate::engine::recs_model(rs0)[0] == crate::engine::rec_model(first));
        assert(crate::engine::recs_model(rs0).drop_first() =~= crate::engine::recs_model(recs@));
        assert(crate::engine::mrec_wf(crate::schema::SchemaId::Ships, crate::engine::rec_model(first)));
        assert forall|j: int| 0 <= j < crate::engine::recs_model(recs@).len() implies crate::engine::mrec_wf(
            crate::schema::SchemaId::Ships,
            #[trigger] crate::engine::recs_model(recs@)[j],
        ) by {
            assert(crate::engine::recs_model(recs@)[j] == crate::engine::recs_model(rs0)[j + 1]);
        }
    }
    let d = build_ship(first);
    let mut rest = build_ship_list(recs);
    let ghost r0 = rest@;
    rest.insert(0, d);
    proof {
        assert(rest@ =~= seq![rest@[0]] + r0);
        assert(crate::common::seq_view(rest@) =~= seq![rest@[0]@] + crate::common::seq_view(r0));
    }
    rest
}

impl ShipData {
    /// Parses every record of a ships section body from its tokens.
    pub fn parse_tokens(toks: &Vec<crate::lexer::Tok>) -> (r: Result<Vec<ShipData>, crate::diag::Diagnostic>)
        requires
            crate::lexer::mtoks_wf(crate::lexer::toks_model(toks@)),
        ensures
            match (r, crate::engine::spec_records(crate::schema::SchemaId::Ships, crate::lexer::toks_model(toks@), 0)) {
                (Ok(ds), Ok(mrs)) => crate::common::seq_view(ds@) == ships_of(mrs),
                (Err(d), Err(md)) => d@ == md,
                _ => false,
            },
    {
        match crate::engine::p_records(crate::schema::SchemaId::Ships, toks, 0) {
            Ok(recs) => Ok(build_ship_list(recs)),
            Err(d) => Err(d),
        }
    }
}

} // verus!

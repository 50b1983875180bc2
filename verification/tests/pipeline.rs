//! End-to-end tests of the document pipeline: sections, records, fields,
//! defaults, and diagnostics.

use stardata::decimal::Decimal;
use stardata::diag::DiagKind;
use stardata::goods::{ConsumptionType, GoodType};
use stardata::lexer::{lex, TokKind};
use stardata::parse;
use stardata::tech::TechData;

fn dec(mant: i128, scale: u32) -> Decimal {
    Decimal { mant, scale }
}

#[test]
fn single_tech_record() {
    let pd = parse("a.dat", "#tech \"warp\" { name = \"Warp\" time = 3 description = \"d\" }")
        .unwrap();
    assert_eq!(pd.tech_data.len(), 1);
    let t = &pd.tech_data[0];
    assert_eq!(t.id, "warp");
    assert_eq!(t.name, "Warp");
    assert_eq!(t.time, 3);
    assert_eq!(t.description, "d");
}

#[test]
fn field_order_independence() {
    let a = parse("a", "#tech \"t\" { name = \"x\" time = 3 description = \"d\" }").unwrap();
    let b = parse("b", "#tech \"t\" { description = \"d\" time = 3 name = \"x\" }").unwrap();
    assert_eq!(a.tech_data, b.tech_data);
}

#[test]
fn last_write_wins() {
    let pd = parse("a", "#tech \"t\" { name = \"A\" name = \"B\" }").unwrap();
    assert_eq!(pd.tech_data[0].name, "B");
}

#[test]
fn defaults_apply_when_fields_are_absent() {
    let pd = parse("a", "#tech \"t\" { }").unwrap();
    let t = &pd.tech_data[0];
    assert_eq!(t.name, "");
    assert_eq!(t.time, 0);
    let pd2 = parse("a", "#buildings \"b\" { }").unwrap();
    assert_eq!(pd2.building_data[0].prosperity_per_job, dec(1, 0));
}

#[test]
fn out_of_range_integer_fails_not_wraps() {
    let err = parse("a", "#tech \"t\" { time = 300 }").unwrap_err();
    assert_eq!(err.diag.kind, DiagKind::OutOfRange);
    let err2 = parse("a", "#asteroid_mining 300 { }").unwrap_err();
    assert_eq!(err2.diag.kind, DiagKind::OutOfRange);
}

#[test]
fn empty_list_is_empty_collection() {
    let pd = parse("a", "#orbital 1 { consumes = [] }").unwrap();
    assert_eq!(pd.orbital_data.len(), 1);
    assert!(pd.orbital_data[0].costs.is_empty());
}

#[test]
fn unknown_section_marker_span_is_exact() {
    let err = parse("a", "#bogus \"x\" { }").unwrap_err();
    assert_eq!(err.diag.kind, DiagKind::UnknownSection);
    assert_eq!(err.diag.start, 0);
    assert_eq!(err.diag.end, 6);
    assert_eq!(err.diag.found, "bogus");
}

#[test]
fn unterminated_list_reports_eof_with_location() {
    let src = "#buildings \"b\" { costs = [ { good_id=\"ore\" amount=2.0 }";
    let err = parse("a", src).unwrap_err();
    assert_eq!(err.diag.kind, DiagKind::UnexpectedEof);
    assert!(err.diag.start <= src.chars().count());
    assert!(err.line >= 1);
    assert!(err.col >= 1);
}

#[test]
fn unknown_field_names_keyword_and_expected_set() {
    let err = parse("a", "#tech \"t\" { speed = 3 }").unwrap_err();
    assert_eq!(err.diag.kind, DiagKind::UnknownField);
    assert_eq!(err.diag.found, "speed");
    assert!(err.diag.expected.iter().any(|k| k == "time"));
}

#[test]
fn lexical_error_aborts_with_offset() {
    let err = parse("a", "#tech \"t\" { time = 3 } %").unwrap_err();
    assert_eq!(err.diag.kind, DiagKind::Lexical);
}

#[test]
fn comments_and_whitespace_are_skipped() {
    let pd = parse("a", "// leading note\n#tech // after marker\n\"t\" { time = 2 // set\n }")
        .unwrap();
    assert_eq!(pd.tech_data[0].time, 2);
}

#[test]
fn decimal_point_means_decimal_token() {
    let toks = lex("2.5 25 -3").unwrap();
    assert!(matches!(toks[0].kind, TokKind::DecLit(d) if d == Decimal { mant: 25, scale: 1 }));
    assert!(matches!(toks[1].kind, TokKind::IntLit(25)));
    assert!(matches!(toks[2].kind, TokKind::DecLit(d) if d == Decimal { mant: -3, scale: 0 }));
}

#[test]
fn token_spans_are_half_open() {
    let toks = lex("ab \"cd\"").unwrap();
    assert_eq!((toks[0].start, toks[0].end), (0, 2));
    assert_eq!((toks[1].start, toks[1].end), (3, 7));
}

#[test]
fn goods_section_with_survival_block() {
    let src = "#goods \"water\" { name = \"Water\" good_type = private buy_value = 1.25 \
               consumption_type = survival { temperature = 15.5 served_step = 2 } }";
    let pd = parse("a", src).unwrap();
    let g = &pd.goods_data[0];
    assert_eq!(g.good_type, GoodType::Private);
    assert_eq!(g.buy_value, dec(125, 2));
    match &g.consumption_type {
        ConsumptionType::Survival(s) => {
            assert_eq!(s.temperature, Some(dec(155, 1)));
            assert_eq!(s.served_step, dec(2, 0));
            assert_eq!(s.magnetosphere, None);
        },
        other => panic!("wrong consumption type {:?}", other),
    }
}

#[test]
fn building_with_nested_lists() {
    let src = "#buildings \"mine\" { name = \"Mine\" costs = [ { good_id = \"ore\" amount = 2.0 } \
               { good_id = \"fuel\" amount = 0.5 } ] housing = 12 \
               build_planets = [ \"rocky\", orbital(\"ring\") ] \
               magnetosphere_equilibrium = { added = 1.5 rate = 0.25 } initial = true }";
    let pd = parse("a", src).unwrap();
    let b = &pd.building_data[0];
    assert_eq!(b.costs.len(), 2);
    assert_eq!(b.costs[1].id, "fuel");
    assert_eq!(b.costs[1].amount, dec(5, 1));
    assert_eq!(b.housing, 12);
    assert_eq!(b.planet_filters.len(), 2);
    assert_eq!(b.magnetosphere_equilibrium.added_equilibrium, dec(15, 1));
    assert!(b.initial);
    assert_eq!(b.tech_needed, None);
}

#[test]
fn repeated_sections_concatenate_in_order() {
    let pd = parse("a", "#tech \"a\" { } #goods \"g\" { } #tech \"b\" { }").unwrap();
    assert_eq!(pd.tech_data.len(), 2);
    assert_eq!(pd.tech_data[0].id, "a");
    assert_eq!(pd.tech_data[1].id, "b");
    assert_eq!(pd.goods_data.len(), 1);
}

#[test]
fn combine_concatenates_each_list_in_input_order() {
    let mut a = parse("a", "#tech \"a\" { }").unwrap();
    let b = parse("b", "#tech \"b\" { } #goods \"g\" { }").unwrap();
    a.combine(b);
    assert_eq!(a.tech_data.len(), 2);
    assert_eq!(a.tech_data[0].id, "a");
    assert_eq!(a.tech_data[1].id, "b");
    assert_eq!(a.goods_data.len(), 1);
}

#[test]
fn parse_tokens_is_usable_directly() {
    let toks = lex("\"t\" { time = 9 }").unwrap();
    let techs = TechData::parse_tokens(&toks).unwrap();
    assert_eq!(techs[0].time, 9);
}

#[test]
fn report_message_carries_location_and_expectations() {
    let err = parse("data.dat", "#tech \"t\" {\n  speed = 3 }").unwrap_err();
    assert_eq!(err.line, 2);
    let msg = err.message();
    assert!(msg.starts_with("data.dat:2:"));
    assert!(msg.contains("unknown field keyword"));
    assert!(msg.contains("found speed"));
}

#[test]
fn leading_junk_before_first_marker_fails() {
    let err = parse("a", "junk #tech \"t\" { }").unwrap_err();
    assert_eq!(err.diag.kind, DiagKind::UnexpectedToken);
}

#[test]
fn number_too_wide_for_the_lexer_fails() {
    let err = parse("a", "#tech \"t\" { time = 1234567890123456789 }").unwrap_err();
    assert_eq!(err.diag.kind, DiagKind::Lexical);
}

#[test]
fn wrong_value_kind_is_reported() {
    let err = parse("a", "#tech \"t\" { name = 3 }").unwrap_err();
    assert_eq!(err.diag.kind, DiagKind::BadValue);
    assert!(err.diag.expected.iter().any(|k| k == "string"));
    assert_eq!(err.diag.found, "integer");
}

#[test]
fn missing_assign_is_an_unexpected_token() {
    let err = parse("a", "#tech \"t\" { name \"x\" }").unwrap_err();
    assert_eq!(err.diag.kind, DiagKind::UnexpectedToken);
    assert!(err.diag.expected.iter().any(|k| k == "'='"));
}

#[test]
fn bare_hash_without_a_name_fails() {
    let err = parse("a", "#").unwrap_err();
    assert_eq!(err.diag.kind, DiagKind::UnexpectedToken);
}

#[test]
fn split_document_yields_typed_sections() {
    let secs = stardata::split_document("#tech \"t\" { } #goods ").unwrap();
    assert_eq!(secs.len(), 2);
    assert!(matches!(&secs[0], stardata::Section::Tech(_)));
    assert!(matches!(&secs[1], stardata::Section::Goods(_)));
    match &secs[0] {
        stardata::Section::Tech(body) => assert_eq!(body, " \"t\" { } "),
        _ => unreachable!(),
    }
}

#[test]
fn record_id_comes_from_the_source_literal() {
    let pd = parse("a", "#shipyard 9 { name = \"Dock\" }").unwrap();
    assert_eq!(pd.shipyard[0].level, 9);
    let pd2 = parse("a", "#goods \"iron_ore\" { }").unwrap();
    assert_eq!(pd2.goods_data[0].id, "iron_ore");
}

#[test]
fn designation_tags_parse() {
    let toks = lex("\"hub\" { building_limit = Unlimited housing = unmanaged \
                    private_buildings = always }")
        .unwrap();
    let d = &stardata::designation::DesignationData::parse_tokens(&toks).unwrap()[0];
    assert_eq!(d.building_limit, stardata::designation::BuildingLimit::Unlimited);
    assert_eq!(d.housing, stardata::designation::Housing::Unmanaged);
    assert_eq!(d.private_buildings, stardata::designation::PrivateBuildings::Always);
    assert_eq!(d.tech_required, None);
}

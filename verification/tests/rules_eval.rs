//! Tests of the rule sub-language: the parsed tree and the documented
//! evaluation-order contract of its clauses.

use stardata::decimal::Decimal;
use stardata::common::Temperature;
use stardata::parse;
use stardata::planet_types::{Action, Condition, PlanetClass, Value};
use stardata::rules::{selected_clause, NamedText, NamedValue, PlanetState, SelectedClause};

fn dec(mant: i128, scale: u32) -> Decimal {
    Decimal { mant, scale }
}

fn state(star: &str, water: i128) -> PlanetState {
    PlanetState {
        oxygen_level: dec(0, 0),
        temperature: Temperature { kelvin_exact: dec(300, 0) },
        water_level: dec(water, 0),
        magnetosphere: dec(0, 0),
        atmosphere: dec(0, 0),
        star_type: star.to_string(),
        abundances: Vec::new(),
        stored_strings: Vec::new(),
    }
}

const SRC: &str = "#planet_types \"earthlike\" { class = rocky \
    goods_abundance = [ { good_id = \"iron\" mean = 2.5 std_dev = 0.5 } ] \
    set_asset = \"planets/earth\" \
    setup = if (EQ(star_type, \"G\") & GT(water_level, 5)) { set_asset(\"A\") } \
            if (EQ(star_type, \"G\")) { set_asset(\"B\") } \
            else { set_asset(\"C\") } }";

#[test]
fn planet_type_record_parses() {
    let pd = parse("a", SRC).unwrap();
    let p = &pd.planet_type_data[0];
    assert_eq!(p.name, "earthlike");
    assert_eq!(p.planet_class, PlanetClass::Rocky);
    assert_eq!(p.abundances[0].id, "iron");
    assert_eq!(p.abundances[0].mean, dec(25, 1));
    assert_eq!(p.asset_location, "planets/earth");
    assert_eq!(p.setup_conditions.len(), 1);
    let b = &p.setup_conditions[0];
    assert_eq!(b.if_conditions.len(), 2);
    assert_eq!(b.if_conditions[0].conditions.len(), 2);
    assert_eq!(b.if_conditions[0].actions, vec![Action::SetAsset("A".to_string())]);
    assert_eq!(b.if_conditions[1].actions, vec![Action::SetAsset("B".to_string())]);
    assert_eq!(b.else_actions, vec![Action::SetAsset("C".to_string())]);
    match &b.if_conditions[0].conditions[0] {
        Condition::Eq(Value::StarType, Value::String(s)) => assert_eq!(s, "G"),
        other => panic!("wrong condition {:?}", other),
    }
}

#[test]
fn first_matching_clause_wins() {
    let pd = parse("a", SRC).unwrap();
    let b = &pd.planet_type_data[0].setup_conditions[0];
    assert_eq!(selected_clause(b, &state("G", 7)), SelectedClause::Clause(0));
}

#[test]
fn later_clause_applies_when_earlier_fails() {
    let pd = parse("a", SRC).unwrap();
    let b = &pd.planet_type_data[0].setup_conditions[0];
    assert_eq!(selected_clause(b, &state("G", 1)), SelectedClause::Clause(1));
}

#[test]
fn fallback_applies_when_no_clause_matches() {
    let pd = parse("a", SRC).unwrap();
    let b = &pd.planet_type_data[0].setup_conditions[0];
    assert_eq!(selected_clause(b, &state("M", 7)), SelectedClause::Fallback);
}

#[test]
fn branch_without_else_is_a_no_op_when_nothing_matches() {
    let src = "#planet_types \"p\" { setup = if (GT(water_level, 5)) { set_asset(\"A\") } }";
    let pd = parse("a", src).unwrap();
    let b = &pd.planet_type_data[0].setup_conditions[0];
    assert_eq!(selected_clause(b, &state("G", 1)), SelectedClause::NoMatch);
}

#[test]
fn terraform_branches_and_nested_actions() {
    let src = "#planet_types \"p\" { on_terraform = [ \
        { if (GE(oxygen_level, 2)) { set_planet_type(\"lush\") stored(\"mood\", \"wet\") } } \
        { if (EQ(stored(\"mood\"), \"wet\")) { rand_of_string(\"tint\", [\"blue\" \"teal\"]) } } ] }";
    let pd = parse("a", src).unwrap();
    let p = &pd.planet_type_data[0];
    assert_eq!(p.terraform_conditions.len(), 2);
    assert_eq!(
        p.terraform_conditions[0].if_conditions[0].actions,
        vec![
            Action::SetPlanetType("lush".to_string()),
            Action::SetStored("mood".to_string(), "wet".to_string()),
        ],
    );
    assert_eq!(
        p.terraform_conditions[1].if_conditions[0].actions,
        vec![Action::SetStoredRandom(
            "tint".to_string(),
            vec!["blue".to_string(), "teal".to_string()],
        )],
    );
}

#[test]
fn lookups_resolve_against_the_state() {
    let src = "#planet_types \"p\" { setup = \
        if (GE(goods_base(\"iron\"), 2) & EQ(stored(\"mood\"), \"wet\")) { set_asset(\"A\") } }";
    let pd = parse("a", src).unwrap();
    let b = &pd.planet_type_data[0].setup_conditions[0];
    let mut st = state("G", 0);
    st.abundances.push(NamedValue { name: "iron".to_string(), value: dec(3, 0) });
    st.stored_strings.push(NamedText { name: "mood".to_string(), value: "wet".to_string() });
    assert_eq!(selected_clause(b, &st), SelectedClause::Clause(0));
    st.stored_strings[0].value = "dry".to_string();
    assert_eq!(selected_clause(b, &st), SelectedClause::NoMatch);
}

#[test]
fn numeric_comparison_crosses_scales() {
    let src = "#planet_types \"p\" { setup = if (EQ(water_level, 2.50)) { set_asset(\"A\") } }";
    let pd = parse("a", src).unwrap();
    let b = &pd.planet_type_data[0].setup_conditions[0];
    let mut st = state("G", 0);
    st.water_level = dec(25, 1);
    assert_eq!(selected_clause(b, &st), SelectedClause::Clause(0));
}

#[test]
fn temperature_accessors_truncate_to_two_digits() {
    let src = "#planet_types \"p\" { setup = if (EQ(temperature_celsius, 26.85)) { set_asset(\"A\") } }";
    let pd = parse("a", src).unwrap();
    let b = &pd.planet_type_data[0].setup_conditions[0];
    let mut st = state("G", 0);
    st.temperature = Temperature::from_kelvin(dec(300, 0));
    assert_eq!(selected_clause(b, &st), SelectedClause::Clause(0));
}

//! Round-trip tests: for every schema, a canonical re-renderer writes a
//! parsed record back out, and re-parsing the rendered text reproduces an
//! equivalent record.

use stardata::building::PlanetFilter;
use stardata::decimal::Decimal;
use stardata::goods::ConsumptionType;
use stardata::lexer::lex;
use stardata::parse;
use stardata::planet_types::{Action, Branch, Condition, Value};
use stardata::ranks::RankData;
use stardata::ship::ShipData;
use stardata::shipyard_buildings::ShipyardBuildingData;
use stardata::designation::{BuildingLimit, DesignationData, PrivateBuildings, Housing};
use stardata::stellar_system::{MoonData, PlanetData, StellarData, StellarObject};

fn dtxt(d: &Decimal) -> String {
    let neg = d.mant < 0;
    let mag = if neg { -(d.mant) } else { d.mant };
    let digits = mag.to_string();
    let scale = d.scale as usize;
    let body = if scale == 0 {
        digits
    } else {
        let padded = if digits.len() <= scale {
            let mut p = "0".repeat(scale + 1 - digits.len());
            p.push_str(&digits);
            p
        } else {
            digits
        };
        let cut = padded.len() - scale;
        format!("{}.{}", &padded[..cut], &padded[cut..])
    };
    if neg {
        format!("-{}", body)
    } else {
        body
    }
}

fn q(s: &str) -> String {
    format!("\"{}\"", s)
}

fn goods_list(gs: &[stardata::common::GoodConsumes]) -> String {
    let mut out = String::from("[ ");
    for g in gs {
        out.push_str(&format!("{{ good_id = {} amount = {} }} ", q(&g.id), dtxt(&g.amount)));
    }
    out.push(']');
    out
}

fn cgoods_list(gs: &[stardata::building::CustomGood]) -> String {
    let mut out = String::from("[ ");
    for g in gs {
        out.push_str(&format!("{{ good_id = {} amount = {} }} ", q(&g.id), dtxt(&g.amount)));
    }
    out.push(']');
    out
}

fn value_txt(v: &Value) -> String {
    match v {
        Value::Decimal(d) => dtxt(d),
        Value::OxygenLevel => "oxygen_level".to_string(),
        Value::TemperatureCelsius => "temperature_celsius".to_string(),
        Value::TemperatureKelvin => "temperature_kelvin".to_string(),
        Value::WaterLevel => "water_level".to_string(),
        Value::Magnetosphere => "magnetosphere".to_string(),
        Value::Atmosphere => "atmosphere".to_string(),
        Value::GoodsAbundance(s) => format!("goods_base({})", q(s)),
        Value::StarType => "star_type".to_string(),
        Value::String(s) => q(s),
        Value::StringLookup(s) => format!("stored({})", q(s)),
    }
}

fn cond_txt(c: &Condition) -> String {
    let (op, a, b) = match c {
        Condition::Eq(a, b) => ("EQ", a, b),
        Condition::Ne(a, b) => ("NE", a, b),
        Condition::Gt(a, b) => ("GT", a, b),
        Condition::Ge(a, b) => ("GE", a, b),
        Condition::Lt(a, b) => ("LT", a, b),
        Condition::Le(a, b) => ("LE", a, b),
    };
    format!("{}({}, {})", op, value_txt(a), value_txt(b))
}

fn actions_txt(actions: &[Action]) -> String {
    let mut out = String::new();
    for a in actions {
        match a {
            Action::NoOp => {},
            Action::SetAsset(s) => out.push_str(&format!("set_asset({}) ", q(s))),
            Action::SetPlanetType(s) => out.push_str(&format!("set_planet_type({}) ", q(s))),
            Action::SetStored(k, v) => out.push_str(&format!("stored({}, {}) ", q(k), q(v))),
            Action::SetStoredRandom(k, vs) => {
                out.push_str(&format!("rand_of_string({}, [ ", q(k)));
                for v in vs {
                    out.push_str(&q(v));
                    out.push(' ');
                }
                out.push_str("]) ");
            },
            Action::Branch(b) => {
                out.push_str(&branch_txt(b));
                out.push(' ');
            },
        }
    }
    out
}

fn branch_txt(b: &Branch) -> String {
    let mut out = String::new();
    for cl in &b.if_conditions {
        out.push_str("if (");
        for (i, c) in cl.conditions.iter().enumerate() {
            if i > 0 {
                out.push_str(" & ");
            }
            out.push_str(&cond_txt(c));
        }
        out.push_str(") { ");
        out.push_str(&actions_txt(&cl.actions));
        out.push_str("} ");
    }
    if !b.else_actions.is_empty() {
        out.push_str("else { ");
        out.push_str(&actions_txt(&b.else_actions));
        out.push_str("} ");
    }
    out
}

fn planet_body(p: &PlanetData) -> String {
    let mut out = String::from("{ ");
    out.push_str(&format!("name = {} asset_location = {} size = {} planet_type = {} ",
        q(&p.name), q(&p.asset_location), p.size, q(&p.planet_type)));
    out.push_str(&format!("magnetosphere = {} atmosphere = {} temperature_kelvin = {} ",
        dtxt(&p.magnetosphere), dtxt(&p.atmosphere), dtxt(&p.temperature.kelvin_exact)));
    out.push_str(&format!("water = {} breathability = {} ring = {} ",
        dtxt(&p.water), dtxt(&p.breathability), p.ring));
    out.push_str("natural_resources = [ ");
    for nr in &p.natural_resources {
        out.push_str(&format!("{{ good_id = {} amount = {} }} ", q(&nr.id), dtxt(&nr.amount)));
    }
    out.push_str("] moon_data = [ ");
    for m in &p.moons {
        out.push_str(&moon_body(m));
        out.push(' ');
    }
    out.push_str("] }");
    out
}

fn moon_body(m: &MoonData) -> String {
    let mut out = String::from("{ ");
    out.push_str(&format!("name = {} asset_location = {} size = {} planet_type = {} ",
        q(&m.name), q(&m.asset_location), m.size, q(&m.planet_type)));
    out.push_str(&format!("magnetosphere = {} atmosphere = {} temperature_kelvin = {} ",
        dtxt(&m.magnetosphere), dtxt(&m.atmosphere), dtxt(&m.temperature.kelvin_exact)));
    out.push_str(&format!("water = {} breathability = {} ", dtxt(&m.water), dtxt(&m.breathability)));
    out.push_str("natural_resources = [ ");
    for nr in &m.natural_resources {
        out.push_str(&format!("{{ good_id = {} amount = {} }} ", q(&nr.id), dtxt(&nr.amount)));
    }
    out.push_str("] }");
    out
}

fn roundtrip(src: &str) {
    let a = parse("first", src).unwrap();
    let mut out = String::new();
    for t in &a.tech_data {
        out.push_str(&format!("#tech {} {{ name = {} time = {} description = {} }}\n",
            q(&t.id), q(&t.name), t.time, q(&t.description)));
    }
    for g in &a.goods_data {
        out.push_str(&format!("#goods {} {{ ", q(&g.id)));
        if let Some(h) = g.hardcoded_id {
            out.push_str(&format!("hardcoded_id = {} ", h));
        }
        out.push_str(&format!("icon = {} name = {} ", q(&g.icon), q(&g.name)));
        let gt = match g.good_type {
            stardata::goods::GoodType::Public => "public",
            stardata::goods::GoodType::Private => "private",
            stardata::goods::GoodType::Tender => "tender",
        };
        out.push_str(&format!("good_type = {} ", gt));
        match &g.consumption_type {
            ConsumptionType::NotConsumed => out.push_str("consumption_type = none "),
            ConsumptionType::Amenity => out.push_str("consumption_type = amenity "),
            ConsumptionType::Essential => out.push_str("consumption_type = essential "),
            ConsumptionType::Survival(s) => {
                out.push_str("consumption_type = survival { ");
                if let Some(d) = &s.magnetosphere {
                    out.push_str(&format!("magnetosphere = {} ", dtxt(d)));
                }
                if let Some(d) = &s.atmosphere {
                    out.push_str(&format!("atmosphere = {} ", dtxt(d)));
                }
                if let Some(d) = &s.temperature {
                    out.push_str(&format!("temperature = {} ", dtxt(d)));
                }
                if let Some(d) = &s.water {
                    out.push_str(&format!("water = {} ", dtxt(d)));
                }
                if let Some(d) = &s.breathability {
                    out.push_str(&format!("breathability = {} ", dtxt(d)));
                }
                out.push_str(&format!("served_step = {} lack_of_service_penalty = {} }} ",
                    dtxt(&s.served_step), dtxt(&s.lack_of_service_penalty)));
            },
        }
        out.push_str(&format!(
            "prosperity_bonus = {} prosperity_cost = {} buy_value = {} sell_value = {} }}\n",
            dtxt(&g.prosperity_bonus), dtxt(&g.prosperity_cost), dtxt(&g.buy_value),
            dtxt(&g.sell_value)));
    }
    for b in &a.building_data {
        out.push_str(&format!("#buildings {} {{ name = {} ", q(&b.id), q(&b.name)));
        out.push_str("build_planets = [ ");
        for f in &b.planet_filters {
            match f {
                PlanetFilter::PlanetSide(s) => out.push_str(&format!("{} ", q(s))),
                PlanetFilter::Orbital(s) => out.push_str(&format!("orbital({}) ", q(s))),
            }
        }
        out.push_str("] ");
        out.push_str(&format!("initial = {} unique = {} energy = {} private_cost = {} ",
            b.initial, b.unique, dtxt(&b.energy), dtxt(&b.private_costs)));
        out.push_str("stations = [ ");
        for st in &b.stations {
            out.push_str(&format!("{{ x = {} y = {} z = {} scale = {} path = {} }} ",
                dtxt(&st.x), dtxt(&st.y), dtxt(&st.z), dtxt(&st.scale), q(&st.path)));
        }
        out.push_str("] ");
        out.push_str(&format!("costs = {} consumes = {} upkeep = {} produces = {} ",
            cgoods_list(&b.costs), cgoods_list(&b.consumes), cgoods_list(&b.upkeep),
            cgoods_list(&b.produces)));
        out.push_str(&format!("housing = {} workers = {} private_sector = {} ",
            b.housing, b.workers, b.private_sector));
        out.push_str(&format!(
            "magnetosphere_equilibrium = {{ added = {} rate = {} }} \
             atmosphere_equilibrium = {{ added = {} rate = {} }} ",
            dtxt(&b.magnetosphere_equilibrium.added_equilibrium),
            dtxt(&b.magnetosphere_equilibrium.rate),
            dtxt(&b.atmosphere_equilibrium.added_equilibrium),
            dtxt(&b.atmosphere_equilibrium.rate)));
        out.push_str(&format!(
            "temperature_change = {} water_change = {} breathable_change = {} ",
            dtxt(&b.temperature_change), dtxt(&b.water_change), dtxt(&b.breathable_change)));
        if let Some(t) = &b.tech_needed {
            out.push_str(&format!("tech_needed = {} ", q(t)));
        }
        if let Some(t) = &b.upgrades_from {
            out.push_str(&format!("upgrades_from = {} ", q(t)));
        }
        out.push_str(&format!("prosperity_per_job = {} }}\n", dtxt(&b.prosperity_per_job)));
    }
    for o in &a.orbital_data {
        out.push_str(&format!(
            "#orbital {} {{ name = {} asset_location = {} consumes = {} time = {} \
             building_limit = {} }}\n",
            o.level, q(&o.name), q(&o.asset_location), goods_list(&o.costs), o.time,
            o.building_limit));
    }
    for s in &a.shipyard {
        out.push_str(&format!(
            "#shipyard {} {{ name = {} asset_location = {} consumes = {} time = {} }}\n",
            s.level, q(&s.name), q(&s.asset_location), goods_list(&s.costs), s.time));
    }
    for m in &a.asteroid_mining {
        out.push_str(&format!(
            "#asteroid_mining {} {{ name = {} depot_asset = {} ship_asset = {} consumes = {} \
             produces = {} power = {} time = {} }}\n",
            m.level, q(&m.name), q(&m.depot_asset), q(&m.ship_asset), goods_list(&m.costs),
            goods_list(&m.produces), dtxt(&m.power), m.time));
    }
    for s in &a.stapledon {
        out.push_str(&format!(
            "#stapledon_swarm {} {{ name = {} swarm_asset = {} receiver_asset = {} power = {} \
             time = {} consumes = {} upkeep = {} }}\n",
            s.level, q(&s.name), q(&s.swarm_asset), q(&s.receiver_asset), dtxt(&s.power), s.time,
            goods_list(&s.costs), goods_list(&s.upkeep)));
    }
    for g in &a.augmentations {
        out.push_str(&format!("#augmentations {} {{ name = {} icon = {} consumes = {} effects = [ ",
            q(&g.id), q(&g.name), q(&g.icon), goods_list(&g.consumes)));
        for e in &g.effects {
            match e {
                stardata::augmentations::Effect::AdaptStarType => out.push_str("star_adapt "),
                stardata::augmentations::Effect::AddTrait(s) => {
                    out.push_str(&format!("add_trait({}) ", q(s)))
                },
                stardata::augmentations::Effect::RemoveTrait(s) => {
                    out.push_str(&format!("remove_trait({}) ", q(s)))
                },
            }
        }
        out.push_str("] }\n");
    }
    for t in &a.species_trait {
        out.push_str(&format!("#specie_traits {} {{ name = {} icon = {} consumes = {} effects = [ ",
            q(&t.id), q(&t.name), q(&t.icon), goods_list(&t.consumes)));
        for e in &t.effects {
            match e {
                stardata::species_trait::Effect::GrowthRate(d) => {
                    out.push_str(&format!("growth_rate({}) ", dtxt(d)))
                },
            }
        }
        out.push_str("] }\n");
    }
    for p in &a.planet_type_data {
        out.push_str(&format!("#planet_types {} {{ ", q(&p.name)));
        let cls = match p.planet_class {
            stardata::planet_types::PlanetClass::Rocky => "rocky",
            stardata::planet_types::PlanetClass::Atmospheric => "atmospheric",
            stardata::planet_types::PlanetClass::Gas => "gas",
        };
        out.push_str(&format!("class = {} set_asset = {} goods_abundance = [ ", cls,
            q(&p.asset_location)));
        for ab in &p.abundances {
            out.push_str(&format!("{{ good_id = {} mean = {} std_dev = {} }} ", q(&ab.id),
                dtxt(&ab.mean), dtxt(&ab.std_dev)));
        }
        out.push_str("] ");
        for b in &p.setup_conditions {
            out.push_str("setup = ");
            out.push_str(&branch_txt(b));
        }
        out.push_str("on_terraform = [ ");
        for b in &p.terraform_conditions {
            out.push_str("{ ");
            out.push_str(&branch_txt(b));
            out.push_str("} ");
        }
        out.push_str("] }\n");
    }
    let b = parse("second", &out).unwrap_or_else(|e| panic!("re-parse failed: {}", e.message()));
    assert_eq!(a.tech_data, b.tech_data);
    assert_eq!(a.goods_data, b.goods_data);
    assert_eq!(a.building_data, b.building_data);
    assert_eq!(a.orbital_data, b.orbital_data);
    assert_eq!(a.shipyard, b.shipyard);
    assert_eq!(a.asteroid_mining, b.asteroid_mining);
    assert_eq!(a.stapledon, b.stapledon);
    assert_eq!(a.augmentations, b.augmentations);
    assert_eq!(a.species_trait, b.species_trait);
    assert_eq!(a.planet_type_data, b.planet_type_data);
}

#[test]
fn round_trip_tech() {
    roundtrip("#tech \"warp\" { name = \"Warp\" time = 12 description = \"faster\" }");
}

#[test]
fn round_trip_goods() {
    roundtrip(
        "#goods \"water\" { hardcoded_id = 4 icon = \"i\" name = \"Water\" good_type = tender \
         consumption_type = survival { temperature = -12.5 served_step = 2 } \
         prosperity_bonus = 0.25 prosperity_cost = 1 buy_value = 3.50 sell_value = 2 }",
    );
}

#[test]
fn round_trip_buildings() {
    roundtrip(
        "#buildings \"mine\" { name = \"Mine\" build_planets = [ \"rocky\" orbital(\"ring\") ] \
         initial = true unique = false energy = -2.5 private_cost = 10 \
         stations = [ { x = 1.5 y = -2.0 z = 0.25 scale = 1.0 path = \"m/station\" } ] \
         costs = [ { good_id = \"ore\" amount = 2.0 } ] consumes = [] upkeep = [] \
         produces = [ { good_id = \"metal\" amount = 1.0 } ] housing = 4 workers = 9 \
         private_sector = true magnetosphere_equilibrium = { added = 0.5 rate = 0.1 } \
         atmosphere_equilibrium = { added = 1.5 rate = 2 } temperature_change = 0.5 \
         water_change = 0 breathable_change = -1.25 tech_needed = \"warp\" \
         prosperity_per_job = 2.5 }",
    );
}

#[test]
fn round_trip_levelled_schemas() {
    roundtrip(
        "#orbital 3 { name = \"Ring\" asset_location = \"a\" consumes = [ { good_id = \"ore\" \
         amount = 1.5 } ] time = 7 building_limit = 4 } \
         #shipyard 2 { name = \"Dock\" asset_location = \"d\" consumes = [] time = 3 } \
         #asteroid_mining 1 { name = \"Belt\" depot_asset = \"dp\" ship_asset = \"sh\" \
         consumes = [] produces = [ { good_id = \"ore\" amount = 4.0 } ] power = 2.5 time = 9 } \
         #stapledon_swarm 5 { name = \"Swarm\" swarm_asset = \"sw\" receiver_asset = \"rx\" \
         power = 100 time = 30 consumes = [] upkeep = [ { good_id = \"fuel\" amount = 0.1 } ] }",
    );
}

#[test]
fn round_trip_traits_and_augmentations() {
    roundtrip(
        "#augmentations \"gills\" { name = \"Gills\" icon = \"i\" consumes = [] \
         effects = [ star_adapt add_trait(\"aquatic\") remove_trait(\"dry\") ] } \
         #specie_traits \"hardy\" { name = \"Hardy\" icon = \"j\" \
         consumes = [ { good_id = \"food\" amount = 0.5 } ] effects = [ growth_rate(1.25) ] }",
    );
}

#[test]
fn round_trip_planet_types_with_rules() {
    roundtrip(
        "#planet_types \"earthlike\" { class = atmospheric set_asset = \"p/earth\" \
         goods_abundance = [ { good_id = \"iron\" mean = 2.5 std_dev = 0.5 } ] \
         setup = if (EQ(star_type, \"G\") & GT(water_level, 5)) { set_asset(\"A\") } \
                 if (LT(oxygen_level, 0.5)) { if (NE(stored(\"x\"), \"y\")) { set_planet_type(\"dry\") } } \
                 else { stored(\"mood\", \"wet\") rand_of_string(\"tint\", [\"blue\" \"teal\"]) } \
         on_terraform = [ { if (GE(goods_base(\"iron\"), 1)) { set_asset(\"B\") } } ] }",
    );
}

#[test]
fn round_trip_ships_ranks_designations_upgrades_systems() {
    // These schemas have no section marker; they round-trip through their
    // own token parsers.
    let ship_src = "\"scout\" { name = \"Scout\" asset_location = \"s\" ship_class = survey \
                    scale = 0.5 starts_with = true }";
    let ships = ShipData::parse_tokens(&lex(ship_src).unwrap()).unwrap();
    let s = &ships[0];
    let ship_out = format!(
        "{} {{ name = {} asset_location = {} ship_class = survey scale = {} starts_with = {} }}",
        q(&s.id), q(&s.name), q(&s.asset_location), dtxt(&s.scale), s.starts_with);
    assert_eq!(ships, ShipData::parse_tokens(&lex(&ship_out).unwrap()).unwrap());

    let rank_src = "7 { name = \"Admiral\" number_of_stars = 5 stockpile_max = 900 \
                    huck_max = 12.5 description = \"top\" }";
    let ranks = RankData::parse_tokens(&lex(rank_src).unwrap()).unwrap();
    let r = &ranks[0];
    let rank_out = format!(
        "{} {{ name = {} number_of_stars = {} stockpile_max = {} huck_max = {} description = {} }}",
        r.level, q(&r.name), r.number_of_stars, r.stockpile_max, dtxt(&r.huck_max),
        q(r.description.as_ref().unwrap()));
    assert_eq!(ranks, RankData::parse_tokens(&lex(&rank_out).unwrap()).unwrap());

    let des_src = "\"farm\" { name = \"Farm\" description = \"food\" \
                   building_limit = limited(6) housing = managend \
                   population_impact = { growth = -0.5 min_population = 2 } \
                   tech_required = \"agri\" build_planets = [ \"lush\" ] \
                   private_buildings = min_population(3) }";
    let des = DesignationData::parse_tokens(&lex(des_src).unwrap()).unwrap();
    let d = &des[0];
    assert_eq!(d.building_limit, BuildingLimit::Limited(6));
    assert_eq!(d.housing, Housing::Managed);
    assert_eq!(d.private_buildings, PrivateBuildings::MinPopulation(3));
    let des_out = format!(
        "{} {{ name = {} description = {} building_limit = limited(6) housing = managend \
         population_impact = {{ growth = {} min_population = {} }} tech_required = {} \
         build_planets = [ \"lush\" ] private_buildings = min_population(3) }}",
        q(&d.id), q(&d.name), q(&d.description), dtxt(&d.population_impact.growth),
        d.population_impact.min_population, q(d.tech_required.as_ref().unwrap()));
    assert_eq!(des, DesignationData::parse_tokens(&lex(&des_out).unwrap()).unwrap());

    let up_src = "\"cannon\" { name = \"Cannon\" level_required = 2 base_strength = 5.5 \
                  fleet_strength = 1.25 costs = [ { good_id = \"metal\" amount = 4.0 } ] \
                  upkeep = 0.5 power = 2 time = 6 }";
    let ups = ShipyardBuildingData::parse_tokens(&lex(up_src).unwrap()).unwrap();
    let u = &ups[0];
    let up_out = format!(
        "{} {{ name = {} level_required = {} base_strength = {} fleet_strength = {} costs = {} \
         upkeep = {} power = {} time = {} }}",
        q(&u.id), q(&u.name), u.level_required, dtxt(&u.base_strength), dtxt(&u.fleet_strength),
        cgoods_list(&u.costs), dtxt(&u.upkeep), dtxt(&u.power), u.time);
    assert_eq!(ups, ShipyardBuildingData::parse_tokens(&lex(&up_out).unwrap()).unwrap());

    let sys_src = "42 { star_data = { name = \"Sol\" asset_location = \"st\" size = 90 \
                   temperature_celsius = 5500.25 star_type = \"G\" } \
                   planet_data = [ { name = \"Earth\" size = 10 planet_type = \"earthlike\" \
                   water = 7.5 ring = false temperature_kelvin = 288 \
                   natural_resources = [ { good_id = \"iron\" amount = 3.0 } ] \
                   moon_data = [ { name = \"Moon\" size = 3 temperature_kelvin = 250 } ] } ] \
                   asteroid_belt = [ { name = \"Belt\" size = 1 } ] surveyed = true }";
    let sys = StellarData::parse_tokens(&lex(sys_src).unwrap()).unwrap();
    let y = &sys[0];
    assert_eq!(y.id, 42);
    assert_eq!(y.orbiting.len(), 2);
    let mut sys_out = format!(
        "{} {{ star_data = {{ name = {} asset_location = {} size = {} temperature_kelvin = {} \
         star_type = {} }} planet_data = [ ",
        y.id, q(&y.star_data.name), q(&y.star_data.asset_location), y.star_data.size,
        dtxt(&y.star_data.temperature.kelvin_exact), q(&y.star_data.star_type));
    let mut belts: Vec<&Vec<PlanetData>> = Vec::new();
    for ob in &y.orbiting {
        match ob {
            StellarObject::PlanetData(p) => {
                sys_out.push_str(&planet_body(p));
                sys_out.push(' ');
            },
            StellarObject::AsteroidBelt(ps) => belts.push(ps),
        }
    }
    sys_out.push_str("] asteroid_belt = [ ");
    for ps in belts {
        for p in ps {
            sys_out.push_str(&planet_body(p));
            sys_out.push(' ');
        }
    }
    sys_out.push_str(&format!("] surveyed = {} }}", y.surveyed));
    assert_eq!(sys, StellarData::parse_tokens(&lex(&sys_out).unwrap()).unwrap());
}

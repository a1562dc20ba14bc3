//! Tests of the domain model: percentage bounds, pace decodings and
//! rendering, enum wire codes and display strings, and category matching.

use courselib::categories::Categories;
use courselib::course::{Course, Points};
use courselib::domain::{Category, Difficulty, Language, Site, Time};
use courselib::filter::PeriodSelectMode;
use courselib::pace::Pace;
use courselib::percentage::Percentage;

#[test]
fn percentage_accepts_exactly_the_range() {
    for v in 0..=100i8 {
        let p = Percentage::new(v).expect("in-range value must be accepted");
        assert_eq!(p.get(), v);
    }
    assert!(Percentage::new(-1).is_err());
    assert!(Percentage::new(101).is_err());
    assert!(Percentage::new(i8::MIN).is_err());
    assert!(Percentage::new(i8::MAX).is_err());
}

#[test]
fn percentage_renders_with_percent_sign() {
    assert_eq!(Percentage::new(0).unwrap().render(), "0%");
    assert_eq!(Percentage::new(7).unwrap().render(), "7%");
    assert_eq!(Percentage::new(50).unwrap().render(), "50%");
    assert_eq!(Percentage::new(100).unwrap().render(), "100%");
}

#[test]
fn pace_long_form_parses() {
    let p = Pace::parse_long("Dagtid 50").expect("valid long form");
    assert_eq!(p.time, Time::Day);
    assert_eq!(p.percentage.get(), 50);

    let p = Pace::parse_long("Veckoslut 100").expect("valid long form");
    assert_eq!(p.time, Time::Weekend);
    assert_eq!(p.percentage.get(), 100);

    let p = Pace::parse_long("Blandad undervisningstid 25").expect("time display with spaces");
    assert_eq!(p.time, Time::Mixed);
    assert_eq!(p.percentage.get(), 25);
}

#[test]
fn pace_long_form_is_case_insensitive_in_the_time() {
    let p = Pace::parse_long("dagtid 75").expect("ASCII case must not matter");
    assert_eq!(p.time, Time::Day);
    assert_eq!(p.percentage.get(), 75);
    let p = Pace::parse_long("VECKOSLUT 10").expect("ASCII case must not matter");
    assert_eq!(p.time, Time::Weekend);
}

#[test]
fn pace_long_form_rejects_malformed_input() {
    assert!(Pace::parse_long("Dagtid").is_none());
    assert!(Pace::parse_long("Dagtid x").is_none());
    assert!(Pace::parse_long("Dagtid 101").is_none());
    assert!(Pace::parse_long("Dagtid -5").is_none());
    assert!(Pace::parse_long("Nattetid 50").is_none());
    assert!(Pace::parse_long("").is_none());
    assert!(Pace::parse_long("50").is_none());
}

#[test]
fn pace_long_form_round_trips_to_canonical_rendering() {
    for (input, expected) in [
        ("Dagtid 50", "Dagtid 50%"),
        ("Veckoslut 0", "Veckoslut 0%"),
        ("Blandad undervisningstid 100", "Blandad undervisningstid 100%"),
        ("dagtid 7", "Dagtid 7%"),
    ] {
        let p = Pace::parse_long(input).expect("valid long form");
        assert_eq!(p.render(), expected);
    }
}

#[test]
fn pace_wire_form_decodes() {
    let p = Pace::parse_wire("d50").expect("valid wire form");
    assert_eq!(p.time, Time::Day);
    assert_eq!(p.percentage.get(), 50);

    let p = Pace::parse_wire("w0").expect("valid wire form");
    assert_eq!(p.time, Time::Weekend);
    assert_eq!(p.percentage.get(), 0);

    let p = Pace::parse_wire("m100").expect("valid wire form");
    assert_eq!(p.time, Time::Mixed);
    assert_eq!(p.percentage.get(), 100);

    let p = Pace::parse_wire("d007").expect("leading zeros are digits");
    assert_eq!(p.percentage.get(), 7);
}

#[test]
fn pace_wire_form_rejects_malformed_input() {
    assert!(Pace::parse_wire("x50").is_err());
    assert!(Pace::parse_wire("d150").is_err());
    assert!(Pace::parse_wire("d").is_err());
    assert!(Pace::parse_wire("").is_err());
    assert!(Pace::parse_wire("d1o").is_err());
    assert!(Pace::parse_wire("50").is_err());
    assert!(Pace::parse_wire("d-5").is_err());
}

#[test]
fn site_wire_codes_decode_to_distinct_values() {
    let codes = ["st", "pt", "sk", "lu", "kr", "li"];
    let mut seen = Vec::new();
    for code in codes {
        let v = Site::from_wire(code).expect("declared code must decode");
        assert!(!seen.contains(&v), "codes must decode to distinct values");
        seen.push(v);
    }
    assert_eq!(Site::from_wire("st").unwrap(), Site::Stockholm);
    assert_eq!(Site::from_wire("li").unwrap(), Site::LocationIndependent);
}

#[test]
fn site_unknown_code_names_value_and_allowed_set() {
    let e = Site::from_wire("xx").expect_err("unknown code must fail");
    assert_eq!(e.received, "xx");
    assert_eq!(e.allowed, vec!["st", "pt", "sk", "lu", "kr", "li"]);
}

#[test]
fn language_wire_codes_decode_to_distinct_values() {
    assert_eq!(Language::from_wire("sv").unwrap(), Language::Swedish);
    assert_eq!(Language::from_wire("en").unwrap(), Language::English);
    let e = Language::from_wire("de").expect_err("unknown code must fail");
    assert_eq!(e.received, "de");
    assert_eq!(e.allowed, vec!["sv", "en"]);
}

#[test]
fn difficulty_wire_codes_decode_to_distinct_values() {
    let codes = ["pr", "ug", "ad", "cu", "ca", "iu"];
    let mut seen = Vec::new();
    for code in codes {
        let v = Difficulty::from_wire(code).expect("declared code must decode");
        assert!(!seen.contains(&v));
        seen.push(v);
    }
    assert_eq!(Difficulty::from_wire("pr").unwrap(), Difficulty::Preparatory);
    assert_eq!(
        Difficulty::from_wire("iu").unwrap(),
        Difficulty::IntroductoryUndergraduate
    );
    let e = Difficulty::from_wire("zz").expect_err("unknown code must fail");
    assert_eq!(e.received, "zz");
    assert_eq!(e.allowed, vec!["pr", "ug", "ad", "cu", "ca", "iu"]);
}

#[test]
fn category_wire_codes_decode_to_distinct_values() {
    let codes = [
        "dat", "eco", "env", "hth", "law", "edu", "mus", "soc", "tec", "med", "ind", "lng",
        "mat", "inf", "hum", "bhv",
    ];
    let mut seen = Vec::new();
    for code in codes {
        let v = Category::from_wire(code).expect("declared code must decode");
        assert!(!seen.contains(&v), "codes must decode to distinct values");
        seen.push(v);
    }
    assert_eq!(Category::from_wire("dat").unwrap(), Category::Data);
    assert_eq!(Category::from_wire("bhv").unwrap(), Category::Behavioral);
    let e = Category::from_wire("zzz").expect_err("unknown code must fail");
    assert_eq!(e.received, "zzz");
    assert_eq!(e.allowed, codes.to_vec());
}

#[test]
fn display_strings_round_trip_for_every_variant() {
    for t in [Time::Day, Time::Weekend, Time::Mixed] {
        assert_eq!(Time::from_display(t.display_name()).unwrap(), t);
    }
    for s in [
        Site::Stockholm,
        Site::Pitea,
        Site::Skelleftea,
        Site::Lulea,
        Site::Kiruna,
        Site::LocationIndependent,
    ] {
        assert_eq!(Site::from_display(s.display_name()).unwrap(), s);
    }
    for l in [Language::Swedish, Language::English] {
        assert_eq!(Language::from_display(l.display_name()).unwrap(), l);
    }
    for d in [
        Difficulty::Preparatory,
        Difficulty::Undergraduate,
        Difficulty::Advanced,
        Difficulty::ContinuationUndergraduate,
        Difficulty::ContinuationAdvanced,
        Difficulty::IntroductoryUndergraduate,
    ] {
        assert_eq!(Difficulty::from_display(d.display_name()).unwrap(), d);
    }
    for c in [
        Category::Data,
        Category::Economy,
        Category::Environment,
        Category::Health,
        Category::Law,
        Category::Education,
        Category::Music,
        Category::Social,
        Category::Technology,
        Category::Media,
        Category::Interdisciplinary,
        Category::Language,
        Category::Mathematics,
        Category::Information,
        Category::Humanities,
        Category::Behavioral,
    ] {
        assert_eq!(Category::from_display(c.display_name()).unwrap(), c);
    }
}

#[test]
fn unknown_display_string_names_value_and_allowed_set() {
    let e = Site::from_display("Uppsala").expect_err("unknown display string must fail");
    assert_eq!(e.received, "Uppsala");
    assert_eq!(
        e.allowed,
        vec!["Stockholm", "Piteå", "Skellefteå", "Luleå", "Kiruna", "Ortsoberoende"]
    );
    let e = Time::from_display("Nattetid").expect_err("unknown display string must fail");
    assert_eq!(e.received, "Nattetid");
    assert_eq!(e.allowed, vec!["Dagtid", "Veckoslut", "Blandad undervisningstid"]);
}

#[test]
fn sample_display_strings_are_canonical() {
    assert_eq!(Site::Pitea.display_name(), "Piteå");
    assert_eq!(Difficulty::Advanced.display_name(), "Avancerad nivå");
    assert_eq!(Category::Data.display_name(), "Data och IT");
    assert_eq!(Time::Mixed.display_name(), "Blandad undervisningstid");
    assert_eq!(Language::English.display_name(), "Engelska");
    assert!(Site::from_display("stockholm").is_err(), "site match is case-sensitive");
}

#[test]
fn categories_matching_predicates() {
    let stored = Categories::new(vec![Category::Data, Category::Technology]);
    assert!(stored.matches_any(&vec![Category::Data]));
    assert!(!stored.matches_all(&vec![Category::Data, Category::Law]));
    assert!(stored.matches_all(&vec![Category::Data]));
    assert!(stored.matches_all(&vec![Category::Data, Category::Technology]));
    assert!(!stored.matches_any(&vec![Category::Law, Category::Music]));
    assert!(stored.matches_any(&vec![Category::Law, Category::Technology]));
}

#[test]
fn categories_edge_cases() {
    let stored = Categories::new(vec![Category::Data, Category::Technology]);
    assert!(!stored.matches_any(&vec![]), "nothing intersects the empty request");
    assert!(stored.matches_all(&vec![]), "the empty request is always contained");
    let empty = Categories::default();
    assert!(!empty.matches_any(&vec![Category::Data]));
    assert!(!empty.matches_all(&vec![Category::Data]));
    assert!(empty.matches_all(&vec![]));
}

#[test]
fn course_record_carries_all_attributes() {
    let course = Course {
        code: "D0009N".to_string(),
        name_se: "Programmering".to_string(),
        name_en: Some("Programming".to_string()),
        url: "https://example.invalid/D0009N".to_string(),
        points: Points::new(75),
        pace: Some(Pace::new(Time::Day, Percentage::new(50).unwrap())),
        prerequisites: None,
        register_info: None,
        modules: None,
        period_start: Some(3),
        period_end: Some(1),
        site: Some(Site::Lulea),
        language: Some(Language::Swedish),
        difficulty: Difficulty::Undergraduate,
        categories: Categories::new(vec![Category::Data, Category::Technology]),
        conduct: None,
    };
    assert_eq!(course.points.render(), "7.5");
    assert_eq!(course.pace.unwrap().render(), "Dagtid 50%");
    assert!(course.categories.matches_any(&vec![Category::Data]));
    // The wrapped period range 3..=1 spans the year boundary.
    assert!(PeriodSelectMode::Spans.matches(
        course.period_start.unwrap(),
        course.period_end.unwrap(),
        4
    ));
}

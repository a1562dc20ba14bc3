//! Tests of the filter request, the select modes, and the query builder:
//! validation short-circuits, condition ordering, escaping, pagination and
//! determinism.

use courselib::course::Points;
use courselib::domain::{Category, Difficulty, Language, Site, Time};
use courselib::filter::{CategorySelectMode, FilterRequest, PeriodSelectMode};
use courselib::pace::Pace;
use courselib::percentage::Percentage;
use courselib::query::{build_search_query, course_by_id_query, format_conditions};
use courselib::text;

const SELECT_BASE: &str = "SELECT code, name_se, name_en, url, points, pace, prerequisites, register_info, modules, period_start, period_end, site, language, difficulty, categories, conduct FROM courses";

#[test]
fn no_filters_yields_condition_free_paginated_query() {
    let req = FilterRequest::default();
    let q = build_search_query(&req).expect("no filters is a valid request");
    assert_eq!(q, format!("{} ORDER BY id OFFSET 0 LIMIT 20", SELECT_BASE));

    let req = FilterRequest { page: 3, ..FilterRequest::default() };
    let q = build_search_query(&req).expect("no filters is a valid request");
    assert_eq!(q, format!("{} ORDER BY id OFFSET 60 LIMIT 20", SELECT_BASE));
}

#[test]
fn invalid_code_pattern_is_rejected_before_composition() {
    for bad in ["abc123", "ABC12", "ABC1234", "ABCD1!", "abcdef", "ABC 12", ""] {
        let req = FilterRequest {
            code_pattern: Some(bad.to_string()),
            ..FilterRequest::default()
        };
        assert!(
            format_conditions(&req).is_err(),
            "pattern {:?} must be rejected",
            bad
        );
        assert!(build_search_query(&req).is_err());
    }
}

#[test]
fn valid_code_pattern_is_interpolated_quoted() {
    let req = FilterRequest {
        code_pattern: Some("D0009N".to_string()),
        ..FilterRequest::default()
    };
    let q = build_search_query(&req).expect("a valid pattern passes");
    assert_eq!(
        q,
        format!(
            "{} WHERE code ILIKE 'D0009N' ORDER BY id OFFSET 0 LIMIT 20",
            SELECT_BASE
        )
    );
}

#[test]
fn empty_site_set_equals_omitted_site_filter() {
    let base = FilterRequest {
        points: Some(Points::new(75)),
        ..FilterRequest::default()
    };
    let with_empty_sites = FilterRequest { sites: vec![], ..base.clone() };
    let q1 = build_search_query(&base).unwrap();
    let q2 = build_search_query(&with_empty_sites).unwrap();
    assert_eq!(q1, q2, "an empty site set must not change the query");
    assert!(!q1.contains("site in"), "no site condition may appear");
    assert_eq!(
        q1,
        format!("{} WHERE points = 7.5 ORDER BY id OFFSET 0 LIMIT 20", SELECT_BASE)
    );
}

#[test]
fn identical_requests_yield_byte_identical_queries() {
    let req = FilterRequest {
        page: 2,
        code_pattern: Some("AB_12X".to_string()),
        name_pattern: Some("logik".to_string()),
        sites: vec![Site::Lulea],
        categories: vec![Category::Data],
        ..FilterRequest::default()
    };
    let q1 = build_search_query(&req).unwrap();
    let q2 = build_search_query(&req).unwrap();
    assert_eq!(q1, q2);
}

#[test]
fn full_request_composes_every_condition_in_order() {
    let req = FilterRequest {
        page: 1,
        code_pattern: Some("D0009N".to_string()),
        name_pattern: Some("a!b c".to_string()),
        points: Some(Points::new(75)),
        paces: vec![Pace::new(Time::Day, Percentage::new(50).unwrap())],
        period: Some(2),
        period_select_mode: PeriodSelectMode::Spans,
        sites: vec![Site::Stockholm, Site::Lulea],
        languages: vec![Language::Swedish],
        difficulties: vec![Difficulty::Advanced],
        categories: vec![Category::Data, Category::Law],
        category_select_mode: CategorySelectMode::All,
    };
    let q = build_search_query(&req).unwrap();
    let expected = format!(
        "{} WHERE code ILIKE 'D0009N' AND points = 7.5 AND pace in ('Dagtid 50%') AND CASE WHEN period_start <= period_end THEN (2 >= period_start AND 2 <= period_end) ELSE (2 >= period_start OR 2 <= period_end) END AND site in ('Stockholm','Luleå') AND language in ('Svenska') AND difficulty in ('Avancerad nivå') AND ARRAY['Data och IT','Juridik och rättsvetenskap']::category_enum[] <@ categories AND (REGEXP_REPLACE(name_se, '[^\\pL\\d\\s]', '', 'g') ILIKE '%ab c%' OR REGEXP_REPLACE(name_en, '[^\\pL\\d\\s]', '', 'g') ILIKE '%ab c%') ORDER BY id OFFSET 20 LIMIT 20",
        SELECT_BASE
    );
    assert_eq!(q, expected);
}

#[test]
fn multi_value_sets_join_with_commas() {
    let req = FilterRequest {
        paces: vec![
            Pace::new(Time::Day, Percentage::new(50).unwrap()),
            Pace::new(Time::Mixed, Percentage::new(100).unwrap()),
        ],
        languages: vec![Language::Swedish, Language::English],
        ..FilterRequest::default()
    };
    assert_eq!(
        format_conditions(&req).unwrap(),
        "WHERE pace in ('Dagtid 50%','Blandad undervisningstid 100%') AND language in ('Svenska','Engelska')"
    );
}

#[test]
fn period_modes_produce_their_conditions() {
    for (mode, expected) in [
        (PeriodSelectMode::Only, "WHERE period_start = 3 AND period_end = 3"),
        (PeriodSelectMode::Starts, "WHERE period_start = 3"),
        (PeriodSelectMode::Ends, "WHERE period_end = 3"),
    ] {
        let req = FilterRequest {
            period: Some(3),
            period_select_mode: mode,
            ..FilterRequest::default()
        };
        assert_eq!(format_conditions(&req).unwrap(), expected);
    }
}

#[test]
fn category_any_mode_uses_overlap_operator() {
    let req = FilterRequest {
        categories: vec![Category::Technology],
        category_select_mode: CategorySelectMode::Any,
        ..FilterRequest::default()
    };
    assert_eq!(
        format_conditions(&req).unwrap(),
        "WHERE ARRAY['Teknik']::category_enum[] && categories"
    );
}

#[test]
fn name_pattern_is_sanitized_before_interpolation() {
    let req = FilterRequest {
        name_pattern: Some("O'Brien; DROP--".to_string()),
        ..FilterRequest::default()
    };
    let q = build_search_query(&req).unwrap();
    assert!(q.contains("ILIKE '%OBrien DROP%'"), "query was: {}", q);
    assert!(!q.contains('\u{27}') || !q.contains("O'Brien"), "raw quote must not survive");
}

#[test]
fn sanitize_strips_special_characters_only() {
    assert_eq!(text::sanitize("a!b-c"), "abc");
    assert_eq!(text::sanitize("åäö 123"), "åäö 123");
    assert_eq!(text::sanitize("O'Brien; DROP--"), "OBrien DROP");
    assert_eq!(text::sanitize(""), "");
    assert_eq!(text::sanitize("&%'\\\""), "");
}

#[test]
fn period_select_modes_decode_and_match() {
    assert_eq!(PeriodSelectMode::from_wire("only").unwrap(), PeriodSelectMode::Only);
    assert_eq!(PeriodSelectMode::from_wire("starts").unwrap(), PeriodSelectMode::Starts);
    assert_eq!(PeriodSelectMode::from_wire("ends").unwrap(), PeriodSelectMode::Ends);
    assert_eq!(PeriodSelectMode::from_wire("spans").unwrap(), PeriodSelectMode::Spans);
    let e = PeriodSelectMode::from_wire("never").expect_err("unknown mode must fail");
    assert_eq!(e.received, "never");
    assert_eq!(e.allowed, vec!["only", "starts", "ends", "spans"]);
    assert_eq!(PeriodSelectMode::default(), PeriodSelectMode::Only);
}

#[test]
fn spans_mode_is_circular_over_the_period_range() {
    let spans = PeriodSelectMode::Spans;
    // Wrapped range 3..=1 contains 3, 4 and 1, not 2.
    assert!(spans.matches(3, 1, 3));
    assert!(spans.matches(3, 1, 4));
    assert!(spans.matches(3, 1, 1));
    assert!(!spans.matches(3, 1, 2));
    // Plain range 1..=3 contains 1, 2 and 3, not 4.
    assert!(spans.matches(1, 3, 1));
    assert!(spans.matches(1, 3, 2));
    assert!(spans.matches(1, 3, 3));
    assert!(!spans.matches(1, 3, 4));
    // A one-period range contains exactly that period.
    assert!(spans.matches(2, 2, 2));
    assert!(!spans.matches(2, 2, 3));
}

#[test]
fn non_span_modes_compare_endpoints() {
    assert!(PeriodSelectMode::Only.matches(2, 2, 2));
    assert!(!PeriodSelectMode::Only.matches(2, 3, 2));
    assert!(PeriodSelectMode::Starts.matches(2, 4, 2));
    assert!(!PeriodSelectMode::Starts.matches(3, 2, 2));
    assert!(PeriodSelectMode::Ends.matches(1, 2, 2));
    assert!(!PeriodSelectMode::Ends.matches(2, 3, 2));
}

#[test]
fn category_select_modes_decode() {
    assert_eq!(CategorySelectMode::from_wire("any").unwrap(), CategorySelectMode::Any);
    assert_eq!(CategorySelectMode::from_wire("all").unwrap(), CategorySelectMode::All);
    let e = CategorySelectMode::from_wire("some").expect_err("unknown mode must fail");
    assert_eq!(e.received, "some");
    assert_eq!(e.allowed, vec!["any", "all"]);
    assert_eq!(CategorySelectMode::default(), CategorySelectMode::Any);
}

#[test]
fn points_render_in_decimal_tenths() {
    assert_eq!(Points::new(75).render(), "7.5");
    assert_eq!(Points::new(70).render(), "7");
    assert_eq!(Points::new(0).render(), "0");
    assert_eq!(Points::new(105).render(), "10.5");
    assert_eq!(Points::new(300).render(), "30");
}

#[test]
fn decimal_rendering_is_exact() {
    assert_eq!(text::u64_to_dec(0), "0");
    assert_eq!(text::u64_to_dec(7), "7");
    assert_eq!(text::u64_to_dec(10), "10");
    assert_eq!(text::u64_to_dec(100), "100");
    assert_eq!(text::u64_to_dec(12345), "12345");
}

#[test]
fn course_by_id_query_binds_its_parameter() {
    assert_eq!(
        course_by_id_query(),
        format!("{} WHERE id = $1", SELECT_BASE)
    );
}

#[test]
fn empty_multi_value_sets_contribute_no_condition() {
    let req = FilterRequest {
        paces: vec![],
        sites: vec![],
        languages: vec![],
        difficulties: vec![],
        categories: vec![],
        ..FilterRequest::default()
    };
    assert_eq!(format_conditions(&req).unwrap(), "");
}

use city_locations::assemble::{assemble, assemble_all};
use city_locations::error::ErrorResponse;
use city_locations::featured::featured_order;
use city_locations::language::Language;
use city_locations::model::{ElasticCity, ElasticRegion};
use city_locations::numfmt::dec_u64;
use city_locations::repo::{classify_city, classify_region, search_request, SEARCH_LIMIT};

fn names(pairs: &[(&str, &str)]) -> Vec<(String, String)> {
    pairs.iter().map(|(k, v)| (k.to_string(), v.to_string())).collect()
}

fn city(id: u64, iso: &str, pairs: &[(&str, &str)]) -> ElasticCity {
    ElasticCity {
        id,
        is_featured: true,
        country_iso: iso.to_string(),
        region_id: 100 + id,
        names: names(pairs),
    }
}

fn region(id: u64, iso: &str, pairs: &[(&str, &str)]) -> ElasticRegion {
    ElasticRegion { id, country_iso: iso.to_string(), names: names(pairs) }
}

#[test]
fn name_key_per_language() {
    assert_eq!(Language::CS.name_key(), "name.cs");
    assert_eq!(Language::DE.name_key(), "name.de");
    assert_eq!(Language::EN.name_key(), "name.en");
    assert_eq!(Language::PL.name_key(), "name.pl");
    assert_eq!(Language::SK.name_key(), "name.sk");
}

#[test]
fn preferred_country_per_language() {
    assert_eq!(Language::CS.preferred_country_iso(), "CZ");
    assert_eq!(Language::DE.preferred_country_iso(), "DE");
    assert_eq!(Language::EN.preferred_country_iso(), "CZ");
    assert_eq!(Language::PL.preferred_country_iso(), "PL");
    assert_eq!(Language::SK.preferred_country_iso(), "SK");
}

#[test]
fn decimal_rendering() {
    assert_eq!(dec_u64(0), "0");
    assert_eq!(dec_u64(7), "7");
    assert_eq!(dec_u64(10), "10");
    assert_eq!(dec_u64(123), "123");
    assert_eq!(dec_u64(65535), "65535");
    assert_eq!(dec_u64(u64::MAX), "18446744073709551615");
}

#[test]
fn classify_absent_city_is_not_found() {
    let r = classify_city(404, Err("no body".to_string()), 123);
    match r {
        Err(ErrorResponse::NotFound(m)) => assert_eq!(m, "City#123 not found."),
        _ => panic!("expected NotFound"),
    }
}

#[test]
fn classify_absent_region_is_not_found() {
    let r = classify_region(404, Err("no body".to_string()), 9);
    match r {
        Err(ErrorResponse::NotFound(m)) => assert_eq!(m, "Region#9 not found."),
        _ => panic!("expected NotFound"),
    }
}

#[test]
fn classify_backend_fault_is_internal_error() {
    for status in [500u16, 503, 201, 301, 403] {
        let r = classify_city(status, Ok(city(1, "CZ", &[])), 1);
        match r {
            Err(ErrorResponse::InternalServerError(m)) => {
                assert_eq!(m, format!("ES response {}.", status));
            }
            _ => panic!("expected InternalServerError for status {}", status),
        }
    }
}

#[test]
fn classify_success_returns_entity() {
    let r = classify_city(200, Ok(city(42, "CZ", &[("name.en", "Prague")])), 42);
    let c = r.expect("expected Ok");
    assert_eq!(c.id, 42);
    assert_eq!(c.country_iso, "CZ");
}

#[test]
fn classify_undecodable_body_is_internal_error() {
    let r = classify_region(200, Err("bad payload".to_string()), 5);
    match r {
        Err(ErrorResponse::InternalServerError(m)) => assert_eq!(m, "bad payload"),
        _ => panic!("expected InternalServerError"),
    }
}

#[test]
fn error_kind_maps_to_http_status() {
    assert_eq!(ErrorResponse::NotFound("x".to_string()).http_status(), 404);
    assert_eq!(ErrorResponse::BadRequest("x".to_string()).http_status(), 400);
    assert_eq!(ErrorResponse::InternalServerError("x".to_string()).http_status(), 500);
}

#[test]
fn assemble_localizes_both_names() {
    let c = city(1, "CZ", &[("name.en", "Prague"), ("name.cs", "Praha")]);
    let reg = region(101, "CZ", &[("name.en", "Central Bohemia"), ("name.cs", "Stredocesky")]);
    let r = assemble(c, Ok(reg), Language::EN).expect("expected Ok");
    assert_eq!(r.id, 1);
    assert!(r.is_featured);
    assert_eq!(r.country_iso, "CZ");
    assert_eq!(r.name, "Prague");
    assert_eq!(r.region_name, "Central Bohemia");
}

#[test]
fn assemble_missing_city_key_is_bad_request() {
    let c = city(1, "CZ", &[("name.en", "Prague")]);
    let reg = region(101, "CZ", &[("name.de", "Mittelboehmen")]);
    match assemble(c, Ok(reg), Language::DE) {
        Err(ErrorResponse::BadRequest(key)) => assert_eq!(key, "name.de"),
        _ => panic!("expected BadRequest"),
    }
}

#[test]
fn assemble_missing_region_key_is_bad_request() {
    let c = city(1, "CZ", &[("name.pl", "Praga")]);
    let reg = region(101, "CZ", &[("name.en", "Central Bohemia")]);
    match assemble(c, Ok(reg), Language::PL) {
        Err(ErrorResponse::BadRequest(key)) => assert_eq!(key, "name.pl"),
        _ => panic!("expected BadRequest"),
    }
}

#[test]
fn assemble_propagates_region_fetch_error() {
    let c = city(1, "CZ", &[("name.en", "Prague")]);
    let e = ErrorResponse::NotFound("Region#101 not found.".to_string());
    match assemble(c, Err(e), Language::EN) {
        Err(ErrorResponse::NotFound(m)) => assert_eq!(m, "Region#101 not found."),
        _ => panic!("expected NotFound"),
    }
}

#[test]
fn assemble_all_preserves_input_order() {
    let cities = vec![
        city(3, "CZ", &[("name.en", "Third")]),
        city(1, "CZ", &[("name.en", "First")]),
        city(2, "CZ", &[("name.en", "Second")]),
    ];
    let regions = vec![
        Ok(region(103, "CZ", &[("name.en", "R3")])),
        Ok(region(101, "CZ", &[("name.en", "R1")])),
        Ok(region(102, "CZ", &[("name.en", "R2")])),
    ];
    let out = assemble_all(cities, regions, Language::EN).expect("expected Ok");
    let ids: Vec<u64> = out.iter().map(|r| r.id).collect();
    assert_eq!(ids, vec![3, 1, 2]);
    let names: Vec<&str> = out.iter().map(|r| r.name.as_str()).collect();
    assert_eq!(names, vec!["Third", "First", "Second"]);
    let region_names: Vec<&str> = out.iter().map(|r| r.region_name.as_str()).collect();
    assert_eq!(region_names, vec!["R3", "R1", "R2"]);
}

#[test]
fn assemble_all_empty_input_is_empty_output() {
    let out = assemble_all(Vec::new(), Vec::new(), Language::EN).expect("expected Ok");
    assert!(out.is_empty());
}

#[test]
fn assemble_all_fails_fast_with_first_error() {
    let cities = vec![
        city(1, "CZ", &[("name.en", "First")]),
        city(2, "CZ", &[("name.en", "Second")]),
        city(3, "CZ", &[("name.en", "Third")]),
    ];
    let regions = vec![
        Ok(region(101, "CZ", &[("name.en", "R1")])),
        Err(ErrorResponse::NotFound("Region#102 not found.".to_string())),
        Err(ErrorResponse::InternalServerError("ES response 503.".to_string())),
    ];
    match assemble_all(cities, regions, Language::EN) {
        Err(ErrorResponse::NotFound(m)) => assert_eq!(m, "Region#102 not found."),
        _ => panic!("expected the first failing entry's NotFound"),
    }
}

#[test]
fn assemble_all_no_partial_results_on_failure() {
    let cities = vec![
        city(1, "CZ", &[("name.en", "First")]),
        city(2, "CZ", &[]),
    ];
    let regions = vec![
        Ok(region(101, "CZ", &[("name.en", "R1")])),
        Ok(region(102, "CZ", &[("name.en", "R2")])),
    ];
    match assemble_all(cities, regions, Language::EN) {
        Err(ErrorResponse::BadRequest(key)) => assert_eq!(key, "name.en"),
        _ => panic!("expected BadRequest"),
    }
}

#[test]
fn featured_order_prefers_language_country_stably() {
    let cities = vec![
        city(1, "CZ", &[("name.en", "CZ-a")]),
        city(2, "SK", &[("name.en", "SK-b")]),
        city(3, "CZ", &[("name.en", "CZ-c")]),
    ];
    let out = featured_order(cities, Language::EN);
    let ids: Vec<u64> = out.iter().map(|c| c.id).collect();
    assert_eq!(ids, vec![1, 3, 2]);
}

#[test]
fn featured_order_keeps_relative_order_in_each_partition() {
    let cities = vec![
        city(1, "PL", &[]),
        city(2, "DE", &[]),
        city(3, "PL", &[]),
        city(4, "CZ", &[]),
        city(5, "PL", &[]),
    ];
    let out = featured_order(cities, Language::PL);
    let ids: Vec<u64> = out.iter().map(|c| c.id).collect();
    assert_eq!(ids, vec![1, 3, 5, 2, 4]);
}

#[test]
fn search_request_is_capped_at_ten() {
    assert_eq!(SEARCH_LIMIT, 10);
    let r = search_request("prag".to_string(), Some("CZ".to_string()));
    assert_eq!(r.query, "prag");
    assert_eq!(r.country_iso.as_deref(), Some("CZ"));
    assert_eq!(r.limit, 10);
    let r = search_request("berlin".to_string(), None);
    assert_eq!(r.country_iso, None);
    assert_eq!(r.limit, 10);
}

#[test]
fn assemble_takes_first_matching_name() {
    let mut c = city(1, "CZ", &[]);
    c.names = vec![
        ("name.en".to_string(), "One".to_string()),
        ("name.en".to_string(), "Two".to_string()),
    ];
    let reg = region(101, "CZ", &[("name.en", "R")]);
    let r = assemble(c, Ok(reg), Language::EN).expect("expected Ok");
    assert_eq!(r.name, "One");
}

#[test]
fn custom_four_letter_country_code_passes_through() {
    let c = city(1, "CZPL", &[("name.en", "Borderland")]);
    let reg = region(101, "CZPL", &[("name.en", "Border Region")]);
    let r = assemble(c, Ok(reg), Language::EN).expect("expected Ok");
    assert_eq!(r.country_iso, "CZPL");
    let cities = vec![city(2, "CZPL", &[]), city(3, "CZ", &[])];
    let out = featured_order(cities, Language::EN);
    let ids: Vec<u64> = out.iter().map(|c| c.id).collect();
    assert_eq!(ids, vec![3, 2]);
}

#[test]
fn error_message_accessor_returns_payload() {
    let e = ErrorResponse::BadRequest("name.sk".to_string());
    assert_eq!(e.message(), "name.sk");
}

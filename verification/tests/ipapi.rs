use ip_geolocate::ipapi::{
    extract_ipapi, fix_from_members, is_valid, is_zero, status_is_success, LOOKUP_URL,
    NEGATIVE_ZERO, POSITIVE_ZERO,
};

fn fix(code: &str, name: &str, lat: f64, lon: f64) -> (String, String, u64, u64) {
    (code.to_string(), name.to_string(), lat.to_bits(), lon.to_bits())
}

#[test]
fn the_lookup_asks_for_the_six_fields() {
    assert_eq!(
        LOOKUP_URL,
        "http://ip-api.com/json/?fields=status,message,country,countryCode,lat,lon"
    );
}

#[test]
fn the_two_zeros_are_the_bit_patterns_of_the_float_zeros() {
    assert_eq!(POSITIVE_ZERO, 0.0f64.to_bits());
    assert_eq!(NEGATIVE_ZERO, (-0.0f64).to_bits());
}

#[test]
fn extract_reads_the_four_members() {
    let body = r#"{"countryCode":"CH","country":"Switzerland","lat":47.0,"lon":8.0}"#;
    assert_eq!(extract_ipapi(body), fix("CH", "Switzerland", 47.0, 8.0));
}

#[test]
fn extract_ignores_other_members_and_whitespace() {
    let body = r#"
        { "status" : "success", "country" : "Germany", "countryCode" : "DE",
          "lat" : 51.2993, "lon" : 9.491, "query" : "192.0.2.1", "extra" : [1, {"lat": 3}] }
    "#;
    assert_eq!(extract_ipapi(body), fix("DE", "Germany", 51.2993, 9.491));
}

#[test]
fn extract_reads_each_member_under_its_own_name() {
    let body = r#"{"countryCode":"AB","country":"CD","lat":1.5,"lon":-2.5}"#;
    let found = extract_ipapi(body);
    assert_eq!(found.0, "AB");
    assert_eq!(found.1, "CD");
    assert_eq!(f64::from_bits(found.2), 1.5);
    assert_eq!(f64::from_bits(found.3), -2.5);
}

#[test]
fn extract_takes_whole_numbers_as_numbers() {
    let body = r#"{"countryCode":"BR","country":"Brazil","lat":-14,"lon":51}"#;
    assert_eq!(extract_ipapi(body), fix("BR", "Brazil", -14.0, 51.0));
}

#[test]
fn extract_fills_in_defaults_for_missing_members() {
    assert_eq!(extract_ipapi("{}"), fix("", "", 0.0, 0.0));
    assert_eq!(
        extract_ipapi(r#"{"countryCode":"CH"}"#),
        fix("CH", "", 0.0, 0.0)
    );
    assert_eq!(
        extract_ipapi(r#"{"lat":47.0}"#),
        fix("", "", 47.0, 0.0)
    );
    assert_eq!(
        extract_ipapi(r#"{"status":"fail","message":"reserved range"}"#),
        fix("", "", 0.0, 0.0)
    );
}

#[test]
fn extract_fills_in_defaults_for_members_of_another_kind() {
    let body = r#"{"countryCode":7,"country":null,"lat":"47.0","lon":true}"#;
    assert_eq!(extract_ipapi(body), fix("", "", 0.0, 0.0));
    let nested = r#"{"countryCode":["CH"],"country":{"name":"x"},"lat":[47.0],"lon":{}}"#;
    assert_eq!(extract_ipapi(nested), fix("", "", 0.0, 0.0));
}

#[test]
fn extract_gives_defaults_for_a_document_that_is_no_object() {
    assert_eq!(extract_ipapi("[]"), fix("", "", 0.0, 0.0));
    assert_eq!(extract_ipapi("null"), fix("", "", 0.0, 0.0));
    assert_eq!(extract_ipapi("42"), fix("", "", 0.0, 0.0));
    assert_eq!(extract_ipapi(r#""lat""#), fix("", "", 0.0, 0.0));
}

#[test]
fn extract_gives_the_empty_fix_for_text_that_is_no_json() {
    assert_eq!(extract_ipapi(""), fix("", "", 0.0, 0.0));
    assert_eq!(extract_ipapi("not json"), fix("", "", 0.0, 0.0));
    assert_eq!(extract_ipapi(r#"{"countryCode":"CH""#), fix("", "", 0.0, 0.0));
    assert_eq!(
        extract_ipapi(r#"{"countryCode":"CH","country":"Switzerland","lat":47.0,"lon":8.0} x"#),
        fix("", "", 0.0, 0.0)
    );
    assert_eq!(extract_ipapi("<html>Too Many Requests</html>"), fix("", "", 0.0, 0.0));
    assert_eq!(extract_ipapi("").2, 0);
    assert_eq!(extract_ipapi("").3, 0);
    assert!(!is_valid(&extract_ipapi("")));
}

#[test]
fn extract_takes_the_last_of_two_members_with_one_name() {
    let body = r#"{"countryCode":"CH","countryCode":"FR","lat":1.0,"lat":2.0}"#;
    assert_eq!(extract_ipapi(body), fix("FR", "", 2.0, 0.0));
}

#[test]
fn extract_decodes_escapes_in_texts() {
    let body = r#"{"countryCode":"CI","country":"C\u00f4te d'Ivoire \"x\"","lat":7.5,"lon":-5.5}"#;
    assert_eq!(extract_ipapi(body), fix("CI", "Côte d'Ivoire \"x\"", 7.5, -5.5));
    let plain = r#"{"countryCode":"CI","country":"Côte d'Ivoire","lat":7.5,"lon":-5.5}"#;
    assert_eq!(extract_ipapi(plain), fix("CI", "Côte d'Ivoire", 7.5, -5.5));
}

#[test]
fn fix_from_members_keeps_what_is_there() {
    assert_eq!(
        fix_from_members(
            Some("CH".to_string()),
            Some("Switzerland".to_string()),
            Some(47.0f64.to_bits()),
            Some(8.0f64.to_bits())
        ),
        fix("CH", "Switzerland", 47.0, 8.0)
    );
    assert_eq!(fix_from_members(None, None, None, None), fix("", "", 0.0, 0.0));
    assert_eq!(
        fix_from_members(None, Some("Peru".to_string()), None, Some((-75.0f64).to_bits())),
        fix("", "Peru", 0.0, -75.0)
    );
}

#[test]
fn only_the_two_zeros_are_zero() {
    assert!(is_zero(0.0f64.to_bits()));
    assert!(is_zero((-0.0f64).to_bits()));
    assert!(!is_zero(47.0f64.to_bits()));
    assert!(!is_zero((-8.0f64).to_bits()));
    assert!(!is_zero(f64::MIN_POSITIVE.to_bits()));
    assert!(!is_zero(5e-324f64.to_bits()));
    assert!(!is_zero(f64::NAN.to_bits()));
    assert!(!is_zero(f64::INFINITY.to_bits()));
    assert!(!is_zero(1));
    assert!(!is_zero(u64::MAX));
}

#[test]
fn is_zero_agrees_with_the_float_comparison() {
    let samples = [
        0.0f64, -0.0, 1.0, -1.0, 47.0, 8.0, 1e-300, -1e-300, 5e-324, f64::MAX, f64::MIN,
        f64::INFINITY, f64::NEG_INFINITY, f64::NAN, f64::EPSILON,
    ];
    for x in samples {
        assert_eq!(is_zero(x.to_bits()), x == 0.0);
    }
}

#[test]
fn a_fix_with_a_two_letter_code_and_two_coordinates_is_valid() {
    assert!(is_valid(&fix("CH", "Switzerland", 47.0, 8.0)));
    assert!(is_valid(&fix("CH", "", 47.0, 8.0)));
    assert!(is_valid(&fix("zz", "nowhere", -0.001, 179.9)));
    assert!(is_valid(&fix("CH", "Switzerland", f64::NAN, 8.0)));
}

#[test]
fn a_fix_with_a_code_of_another_length_is_not_valid() {
    assert!(!is_valid(&fix("", "Switzerland", 47.0, 8.0)));
    assert!(!is_valid(&fix("C", "Switzerland", 47.0, 8.0)));
    assert!(!is_valid(&fix("CHE", "Switzerland", 47.0, 8.0)));
    assert!(!is_valid(&fix("Switzerland", "Switzerland", 47.0, 8.0)));
}

#[test]
fn the_length_of_a_code_is_counted_in_bytes() {
    // one character of two bytes
    assert!(is_valid(&fix("é", "", 47.0, 8.0)));
    // two characters of two bytes each
    assert!(!is_valid(&fix("éé", "", 47.0, 8.0)));
    // one character of three bytes
    assert!(!is_valid(&fix("€", "", 47.0, 8.0)));
}

#[test]
fn a_fix_with_a_zero_coordinate_is_not_valid() {
    assert!(!is_valid(&fix("CH", "Switzerland", 0.0, 0.0)));
    assert!(!is_valid(&fix("CH", "Switzerland", 0.0, 8.0)));
    assert!(!is_valid(&fix("CH", "Switzerland", 47.0, 0.0)));
    assert!(!is_valid(&fix("CH", "Switzerland", -0.0, 8.0)));
    assert!(!is_valid(&fix("CH", "Switzerland", 47.0, -0.0)));
    assert!(!is_valid(&fix("CH", "Switzerland", -0.0, -0.0)));
}

#[test]
fn only_a_status_from_200_to_299_is_a_success() {
    for status in [200u16, 201, 204, 226, 299] {
        assert!(status_is_success(status));
    }
    for status in [0u16, 100, 101, 199, 300, 301, 304, 400, 404, 429, 500, 503, 599, 600, u16::MAX] {
        assert!(!status_is_success(status));
    }
}

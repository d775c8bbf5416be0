//! The rendered wire format: URL shape, query-string escaping and its
//! round trip, and decimal rendering and parsing.

use owm::digits::{i32_string, parse_i64};
use owm::uri::UriBuilder;

#[test]
fn build_without_parameters_has_no_query_string() {
    let mut ub = UriBuilder::new();
    ub.method("weather");
    assert_eq!("http://api.openweathermap.org/data/2.5/weather", ub.build());
}

#[test]
fn build_renders_parameters_in_insertion_order() {
    let mut ub = UriBuilder::new();
    ub.method("weather");
    ub.param("appid", "k");
    ub.param("q", "Pisa");
    assert_eq!("http://api.openweathermap.org/data/2.5/weather?appid=k&q=Pisa", ub.build());
}

#[test]
fn method_called_twice_overwrites() {
    let mut ub = UriBuilder::new();
    ub.method("weather");
    ub.method("find");
    assert_eq!("http://api.openweathermap.org/data/2.5/find", ub.build());
}

#[test]
fn param_written_twice_keeps_last_value_in_place() {
    let mut ub = UriBuilder::new();
    ub.method("weather");
    ub.param("units", "metric");
    ub.param("lang", "it");
    ub.param("units", "imperial");
    assert_eq!(
        "http://api.openweathermap.org/data/2.5/weather?units=imperial&lang=it",
        ub.build()
    );
}

#[test]
fn escaping_follows_form_urlencoding() {
    let mut ub = UriBuilder::new();
    ub.method("weather");
    ub.param("q", "san jose, ca");
    // space becomes `+`, the comma a percent escape with uppercase hex
    assert_eq!(
        "http://api.openweathermap.org/data/2.5/weather?q=san+jose%2C+ca",
        ub.build()
    );
}

#[test]
fn query_string_round_trip_recovers_the_parameter_set() {
    let mut ub = UriBuilder::new();
    ub.method("weather");
    ub.param("q", "san jose, ca&x=1");
    ub.param("note", "a+b =c");
    ub.param("city", "K\u{f8}benhavn");
    let url = ub.build();
    let query = url.splitn(2, '?').nth(1).unwrap();
    let pairs: Vec<(String, String)> =
        url::form_urlencoded::parse(query.as_bytes()).into_owned().collect();
    assert_eq!(
        vec![
            ("q".to_string(), "san jose, ca&x=1".to_string()),
            ("note".to_string(), "a+b =c".to_string()),
            ("city".to_string(), "K\u{f8}benhavn".to_string()),
        ],
        pairs
    );
}

#[test]
fn decimal_rendering_of_integers() {
    assert_eq!("0", i32_string(0));
    assert_eq!("10", i32_string(10));
    assert_eq!("6542122", i32_string(6542122));
    assert_eq!("-5", i32_string(-5));
    assert_eq!("-2147483648", i32_string(i32::MIN));
    assert_eq!("2147483647", i32_string(i32::MAX));
}

#[test]
fn decimal_parsing_of_integers() {
    assert_eq!(Some(0), parse_i64("0"));
    assert_eq!(Some(404), parse_i64("404"));
    assert_eq!(Some(-17), parse_i64("-17"));
    assert_eq!(Some(i64::MAX), parse_i64("9223372036854775807"));
    assert_eq!(Some(i64::MIN), parse_i64("-9223372036854775808"));
    assert_eq!(None, parse_i64("9223372036854775808"));
    assert_eq!(None, parse_i64("-9223372036854775809"));
    assert_eq!(None, parse_i64(""));
    assert_eq!(None, parse_i64("-"));
    assert_eq!(None, parse_i64("12a"));
    assert_eq!(None, parse_i64("1.5"));
    assert_eq!(None, parse_i64(" 2"));
}

//! The classifier's five outcomes, exercised one answer at a time.

use owm::classify::{resolve_aggregate, resolve_weather};
use owm::{Error, HttpResponse};

fn answer(status: u16, body: &str) -> HttpResponse {
    HttpResponse {
        url: "http://api.openweathermap.org/data/2.5/weather?appid=k&id=1".to_string(),
        status,
        body: body.to_string(),
    }
}

#[test]
fn success_with_readable_payload() {
    let r = resolve_weather(answer(200, "{\"name\":\"Pisa\",\"cod\":200,\"dt\":1628000000}"));
    let (meta, info) = r.unwrap();
    assert_eq!(200, meta.status);
    assert_eq!(Some("Pisa".to_string()), info.name);
    assert_eq!(Some(200), info.cod);
    assert_eq!(Some(1628000000), info.dt);
}

#[test]
fn success_with_empty_object_is_all_absent() {
    let (_, info) = resolve_weather(answer(200, "{}")).unwrap();
    assert!(info.name.is_none());
    assert!(info.coord.is_none());
    assert!(info.cod.is_none());
}

#[test]
fn success_with_null_fields_is_all_absent() {
    let (_, info) = resolve_weather(answer(200, "{\"name\":null,\"coord\":null}")).unwrap();
    assert!(info.name.is_none());
    assert!(info.coord.is_none());
}

#[test]
fn success_with_nested_records() {
    let body = "{\"main\":{\"temp\":21.5,\"pressure\":1013},\"wind\":{\"speed\":3.6,\"deg\":220},\
                \"clouds\":{\"all\":75},\"rain\":{\"3h\":2},\"sys\":{\"type\":1,\"country\":\"IT\",\
                \"sunrise\":1628000000},\"weather\":[{\"id\":500,\"main\":\"Rain\"}]}";
    let (_, info) = resolve_weather(answer(200, body)).unwrap();
    assert_eq!(Some("21.5".to_string()), info.main.clone().unwrap().temp);
    assert_eq!(Some(1013), info.main.clone().unwrap().pressure);
    assert_eq!(Some("3.6".to_string()), info.wind.clone().unwrap().speed);
    assert_eq!(Some(220), info.wind.clone().unwrap().deg);
    assert_eq!(Some(75), info.clouds.clone().unwrap().all);
    assert_eq!(Some(2), info.rain.clone().unwrap().three_hours);
    assert_eq!(Some(1), info.sys.clone().unwrap().type_);
    assert_eq!(Some("IT".to_string()), info.sys.clone().unwrap().country);
    assert_eq!(Some(1628000000), info.sys.clone().unwrap().sunrise);
    let conditions = info.weather.clone().unwrap();
    assert_eq!(1, conditions.len());
    assert_eq!(Some(500), conditions[0].id);
    assert_eq!(Some("Rain".to_string()), conditions[0].main);
}

#[test]
fn success_status_with_invalid_json_is_decode_error() {
    match resolve_weather(answer(200, "nonsense")) {
        Err(Error::JsonDecodeError(body, diag)) => {
            assert_eq!("nonsense", body);
            assert!(!diag.is_empty());
        },
        other => panic!("expected a decode error, got {:?}", other),
    }
}

#[test]
fn success_status_with_wrong_shape_is_decode_error() {
    match resolve_weather(answer(200, "[1,2,3]")) {
        Err(Error::JsonDecodeError(body, _)) => assert_eq!("[1,2,3]", body),
        other => panic!("expected a decode error, got {:?}", other),
    }
}

#[test]
fn mistyped_field_is_decode_error_not_defaulted() {
    // `name` must be a string: a numeric name is a schema mismatch and is
    // surfaced, never silently dropped
    match resolve_weather(answer(200, "{\"name\":5}")) {
        Err(Error::JsonDecodeError(body, _)) => assert_eq!("{\"name\":5}", body),
        other => panic!("expected a decode error, got {:?}", other),
    }
}

#[test]
fn overflowing_integer_field_is_decode_error() {
    match resolve_weather(answer(200, "{\"cod\":4000000000}")) {
        Err(Error::JsonDecodeError(_, _)) => {},
        other => panic!("expected a decode error, got {:?}", other),
    }
}

#[test]
fn quoted_number_in_payload_is_decode_error() {
    // the success payload is read strictly: a quoted number is not an integer
    match resolve_weather(answer(200, "{\"cod\":\"200\"}")) {
        Err(Error::JsonDecodeError(_, _)) => {},
        other => panic!("expected a decode error, got {:?}", other),
    }
}

#[test]
fn failure_status_with_structured_body_is_bad_request() {
    match resolve_weather(answer(404, "{\"cod\":\"404\",\"message\":\"city not found\"}")) {
        Err(Error::BadRequest(e)) => {
            assert_eq!(Some(404), e.cod);
            assert_eq!(Some("city not found".to_string()), e.message);
        },
        other => panic!("expected a structured rejection, got {:?}", other),
    }
}

#[test]
fn failure_status_with_numeric_cod_is_bad_request() {
    match resolve_weather(answer(500, "{\"cod\":500,\"message\":\"oops\"}")) {
        Err(Error::BadRequest(e)) => {
            assert_eq!(Some(500), e.cod);
            assert_eq!(Some("oops".to_string()), e.message);
        },
        other => panic!("expected a structured rejection, got {:?}", other),
    }
}

#[test]
fn failure_status_with_unreadable_body_is_opaque_failure() {
    match resolve_weather(answer(404, "<html>gone</html>")) {
        Err(Error::Failure(resp)) => {
            assert_eq!(404, resp.status);
            assert_eq!("<html>gone</html>", resp.body);
        },
        other => panic!("expected an opaque failure, got {:?}", other),
    }
}

#[test]
fn failure_status_with_non_object_json_is_opaque_failure() {
    match resolve_weather(answer(502, "[\"err\"]")) {
        Err(Error::Failure(resp)) => assert_eq!(502, resp.status),
        other => panic!("expected an opaque failure, got {:?}", other),
    }
}

#[test]
fn aggregate_payload_reads_count_and_list() {
    let body = "{\"message\":\"accurate\",\"cod\":200,\"count\":2,\
                \"list\":[{\"name\":\"Pisa\"},{\"name\":\"Livorno\"}]}";
    let (_, agg) = resolve_aggregate(answer(200, body)).unwrap();
    assert_eq!(Some("accurate".to_string()), agg.message);
    assert_eq!(Some(200), agg.cod);
    assert_eq!(Some(2), agg.count);
    let list = agg.list.unwrap();
    assert_eq!(Some("Pisa".to_string()), list[0].name);
    assert_eq!(Some("Livorno".to_string()), list[1].name);
}

#[test]
fn aggregate_with_mistyped_list_item_is_decode_error() {
    match resolve_aggregate(answer(200, "{\"list\":[{\"name\":\"Pisa\"},7]}")) {
        Err(Error::JsonDecodeError(_, _)) => {},
        other => panic!("expected a decode error, got {:?}", other),
    }
}

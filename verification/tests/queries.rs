//! End-to-end lookups against a fixture transport: each fixture answers only
//! the exact URL the lookup is expected to request, so a passing test also
//! checks the rendered URL byte for byte.

use owm::{BoundingBox, Error, FormatResponse, Transport, Units, WeatherHub};

struct Fixture {
    expect_url: &'static str,
    status: u16,
    body: &'static str,
}

impl Transport for Fixture {
    fn get(&self, url: &str) -> Result<(u16, String), String> {
        if url == self.expect_url {
            Ok((self.status, self.body.to_string()))
        } else {
            Ok((599, format!("unexpected url: {}", url)))
        }
    }
}

const PISA_BODY: &str = "{\"name\":\"Pisa\",\"coord\":{\"lat\":43.71,\"lon\":10.41}}";

#[test]
fn current_by_name() {
    let hub = WeatherHub::new(
        Fixture {
            expect_url: "http://api.openweathermap.org/data/2.5/weather?appid=OWM_API_KEY&q=Pisa",
            status: 200,
            body: PISA_BODY,
        },
        "OWM_API_KEY",
    );
    let (resp, info) = hub.current().by_name("Pisa", None).unwrap();
    assert_eq!(resp.status, 200);
    assert_eq!(Some("Pisa".to_string()), info.name);
    assert_eq!(Some("43.71".to_string()), info.coord.clone().unwrap().lat);
    assert_eq!(Some("10.41".to_string()), info.coord.clone().unwrap().lon);
}

#[test]
fn current_by_name_with_country() {
    let hub = WeatherHub::new(
        Fixture {
            expect_url:
                "http://api.openweathermap.org/data/2.5/weather?appid=OWM_API_KEY&q=Pisa%2CIT",
            status: 200,
            body: PISA_BODY,
        },
        "OWM_API_KEY",
    );
    let (_, info) = hub.current().by_name("Pisa", Some("IT")).unwrap();
    assert_eq!(Some("Pisa".to_string()), info.name);
}

#[test]
fn current_by_id() {
    let hub = WeatherHub::new(
        Fixture {
            expect_url:
                "http://api.openweathermap.org/data/2.5/weather?appid=OWM_API_KEY&id=6542122",
            status: 200,
            body: PISA_BODY,
        },
        "OWM_API_KEY",
    );
    let (_, info) = hub.current().by_id(6542122).unwrap();
    assert_eq!(Some("Pisa".to_string()), info.name);
    assert_eq!(Some("43.71".to_string()), info.coord.clone().unwrap().lat);
    assert_eq!(Some("10.41".to_string()), info.coord.clone().unwrap().lon);
    // every other field of the payload is absent
    assert!(info.weather.is_none());
    assert!(info.base.is_none());
    assert!(info.main.is_none());
    assert!(info.wind.is_none());
    assert!(info.clouds.is_none());
    assert!(info.rain.is_none());
    assert!(info.snow.is_none());
    assert!(info.dt.is_none());
    assert!(info.sys.is_none());
    assert!(info.id.is_none());
    assert!(info.cod.is_none());
}

#[test]
fn current_by_id_not_found() {
    let hub = WeatherHub::new(
        Fixture {
            expect_url:
                "http://api.openweathermap.org/data/2.5/weather?appid=OWM_API_KEY&id=6542122",
            status: 404,
            body: "{\"cod\":\"404\",\"message\":\"city not found\"}",
        },
        "OWM_API_KEY",
    );
    match hub.current().by_id(6542122) {
        Err(Error::BadRequest(e)) => {
            assert_eq!(Some("city not found".to_string()), e.message);
            assert_eq!(Some(404), e.cod);
        },
        other => panic!("expected a structured rejection, got {:?}", other),
    }
}

#[test]
fn current_by_coords() {
    let hub = WeatherHub::new(
        Fixture {
            expect_url:
                "http://api.openweathermap.org/data/2.5/weather?appid=OWM_API_KEY&lat=43.71&lon=10.41",
            status: 200,
            body: PISA_BODY,
        },
        "OWM_API_KEY",
    );
    let (_, info) = hub.current().by_coords("43.71", "10.41").unwrap();
    assert_eq!(Some("Pisa".to_string()), info.name);
}

#[test]
fn current_by_zip() {
    let hub = WeatherHub::new(
        Fixture {
            expect_url:
                "http://api.openweathermap.org/data/2.5/weather?appid=OWM_API_KEY&zip=56124%2CIT",
            status: 200,
            body: PISA_BODY,
        },
        "OWM_API_KEY",
    );
    let (_, info) = hub.current().by_zip_code(56124, Some("IT")).unwrap();
    assert_eq!(Some("Pisa".to_string()), info.name);
}

#[test]
fn current_by_bounds() {
    let hub = WeatherHub::new(
        Fixture {
            expect_url:
                "http://api.openweathermap.org/data/2.5/box/city?appid=OWM_API_KEY&bbox=10.38%2C43.7%2C10.42%2C43.73%2C10&cluster=no",
            status: 200,
            body: "{\"cnt\":1,\"list\":[{\"name\":\"Pisa\"}]}",
        },
        "OWM_API_KEY",
    );
    let bbox = BoundingBox {
        top: "43.73".to_string(),
        bottom: "43.7".to_string(),
        left: "10.38".to_string(),
        right: "10.42".to_string(),
    };
    let (_, info) = hub.current().by_bounds(&bbox, 10, false).unwrap();
    assert_eq!(Some(1), info.cnt);
    assert_eq!(Some("Pisa".to_string()), info.list.clone().unwrap()[0].name);
}

#[test]
fn current_by_circle() {
    let hub = WeatherHub::new(
        Fixture {
            expect_url:
                "http://api.openweathermap.org/data/2.5/find?appid=OWM_API_KEY&lat=43.71&lon=10.41&cnt=10&cluster=no",
            status: 200,
            body: "{\"count\":10,\"list\":[{\"name\":\"Pisa\"}]}",
        },
        "OWM_API_KEY",
    );
    let (_, info) = hub.current().by_circle("43.71", "10.41", 10, false).unwrap();
    assert_eq!(Some(10), info.count);
    assert_eq!(Some("Pisa".to_string()), info.list.clone().unwrap()[0].name);
}

#[test]
fn current_by_circle_clustered() {
    let hub = WeatherHub::new(
        Fixture {
            expect_url:
                "http://api.openweathermap.org/data/2.5/find?appid=OWM_API_KEY&lat=43.71&lon=10.41&cnt=3&cluster=yes",
            status: 200,
            body: "{\"count\":3}",
        },
        "OWM_API_KEY",
    );
    let (_, info) = hub.current().by_circle("43.71", "10.41", 3, true).unwrap();
    assert_eq!(Some(3), info.count);
}

#[test]
fn current_with_units() {
    // applying the modifier twice keeps only the last value
    let hub = WeatherHub::new(
        Fixture {
            expect_url:
                "http://api.openweathermap.org/data/2.5/weather?appid=OWM_API_KEY&units=imperial&id=6542122",
            status: 200,
            body: PISA_BODY,
        },
        "OWM_API_KEY",
    );
    let (_, info) = hub.current().units(Units::Metric).units(Units::Imperial).by_id(
        6542122,
    ).unwrap();
    assert_eq!(Some("Pisa".to_string()), info.name);
}

#[test]
fn current_with_language() {
    let hub = WeatherHub::new(
        Fixture {
            expect_url:
                "http://api.openweathermap.org/data/2.5/weather?appid=OWM_API_KEY&lang=it&id=6542122",
            status: 200,
            body: PISA_BODY,
        },
        "OWM_API_KEY",
    );
    let (_, info) = hub.current().lang("it").by_id(6542122).unwrap();
    assert_eq!(Some("Pisa".to_string()), info.name);
}

#[test]
fn transport_failure_is_http_error() {
    struct Broken;

    impl Transport for Broken {
        fn get(&self, _url: &str) -> Result<(u16, String), String> {
            Err("connection refused".to_string())
        }
    }

    let hub = WeatherHub::new(Broken, "OWM_API_KEY");
    match hub.current().by_id(6542122) {
        Err(Error::HttpError(m)) => assert_eq!("connection refused", m),
        other => panic!("expected a transport error, got {:?}", other),
    }
}

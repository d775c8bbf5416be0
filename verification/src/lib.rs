//! A typed client for the OpenWeatherMap current-weather HTTP API.
//!
//! The crate builds query URLs for the supported lookup modes (by city name,
//! city id, ZIP code, coordinate point, bounding box and bounding circle),
//! hands them to a caller-supplied transport, and classifies the transport's
//! answer into a typed payload, a structured API error, or an opaque failure.

pub mod classify;
pub mod current;
pub mod data;
pub mod digits;
pub mod encoding;
pub mod json;
pub mod uri;

pub use crate::classify::{Error, HttpResponse, Transport};
pub use crate::current::CurrentWeatherQuery;
use crate::classify::{
    aggregate_payload_of, box_payload_of, call_outcome_of, weather_payload_of, HttpResponseModel,
};
use crate::data::{WeatherAggregate, WeatherBoxAggregate, WeatherInfo};
use crate::uri::{empty_uri, HasBuilder, UriBuilder, UriModel};
use vstd::prelude::*;

verus! {

/// Units format for a query: the API's default (Kelvin-based) units apply
/// when neither is requested.
#[derive(Clone, Copy, Debug, PartialEq, Eq, Structural)]
pub enum Units {
    Metric,
    Imperial,
}

/// The parameter value sent for a `Units` choice.
pub open spec fn units_value(u: Units) -> Seq<char> {
    match u {
        Units::Metric => "metric"@,
        Units::Imperial => "imperial"@,
    }
}

impl Units {
    /// The literal parameter value for this units choice.
    pub fn to_string(&self) -> (r: String)
        ensures
            r@ == units_value(*self),
    {
        match self {
            Units::Metric => "metric".to_owned(),
            Units::Imperial => "imperial".to_owned(),
        }
    }
}

/// Rectangle specified by geographic coordinates (latitude and longitude),
/// each edge carried as its decimal rendering.
#[derive(Clone, Debug)]
pub struct BoundingBox {
    /// Northern edge
    pub top: String,
    /// Southern edge
    pub bottom: String,
    /// Western edge
    pub left: String,
    /// Eastern edge
    pub right: String,
}

/// Spec-level `BoundingBox`.
pub struct BoundingBoxModel {
    pub top: Seq<char>,
    pub bottom: Seq<char>,
    pub left: Seq<char>,
    pub right: Seq<char>,
}

impl View for BoundingBox {
    type V = BoundingBoxModel;

    open spec fn view(&self) -> BoundingBoxModel {
        BoundingBoxModel {
            top: self.top@,
            bottom: self.bottom@,
            left: self.left@,
            right: self.right@,
        }
    }
}

/// Optional format modifiers any in-progress query accepts, callable any
/// number of times before the terminal method: the last value written for a
/// parameter wins.
pub trait FormatResponse: HasBuilder {
    /// Change units format for the query. The API's Kelvin-based standard
    /// units apply when this is never called.
    fn units(self, units: Units) -> (r: Self)
        requires
            self.builder_wf(),
        ensures
            r.builder_model() == self.builder_model().upsert("units"@, units_value(units)),
            r.builder_wf(),
    {
        let mut s = self;
        let v = units.to_string();
        s.builder_param("units", v.as_str());
        s
    }

    /// Change language for the query. Only the `description` field of the
    /// condition records is translated.
    fn lang(self, lang: &str) -> (r: Self)
        requires
            self.builder_wf(),
        ensures
            r.builder_model() == self.builder_model().upsert("lang"@, lang@),
            r.builder_wf(),
    {
        let mut s = self;
        s.builder_param("lang", lang);
        s
    }
}

/// Applying a modifier again overwrites its earlier value: writing `units`
/// twice leaves exactly the second value in the parameters.
pub proof fn lemma_modifier_last_write_wins(m: UriModel, u1: Units, u2: Units)
    ensures
        m.upsert("units"@, units_value(u1)).upsert("units"@, units_value(u2)) == m.upsert(
            "units"@,
            units_value(u2),
        ),
        crate::uri::lookup_param(
            m.upsert("units"@, units_value(u1)).upsert("units"@, units_value(u2)).params,
            "units"@,
        ) == Some(units_value(u2)),
{
    crate::uri::lemma_upsert_overwrites(m, "units"@, units_value(u1), units_value(u2));
    crate::uri::lemma_upsert_value(m.upsert("units"@, units_value(u1)), "units"@, units_value(u2));
}

/// Central hub to access all weather-related facilities: it holds the API key
/// and the transport, and every query it produces is pre-seeded with the key.
pub struct WeatherHub<C: Transport> {
    client: C,
    key: String,
}

impl<C: Transport> WeatherHub<C> {
    /// The API key this hub seeds every query with.
    pub closed spec fn spec_key(&self) -> Seq<char> {
        self.key@
    }

    /// Creates a new `WeatherHub` which will use the provided transport to
    /// perform its requests. It also requires an API key.
    pub fn new(client: C, key: &str) -> (r: WeatherHub<C>)
        ensures
            r.spec_key() == key@,
    {
        WeatherHub { client, key: key.to_owned() }
    }

    /// Provides access to the current-weather facilities: a query whose only
    /// parameter so far is the authentication key.
    pub fn current<'a>(&'a self) -> (q: CurrentWeatherQuery<'a, C>)
        ensures
            q.builder_model() == empty_uri().upsert("appid"@, self.spec_key()),
            q.builder_wf(),
    {
        let mut ub = UriBuilder::new();
        ub.param("appid", self.key.as_str());
        CurrentWeatherQuery::new(self, ub)
    }

    /// Perform the call for a single-location query and classify the answer.
    pub(crate) fn run_weather(&self, url: String) -> (r: Result<(HttpResponse, WeatherInfo), Error>)
        ensures
            crate::classify::call_resolved(
                (|b: Seq<char>| weather_payload_of(b)),
                url@,
                crate::classify::weather_result_model(r),
            ),
    {
        match self.client.get(url.as_str()) {
            Err(m) => {
                let r = Err(Error::HttpError(m));
                proof {
                    let pf = (|b: Seq<char>| weather_payload_of(b));
                    let rm = crate::classify::weather_result_model(r);
                    assert(call_outcome_of(pf, Err::<HttpResponseModel, Seq<char>>(m@), rm));
                }
                r
            },
            Ok((status, body)) => {
                let resp = HttpResponse { url, status, body };
                let ghost rv = resp@;
                let r = crate::classify::resolve_weather(resp);
                proof {
                    let pf = (|b: Seq<char>| weather_payload_of(b));
                    let rm = crate::classify::weather_result_model(r);
                    assert(call_outcome_of(pf, Ok::<HttpResponseModel, Seq<char>>(rv), rm));
                }
                r
            },
        }
    }

    /// Perform the call for a bounding-circle query and classify the answer.
    pub(crate) fn run_aggregate(&self, url: String) -> (r: Result<
        (HttpResponse, WeatherAggregate),
        Error,
    >)
        ensures
            crate::classify::call_resolved(
                (|b: Seq<char>| aggregate_payload_of(b)),
                url@,
                crate::classify::aggregate_result_model(r),
            ),
    {
        match self.client.get(url.as_str()) {
            Err(m) => {
                let r = Err(Error::HttpError(m));
                proof {
                    let pf = (|b: Seq<char>| aggregate_payload_of(b));
                    let rm = crate::classify::aggregate_result_model(r);
                    assert(call_outcome_of(pf, Err::<HttpResponseModel, Seq<char>>(m@), rm));
                }
                r
            },
            Ok((status, body)) => {
                let resp = HttpResponse { url, status, body };
                let ghost rv = resp@;
                let r = crate::classify::resolve_aggregate(resp);
                proof {
                    let pf = (|b: Seq<char>| aggregate_payload_of(b));
                    let rm = crate::classify::aggregate_result_model(r);
                    assert(call_outcome_of(pf, Ok::<HttpResponseModel, Seq<char>>(rv), rm));
                }
                r
            },
        }
    }

    /// Perform the call for a bounding-box query and classify the answer.
    pub(crate) fn run_box(&self, url: String) -> (r: Result<
        (HttpResponse, WeatherBoxAggregate),
        Error,
    >)
        ensures
            crate::classify::call_resolved(
                (|b: Seq<char>| box_payload_of(b)),
                url@,
                crate::classify::box_result_model(r),
            ),
    {
        match self.client.get(url.as_str()) {
            Err(m) => {
                let r = Err(Error::HttpError(m));
                proof {
                    let pf = (|b: Seq<char>| box_payload_of(b));
                    let rm = crate::classify::box_result_model(r);
                    assert(call_outcome_of(pf, Err::<HttpResponseModel, Seq<char>>(m@), rm));
                }
                r
            },
            Ok((status, body)) => {
                let resp = HttpResponse { url, status, body };
                let ghost rv = resp@;
                let r = crate::classify::resolve_box_aggregate(resp);
                proof {
                    let pf = (|b: Seq<char>| box_payload_of(b));
                    let rm = crate::classify::box_result_model(r);
                    assert(call_outcome_of(pf, Ok::<HttpResponseModel, Seq<char>>(rv), rm));
                }
                r
            },
        }
    }
}

} // verus!

//! Query builders for the Current Weather API: one terminal method per lookup
//! mode, each consuming the in-progress query, rendering its URL and running
//! the call.

use crate::classify::{
    aggregate_payload_of, aggregate_result_model, box_payload_of, box_result_model, call_resolved,
    weather_payload_of, weather_result_model, Error, HttpResponse, Transport,
};
use crate::data::{WeatherAggregate, WeatherBoxAggregate, WeatherInfo};
use crate::digits::{dec_int, i32_string};
use crate::uri::{
    lemma_upsert_preserves_others, lemma_upsert_value, lookup_param, spec_url, HasBuilder,
    UriBuilder, UriModel,
};
use crate::{BoundingBox, BoundingBoxModel, FormatResponse, WeatherHub};
use vstd::prelude::*;

verus! {

/// The `q` parameter of a by-name lookup: the city, with the country code
/// appended after a comma when one is given.
pub open spec fn name_query_value(city: Seq<char>, country: Option<Seq<char>>) -> Seq<char> {
    match country {
        None => city,
        Some(cc) => city + seq![','] + cc,
    }
}

/// The `zip` parameter of a by-ZIP lookup: the code, with the country code
/// appended after a comma when one is given.
pub open spec fn zip_query_value(zip: i32, country: Option<Seq<char>>) -> Seq<char> {
    match country {
        None => dec_int(zip as int),
        Some(cc) => dec_int(zip as int) + seq![','] + cc,
    }
}

/// The `bbox` parameter of a bounding-box lookup: left, bottom, right, top
/// and zoom, in that fixed order, whatever order the box's fields stand in.
pub open spec fn bbox_query_value(bb: BoundingBoxModel, zoom: i32) -> Seq<char> {
    bb.left + seq![','] + bb.bottom + seq![','] + bb.right + seq![','] + bb.top + seq![',']
        + dec_int(zoom as int)
}

/// The `cluster` parameter's value: `yes` for clustering, `no` against it.
pub open spec fn cluster_value(cluster: bool) -> Seq<char> {
    if cluster {
        "yes"@
    } else {
        "no"@
    }
}

/// The builder a by-name lookup finishes with.
pub open spec fn by_name_model(m: UriModel, city: Seq<char>, country: Option<Seq<char>>) -> UriModel {
    m.with_endpoint("weather"@).upsert("q"@, name_query_value(city, country))
}

/// The builder a by-id lookup finishes with.
pub open spec fn by_id_model(m: UriModel, id: i32) -> UriModel {
    m.with_endpoint("weather"@).upsert("id"@, dec_int(id as int))
}

/// The builder a by-ZIP lookup finishes with.
pub open spec fn by_zip_model(m: UriModel, zip: i32, country: Option<Seq<char>>) -> UriModel {
    m.with_endpoint("weather"@).upsert("zip"@, zip_query_value(zip, country))
}

/// The builder a coordinate lookup finishes with.
pub open spec fn by_coords_model(m: UriModel, lat: Seq<char>, lon: Seq<char>) -> UriModel {
    m.with_endpoint("weather"@).upsert("lat"@, lat).upsert("lon"@, lon)
}

/// The builder a bounding-box lookup finishes with.
pub open spec fn by_bounds_model(m: UriModel, bb: BoundingBoxModel, zoom: i32, cluster: bool) -> UriModel {
    m.with_endpoint("box/city"@).upsert("bbox"@, bbox_query_value(bb, zoom)).upsert(
        "cluster"@,
        cluster_value(cluster),
    )
}

/// The builder a bounding-circle lookup finishes with.
pub open spec fn by_circle_model(
    m: UriModel,
    lat: Seq<char>,
    lon: Seq<char>,
    count: i32,
    cluster: bool,
) -> UriModel {
    m.with_endpoint("find"@).upsert("lat"@, lat).upsert("lon"@, lon).upsert(
        "cnt"@,
        dec_int(count as int),
    ).upsert("cluster"@, cluster_value(cluster))
}

/// Endpoint routing: the single-location lookups target `weather`, the
/// bounding-box lookup targets `box/city`, the bounding-circle lookup
/// targets `find`.
pub proof fn lemma_endpoint_routing(
    m: UriModel,
    city: Seq<char>,
    country: Option<Seq<char>>,
    id: i32,
    zip: i32,
    lat: Seq<char>,
    lon: Seq<char>,
    bb: BoundingBoxModel,
    zoom: i32,
    count: i32,
    cluster: bool,
)
    ensures
        by_name_model(m, city, country).endpoint == "weather"@,
        by_id_model(m, id).endpoint == "weather"@,
        by_zip_model(m, zip, country).endpoint == "weather"@,
        by_coords_model(m, lat, lon).endpoint == "weather"@,
        by_bounds_model(m, bb, zoom, cluster).endpoint == "box/city"@,
        by_circle_model(m, lat, lon, count, cluster).endpoint == "find"@,
{
}

/// Optional-country composition: a by-name or by-ZIP lookup sends the bare
/// value without a country code, and the value, a comma and the code with
/// one.
pub proof fn lemma_optional_country(city: Seq<char>, zip: i32, cc: Seq<char>)
    ensures
        name_query_value(city, None) == city,
        name_query_value(city, Some(cc)) == city + seq![','] + cc,
        zip_query_value(zip, None) == dec_int(zip as int),
        zip_query_value(zip, Some(cc)) == dec_int(zip as int) + seq![','] + cc,
{
}

/// Bounding-box field order: the `bbox` value is always left, bottom, right,
/// top, zoom, in that order.
pub proof fn lemma_bbox_field_order(bb: BoundingBoxModel, zoom: i32)
    ensures
        bbox_query_value(bb, zoom) == bb.left + seq![','] + bb.bottom + seq![','] + bb.right + seq![
            ','
        ] + bb.top + seq![','] + dec_int(zoom as int),
{
}

/// Cluster flag mapping: the parameter value is the literal `yes` or `no`,
/// never `true` or `false`.
pub proof fn lemma_cluster_flag(cluster: bool)
    ensures
        cluster_value(true) == "yes"@,
        cluster_value(false) == "no"@,
        cluster_value(cluster) != "true"@,
        cluster_value(cluster) != "false"@,
{
    reveal_strlit("yes");
    reveal_strlit("no");
    reveal_strlit("true");
    reveal_strlit("false");
    assert(cluster_value(true).len() == 3);
    assert(cluster_value(false).len() == 2);
    assert("true"@.len() == 4);
    assert("false"@.len() == 5);
}

/// The `q` parameter a by-name lookup sends holds exactly the composed
/// city-and-country value.
pub proof fn lemma_by_name_q_parameter(m: UriModel, city: Seq<char>, country: Option<Seq<char>>)
    ensures
        lookup_param(by_name_model(m, city, country).params, "q"@) == Some(
            name_query_value(city, country),
        ),
{
    lemma_upsert_value(m.with_endpoint("weather"@), "q"@, name_query_value(city, country));
}

/// The `zip` parameter a by-ZIP lookup sends holds exactly the composed
/// code-and-country value.
pub proof fn lemma_by_zip_parameter(m: UriModel, zip: i32, country: Option<Seq<char>>)
    ensures
        lookup_param(by_zip_model(m, zip, country).params, "zip"@) == Some(
            zip_query_value(zip, country),
        ),
{
    lemma_upsert_value(m.with_endpoint("weather"@), "zip"@, zip_query_value(zip, country));
}

/// A bounding-box lookup sends `bbox` holding exactly the fixed-order value
/// and `cluster` holding exactly the flag's mapping.
pub proof fn lemma_by_bounds_parameters(m: UriModel, bb: BoundingBoxModel, zoom: i32, cluster: bool)
    ensures
        lookup_param(by_bounds_model(m, bb, zoom, cluster).params, "bbox"@) == Some(
            bbox_query_value(bb, zoom),
        ),
        lookup_param(by_bounds_model(m, bb, zoom, cluster).params, "cluster"@) == Some(
            cluster_value(cluster),
        ),
{
    let m1 = m.with_endpoint("box/city"@);
    let m2 = m1.upsert("bbox"@, bbox_query_value(bb, zoom));
    reveal_strlit("bbox");
    reveal_strlit("cluster");
    assert("bbox"@.len() == 4);
    assert("cluster"@.len() == 7);
    lemma_upsert_value(m1, "bbox"@, bbox_query_value(bb, zoom));
    lemma_upsert_preserves_others(m2, "cluster"@, cluster_value(cluster), "bbox"@);
    lemma_upsert_value(m2, "cluster"@, cluster_value(cluster));
}

/// A bounding-circle lookup sends `cnt` holding exactly the count's decimal
/// rendering and `cluster` holding exactly the flag's mapping.
pub proof fn lemma_by_circle_parameters(
    m: UriModel,
    lat: Seq<char>,
    lon: Seq<char>,
    count: i32,
    cluster: bool,
)
    ensures
        lookup_param(by_circle_model(m, lat, lon, count, cluster).params, "cnt"@) == Some(
            dec_int(count as int),
        ),
        lookup_param(by_circle_model(m, lat, lon, count, cluster).params, "cluster"@) == Some(
            cluster_value(cluster),
        ),
{
    let m3 = m.with_endpoint("find"@).upsert("lat"@, lat).upsert("lon"@, lon);
    let m4 = m3.upsert("cnt"@, dec_int(count as int));
    reveal_strlit("cnt");
    reveal_strlit("cluster");
    assert("cnt"@.len() == 3);
    assert("cluster"@.len() == 7);
    lemma_upsert_value(m3, "cnt"@, dec_int(count as int));
    lemma_upsert_preserves_others(m4, "cluster"@, cluster_value(cluster), "cnt"@);
    lemma_upsert_value(m4, "cluster"@, cluster_value(cluster));
}

/// The authentication parameter survives every lookup: none of the six modes
/// writes the `appid` key, so the value the hub seeded is still sent.
pub proof fn lemma_api_key_kept(
    m: UriModel,
    city: Seq<char>,
    country: Option<Seq<char>>,
    id: i32,
    zip: i32,
    lat: Seq<char>,
    lon: Seq<char>,
    bb: BoundingBoxModel,
    zoom: i32,
    count: i32,
    cluster: bool,
)
    ensures
        lookup_param(by_name_model(m, city, country).params, "appid"@) == lookup_param(
            m.params,
            "appid"@,
        ),
        lookup_param(by_id_model(m, id).params, "appid"@) == lookup_param(m.params, "appid"@),
        lookup_param(by_zip_model(m, zip, country).params, "appid"@) == lookup_param(
            m.params,
            "appid"@,
        ),
        lookup_param(by_coords_model(m, lat, lon).params, "appid"@) == lookup_param(
            m.params,
            "appid"@,
        ),
        lookup_param(by_bounds_model(m, bb, zoom, cluster).params, "appid"@) == lookup_param(
            m.params,
            "appid"@,
        ),
        lookup_param(by_circle_model(m, lat, lon, count, cluster).params, "appid"@)
            == lookup_param(m.params, "appid"@),
{
    reveal_strlit("appid");
    reveal_strlit("q");
    reveal_strlit("id");
    reveal_strlit("zip");
    reveal_strlit("lat");
    reveal_strlit("lon");
    reveal_strlit("bbox");
    reveal_strlit("cnt");
    reveal_strlit("cluster");
    assert("appid"@.len() == 5 && "q"@.len() == 1 && "id"@.len() == 2 && "zip"@.len() == 3
        && "lat"@.len() == 3 && "lon"@.len() == 3 && "bbox"@.len() == 4 && "cnt"@.len() == 3
        && "cluster"@.len() == 7);
    lemma_upsert_preserves_others(
        m.with_endpoint("weather"@),
        "q"@,
        name_query_value(city, country),
        "appid"@,
    );
    lemma_upsert_preserves_others(m.with_endpoint("weather"@), "id"@, dec_int(id as int), "appid"@);
    lemma_upsert_preserves_others(
        m.with_endpoint("weather"@),
        "zip"@,
        zip_query_value(zip, country),
        "appid"@,
    );
    let c1 = m.with_endpoint("weather"@).upsert("lat"@, lat);
    lemma_upsert_preserves_others(m.with_endpoint("weather"@), "lat"@, lat, "appid"@);
    lemma_upsert_preserves_others(c1, "lon"@, lon, "appid"@);
    let b1 = m.with_endpoint("box/city"@).upsert("bbox"@, bbox_query_value(bb, zoom));
    lemma_upsert_preserves_others(
        m.with_endpoint("box/city"@),
        "bbox"@,
        bbox_query_value(bb, zoom),
        "appid"@,
    );
    lemma_upsert_preserves_others(b1, "cluster"@, cluster_value(cluster), "appid"@);
    let f1 = m.with_endpoint("find"@).upsert("lat"@, lat);
    let f2 = f1.upsert("lon"@, lon);
    let f3 = f2.upsert("cnt"@, dec_int(count as int));
    lemma_upsert_preserves_others(m.with_endpoint("find"@), "lat"@, lat, "appid"@);
    lemma_upsert_preserves_others(f1, "lon"@, lon, "appid"@);
    lemma_upsert_preserves_others(f2, "cnt"@, dec_int(count as int), "appid"@);
    lemma_upsert_preserves_others(f3, "cluster"@, cluster_value(cluster), "appid"@);
}

/// Query builder for the Current Weather API, pre-seeded with the hub's API
/// key; one terminal method per lookup mode consumes it.
pub struct CurrentWeatherQuery<'a, C: Transport> {
    hub: &'a WeatherHub<C>,
    builder: UriBuilder,
}

impl<'a, C: Transport> HasBuilder for CurrentWeatherQuery<'a, C> {
    closed spec fn builder_model(&self) -> UriModel {
        self.builder@
    }

    fn builder_param(&mut self, key: &str, value: &str) {
        self.builder.param(key, value);
    }
}

impl<'a, C: Transport> FormatResponse for CurrentWeatherQuery<'a, C> {

}

impl<'a, C: Transport> CurrentWeatherQuery<'a, C> {
    /// A query bound to a hub, starting from the given builder.
    pub fn new(hub: &'a WeatherHub<C>, builder: UriBuilder) -> (q: CurrentWeatherQuery<'a, C>)
        ensures
            q.builder_model() == builder@,
    {
        CurrentWeatherQuery { hub, builder }
    }

    /// Query current weather by city name and an optional country code.
    pub fn by_name(self, city: &str, country: Option<&str>) -> (r: Result<
        (HttpResponse, WeatherInfo),
        Error,
    >)
        requires
            self.builder_wf(),
        ensures
            call_resolved(
                (|b: Seq<char>| weather_payload_of(b)),
                spec_url(by_name_model(self.builder_model(), city@, opt_str_ref(country))),
                weather_result_model(r),
            ),
    {
        let q: String = match country {
            None => city.to_owned(),
            Some(code) => {
                let mut s = city.to_owned();
                s.append(",");
                s.append(code);
                proof {
                    reveal_strlit(",");
                    assert(s@ =~= name_query_value(city@, opt_str_ref(country)));
                }
                s
            },
        };
        let mut b = self.builder;
        b.method("weather");
        b.param("q", q.as_str());
        let url = b.build();
        self.hub.run_weather(url)
    }

    /// Query current weather by city ID. The API responds with the exact
    /// city.
    pub fn by_id(self, id: i32) -> (r: Result<(HttpResponse, WeatherInfo), Error>)
        requires
            self.builder_wf(),
        ensures
            call_resolved(
                (|b: Seq<char>| weather_payload_of(b)),
                spec_url(by_id_model(self.builder_model(), id)),
                weather_result_model(r),
            ),
    {
        let v = i32_string(id);
        let mut b = self.builder;
        b.method("weather");
        b.param("id", v.as_str());
        let url = b.build();
        self.hub.run_weather(url)
    }

    /// Query current weather by ZIP code and an optional country code.
    pub fn by_zip_code(self, zip: i32, country: Option<&str>) -> (r: Result<
        (HttpResponse, WeatherInfo),
        Error,
    >)
        requires
            self.builder_wf(),
        ensures
            call_resolved(
                (|b: Seq<char>| weather_payload_of(b)),
                spec_url(by_zip_model(self.builder_model(), zip, opt_str_ref(country))),
                weather_result_model(r),
            ),
    {
        let z = i32_string(zip);
        let q: String = match country {
            None => z,
            Some(code) => {
                let mut s = z;
                s.append(",");
                s.append(code);
                proof {
                    reveal_strlit(",");
                    assert(s@ =~= zip_query_value(zip, opt_str_ref(country)));
                }
                s
            },
        };
        let mut b = self.builder;
        b.method("weather");
        b.param("zip", q.as_str());
        let url = b.build();
        self.hub.run_weather(url)
    }

    /// Query current weather by a coordinate point, each coordinate given as
    /// its decimal rendering.
    pub fn by_coords(self, lat: &str, lon: &str) -> (r: Result<(HttpResponse, WeatherInfo), Error>)
        requires
            self.builder_wf(),
        ensures
            call_resolved(
                (|b: Seq<char>| weather_payload_of(b)),
                spec_url(by_coords_model(self.builder_model(), lat@, lon@)),
                weather_result_model(r),
            ),
    {
        let mut b = self.builder;
        b.method("weather");
        b.param("lat", lat);
        b.param("lon", lon);
        let url = b.build();
        self.hub.run_weather(url)
    }

    /// Query current weather for cities within the rectangle, using the given
    /// zoom; the server may cluster nearby points.
    pub fn by_bounds(self, bbox: &BoundingBox, zoom: i32, cluster: bool) -> (r: Result<
        (HttpResponse, WeatherBoxAggregate),
        Error,
    >)
        requires
            self.builder_wf(),
        ensures
            call_resolved(
                (|b: Seq<char>| box_payload_of(b)),
                spec_url(by_bounds_model(self.builder_model(), bbox@, zoom, cluster)),
                box_result_model(r),
            ),
    {
        let z = i32_string(zoom);
        let mut q = bbox.left.clone();
        q.append(",");
        q.append(bbox.bottom.as_str());
        q.append(",");
        q.append(bbox.right.as_str());
        q.append(",");
        q.append(bbox.top.as_str());
        q.append(",");
        q.append(z.as_str());
        proof {
            reveal_strlit(",");
            assert(q@ =~= bbox_query_value(bbox@, zoom));
        }
        let mut b = self.builder;
        b.method("box/city");
        b.param("bbox", q.as_str());
        b.param("cluster", if cluster { "yes" } else { "no" });
        let url = b.build();
        self.hub.run_box(url)
    }

    /// Query current weather for cities inside a circle specified by its
    /// center point and the expected number of cities within.
    pub fn by_circle(self, lat: &str, lon: &str, count: i32, cluster: bool) -> (r: Result<
        (HttpResponse, WeatherAggregate),
        Error,
    >)
        requires
            self.builder_wf(),
        ensures
            call_resolved(
                (|b: Seq<char>| aggregate_payload_of(b)),
                spec_url(by_circle_model(self.builder_model(), lat@, lon@, count, cluster)),
                aggregate_result_model(r),
            ),
    {
        let c = i32_string(count);
        let mut b = self.builder;
        b.method("find");
        b.param("lat", lat);
        b.param("lon", lon);
        b.param("cnt", c.as_str());
        b.param("cluster", if cluster { "yes" } else { "no" });
        let url = b.build();
        self.hub.run_aggregate(url)
    }
}

/// View of an optional borrowed string.
pub open spec fn opt_str_ref(o: Option<&str>) -> Option<Seq<char>> {
    match o {
        Some(s) => Some(s@),
        None => None,
    }
}

} // verus!

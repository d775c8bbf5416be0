//! The typed payload shapes the API answers with, and their extraction from
//! parsed JSON.
//!
//! Every payload field is optional: the server may omit any of them, and an
//! omitted or null field reads as `None`. A field that is present with an
//! unexpected type makes the whole payload unreadable — extraction fails
//! rather than defaulting the field. Quantities the server reports with a
//! decimal point (temperatures, wind speeds, coordinates) are carried as the
//! number's rendered text.

use crate::json::{
    field_i32, field_i64, field_num_text, field_str, fields_model, items_model, lookup, Json,
    JsonModel, spec_field_i32, spec_field_i64, spec_field_num_text, spec_field_str, spec_lookup,
};
use vstd::prelude::*;

verus! {

/// View of an optional string.
pub open spec fn opt_str(o: Option<String>) -> Option<Seq<char>> {
    match o {
        Some(s) => Some(s@),
        None => None,
    }
}

/// Contains the geographic coordinates of the location.
#[derive(Default, Clone, Debug)]
pub struct Coordinates {
    /// Longitude, as the server rendered it
    pub lon: Option<String>,
    /// Latitude, as the server rendered it
    pub lat: Option<String>,
}

/// Spec-level `Coordinates`.
pub struct CoordinatesModel {
    pub lon: Option<Seq<char>>,
    pub lat: Option<Seq<char>>,
}

impl View for Coordinates {
    type V = CoordinatesModel;

    open spec fn view(&self) -> CoordinatesModel {
        CoordinatesModel { lon: opt_str(self.lon), lat: opt_str(self.lat) }
    }
}

/// What a `Coordinates` payload reads from a JSON value: an object with
/// optional numeric `lon` and `lat`.
pub open spec fn spec_coordinates_of(j: JsonModel) -> Option<CoordinatesModel> {
    match j {
        JsonModel::Obj(fs) => {
            let lon = spec_field_num_text(fs, "lon"@);
            let lat = spec_field_num_text(fs, "lat"@);
            if lon is Some && lat is Some {
                Some(CoordinatesModel { lon: lon->0, lat: lat->0 })
            } else {
                None
            }
        },
        _ => None,
    }
}

/// Read a `Coordinates` out of a JSON value.
pub fn coordinates_of_json(j: &Json) -> (r: Option<Coordinates>)
    ensures
        (match r {
            Some(c) => spec_coordinates_of(j@) == Some(c@),
            None => spec_coordinates_of(j@) == None::<CoordinatesModel>,
        }),
{
    match j {
        Json::Obj(fields) => {
            proof {
                crate::json::lemma_obj_view(*fields);
            }
            let lon = field_num_text(fields, "lon")?;
            let lat = field_num_text(fields, "lat")?;
            Some(Coordinates { lon, lat })
        },
        _ => None,
    }
}

/// Represents the API's weather condition records.
#[derive(Default, Clone, Debug)]
pub struct Weather {
    /// Weather condition ID
    pub id: Option<i32>,
    /// Group of weather parameters
    pub main: Option<String>,
    /// Weather condition within the group
    pub description: Option<String>,
    /// Weather icon ID
    pub icon: Option<String>,
}

/// Spec-level `Weather`.
pub struct WeatherModel {
    pub id: Option<i32>,
    pub main: Option<Seq<char>>,
    pub description: Option<Seq<char>>,
    pub icon: Option<Seq<char>>,
}

impl View for Weather {
    type V = WeatherModel;

    open spec fn view(&self) -> WeatherModel {
        WeatherModel {
            id: self.id,
            main: opt_str(self.main),
            description: opt_str(self.description),
            icon: opt_str(self.icon),
        }
    }
}

/// What a `Weather` record reads from a JSON value.
pub open spec fn spec_weather_of(j: JsonModel) -> Option<WeatherModel> {
    match j {
        JsonModel::Obj(fs) => {
            let id = spec_field_i32(fs, "id"@);
            let main = spec_field_str(fs, "main"@);
            let description = spec_field_str(fs, "description"@);
            let icon = spec_field_str(fs, "icon"@);
            if id is Some && main is Some && description is Some && icon is Some {
                Some(
                    WeatherModel {
                        id: id->0,
                        main: main->0,
                        description: description->0,
                        icon: icon->0,
                    },
                )
            } else {
                None
            }
        },
        _ => None,
    }
}

/// Read a `Weather` record out of a JSON value.
pub fn weather_of_json(j: &Json) -> (r: Option<Weather>)
    ensures
        (match r {
            Some(w) => spec_weather_of(j@) == Some(w@),
            None => spec_weather_of(j@) == None::<WeatherModel>,
        }),
{
    match j {
        Json::Obj(fields) => {
            proof {
                crate::json::lemma_obj_view(*fields);
            }
            let id = field_i32(fields, "id")?;
            let main = field_str(fields, "main")?;
            let description = field_str(fields, "description")?;
            let icon = field_str(fields, "icon")?;
            Some(Weather { id, main, description, icon })
        },
        _ => None,
    }
}

/// Contains weather information not tied to particular weather conditions.
#[derive(Default, Clone, Debug)]
pub struct Main {
    /// Current temperature, as the server rendered it
    pub temp: Option<String>,
    /// Atmospheric pressure [hPa]
    pub pressure: Option<i32>,
    /// Humidity [%]
    pub humidity: Option<i32>,
    /// Minimum temperature at the moment
    pub temp_min: Option<String>,
    /// Maximum temperature at the moment
    pub temp_max: Option<String>,
    /// Atmospheric pressure on the sea level [hPa]
    pub sea_level: Option<i32>,
    /// Atmospheric pressure on the ground level [hPa]
    pub grnd_level: Option<i32>,
}

/// Spec-level `Main`.
pub struct MainModel {
    pub temp: Option<Seq<char>>,
    pub pressure: Option<i32>,
    pub humidity: Option<i32>,
    pub temp_min: Option<Seq<char>>,
    pub temp_max: Option<Seq<char>>,
    pub sea_level: Option<i32>,
    pub grnd_level: Option<i32>,
}

impl View for Main {
    type V = MainModel;

    open spec fn view(&self) -> MainModel {
        MainModel {
            temp: opt_str(self.temp),
            pressure: self.pressure,
            humidity: self.humidity,
            temp_min: opt_str(self.temp_min),
            temp_max: opt_str(self.temp_max),
            sea_level: self.sea_level,
            grnd_level: self.grnd_level,
        }
    }
}

/// What a `Main` record reads from a JSON value.
pub open spec fn spec_main_of(j: JsonModel) -> Option<MainModel> {
    match j {
        JsonModel::Obj(fs) => {
            let temp = spec_field_num_text(fs, "temp"@);
            let pressure = spec_field_i32(fs, "pressure"@);
            let humidity = spec_field_i32(fs, "humidity"@);
            let temp_min = spec_field_num_text(fs, "temp_min"@);
            let temp_max = spec_field_num_text(fs, "temp_max"@);
            let sea_level = spec_field_i32(fs, "sea_level"@);
            let grnd_level = spec_field_i32(fs, "grnd_level"@);
            if temp is Some && pressure is Some && humidity is Some && temp_min is Some
                && temp_max is Some && sea_level is Some && grnd_level is Some {
                Some(
                    MainModel {
                        temp: temp->0,
                        pressure: pressure->0,
                        humidity: humidity->0,
                        temp_min: temp_min->0,
                        temp_max: temp_max->0,
                        sea_level: sea_level->0,
                        grnd_level: grnd_level->0,
                    },
                )
            } else {
                None
            }
        },
        _ => None,
    }
}

/// Read a `Main` record out of a JSON value.
pub fn main_of_json(j: &Json) -> (r: Option<Main>)
    ensures
        (match r {
            Some(m) => spec_main_of(j@) == Some(m@),
            None => spec_main_of(j@) == None::<MainModel>,
        }),
{
    match j {
        Json::Obj(fields) => {
            proof {
                crate::json::lemma_obj_view(*fields);
            }
            let temp = field_num_text(fields, "temp")?;
            let pressure = field_i32(fields, "pressure")?;
            let humidity = field_i32(fields, "humidity")?;
            let temp_min = field_num_text(fields, "temp_min")?;
            let temp_max = field_num_text(fields, "temp_max")?;
            let sea_level = field_i32(fields, "sea_level")?;
            let grnd_level = field_i32(fields, "grnd_level")?;
            Some(Main { temp, pressure, humidity, temp_min, temp_max, sea_level, grnd_level })
        },
        _ => None,
    }
}

/// Contains wind-related information.
#[derive(Default, Clone, Debug)]
pub struct Wind {
    /// Wind speed, as the server rendered it
    pub speed: Option<String>,
    /// Wind direction [deg] (meteorological)
    pub deg: Option<i32>,
    /// Wind gust, same units as speed
    pub gust: Option<String>,
}

/// Spec-level `Wind`.
pub struct WindModel {
    pub speed: Option<Seq<char>>,
    pub deg: Option<i32>,
    pub gust: Option<Seq<char>>,
}

impl View for Wind {
    type V = WindModel;

    open spec fn view(&self) -> WindModel {
        WindModel { speed: opt_str(self.speed), deg: self.deg, gust: opt_str(self.gust) }
    }
}

/// What a `Wind` record reads from a JSON value.
pub open spec fn spec_wind_of(j: JsonModel) -> Option<WindModel> {
    match j {
        JsonModel::Obj(fs) => {
            let speed = spec_field_num_text(fs, "speed"@);
            let deg = spec_field_i32(fs, "deg"@);
            let gust = spec_field_num_text(fs, "gust"@);
            if speed is Some && deg is Some && gust is Some {
                Some(WindModel { speed: speed->0, deg: deg->0, gust: gust->0 })
            } else {
                None
            }
        },
        _ => None,
    }
}

/// Read a `Wind` record out of a JSON value.
pub fn wind_of_json(j: &Json) -> (r: Option<Wind>)
    ensures
        (match r {
            Some(w) => spec_wind_of(j@) == Some(w@),
            None => spec_wind_of(j@) == None::<WindModel>,
        }),
{
    match j {
        Json::Obj(fields) => {
            proof {
                crate::json::lemma_obj_view(*fields);
            }
            let speed = field_num_text(fields, "speed")?;
            let deg = field_i32(fields, "deg")?;
            let gust = field_num_text(fields, "gust")?;
            Some(Wind { speed, deg, gust })
        },
        _ => None,
    }
}

/// Contains cloud-related information.
#[derive(Default, Clone, Debug)]
pub struct Clouds {
    /// Cloudiness [%]
    pub all: Option<i32>,
}

/// Spec-level `Clouds`.
pub struct CloudsModel {
    pub all: Option<i32>,
}

impl View for Clouds {
    type V = CloudsModel;

    open spec fn view(&self) -> CloudsModel {
        CloudsModel { all: self.all }
    }
}

/// What a `Clouds` record reads from a JSON value.
pub open spec fn spec_clouds_of(j: JsonModel) -> Option<CloudsModel> {
    match j {
        JsonModel::Obj(fs) => {
            let all = spec_field_i32(fs, "all"@);
            if all is Some {
                Some(CloudsModel { all: all->0 })
            } else {
                None
            }
        },
        _ => None,
    }
}

/// Read a `Clouds` record out of a JSON value.
pub fn clouds_of_json(j: &Json) -> (r: Option<Clouds>)
    ensures
        (match r {
            Some(c) => spec_clouds_of(j@) == Some(c@),
            None => spec_clouds_of(j@) == None::<CloudsModel>,
        }),
{
    match j {
        Json::Obj(fields) => {
            proof {
                crate::json::lemma_obj_view(*fields);
            }
            let all = field_i32(fields, "all")?;
            Some(Clouds { all })
        },
        _ => None,
    }
}

/// Contains rain-related information.
#[derive(Default, Clone, Debug)]
pub struct Rain {
    /// Rain volume for the last 3 hours, sent under the key `3h`
    pub three_hours: Option<i32>,
}

/// Spec-level `Rain`.
pub struct RainModel {
    pub three_hours: Option<i32>,
}

impl View for Rain {
    type V = RainModel;

    open spec fn view(&self) -> RainModel {
        RainModel { three_hours: self.three_hours }
    }
}

/// What a `Rain` record reads from a JSON value.
pub open spec fn spec_rain_of(j: JsonModel) -> Option<RainModel> {
    match j {
        JsonModel::Obj(fs) => {
            let three_hours = spec_field_i32(fs, "3h"@);
            if three_hours is Some {
                Some(RainModel { three_hours: three_hours->0 })
            } else {
                None
            }
        },
        _ => None,
    }
}

/// Read a `Rain` record out of a JSON value.
pub fn rain_of_json(j: &Json) -> (r: Option<Rain>)
    ensures
        (match r {
            Some(x) => spec_rain_of(j@) == Some(x@),
            None => spec_rain_of(j@) == None::<RainModel>,
        }),
{
    match j {
        Json::Obj(fields) => {
            proof {
                crate::json::lemma_obj_view(*fields);
            }
            let three_hours = field_i32(fields, "3h")?;
            Some(Rain { three_hours })
        },
        _ => None,
    }
}

/// Contains snow-related information.
#[derive(Default, Clone, Debug)]
pub struct Snow {
    /// Snow volume for the last 3 hours, sent under the key `3h`
    pub three_hours: Option<i32>,
}

/// Spec-level `Snow`.
pub struct SnowModel {
    pub three_hours: Option<i32>,
}

impl View for Snow {
    type V = SnowModel;

    open spec fn view(&self) -> SnowModel {
        SnowModel { three_hours: self.three_hours }
    }
}

/// What a `Snow` record reads from a JSON value.
pub open spec fn spec_snow_of(j: JsonModel) -> Option<SnowModel> {
    match j {
        JsonModel::Obj(fs) => {
            let three_hours = spec_field_i32(fs, "3h"@);
            if three_hours is Some {
                Some(SnowModel { three_hours: three_hours->0 })
            } else {
                None
            }
        },
        _ => None,
    }
}

/// Read a `Snow` record out of a JSON value.
pub fn snow_of_json(j: &Json) -> (r: Option<Snow>)
    ensures
        (match r {
            Some(x) => spec_snow_of(j@) == Some(x@),
            None => spec_snow_of(j@) == None::<SnowModel>,
        }),
{
    match j {
        Json::Obj(fields) => {
            proof {
                crate::json::lemma_obj_view(*fields);
            }
            let three_hours = field_i32(fields, "3h")?;
            Some(Snow { three_hours })
        },
        _ => None,
    }
}

/// Contains internal API parameters.
#[derive(Default, Clone, Debug)]
pub struct Sys {
    /// Internal parameter, sent under the key `type`
    pub type_: Option<i32>,
    /// Internal parameter
    pub id: Option<i32>,
    /// Internal parameter, as the server rendered it
    pub message: Option<String>,
    /// Country code
    pub country: Option<String>,
    /// Sunrise time, Unix, UTC
    pub sunrise: Option<i64>,
    /// Sunset time, Unix, UTC
    pub sunset: Option<i64>,
}

/// Spec-level `Sys`.
pub struct SysModel {
    pub type_: Option<i32>,
    pub id: Option<i32>,
    pub message: Option<Seq<char>>,
    pub country: Option<Seq<char>>,
    pub sunrise: Option<i64>,
    pub sunset: Option<i64>,
}

impl View for Sys {
    type V = SysModel;

    open spec fn view(&self) -> SysModel {
        SysModel {
            type_: self.type_,
            id: self.id,
            message: opt_str(self.message),
            country: opt_str(self.country),
            sunrise: self.sunrise,
            sunset: self.sunset,
        }
    }
}

/// What a `Sys` record reads from a JSON value.
pub open spec fn spec_sys_of(j: JsonModel) -> Option<SysModel> {
    match j {
        JsonModel::Obj(fs) => {
            let type_ = spec_field_i32(fs, "type"@);
            let id = spec_field_i32(fs, "id"@);
            let message = spec_field_num_text(fs, "message"@);
            let country = spec_field_str(fs, "country"@);
            let sunrise = spec_field_i64(fs, "sunrise"@);
            let sunset = spec_field_i64(fs, "sunset"@);
            if type_ is Some && id is Some && message is Some && country is Some && sunrise is Some
                && sunset is Some {
                Some(
                    SysModel {
                        type_: type_->0,
                        id: id->0,
                        message: message->0,
                        country: country->0,
                        sunrise: sunrise->0,
                        sunset: sunset->0,
                    },
                )
            } else {
                None
            }
        },
        _ => None,
    }
}

/// Read a `Sys` record out of a JSON value.
pub fn sys_of_json(j: &Json) -> (r: Option<Sys>)
    ensures
        (match r {
            Some(s) => spec_sys_of(j@) == Some(s@),
            None => spec_sys_of(j@) == None::<SysModel>,
        }),
{
    match j {
        Json::Obj(fields) => {
            proof {
                crate::json::lemma_obj_view(*fields);
            }
            let type_ = field_i32(fields, "type")?;
            let id = field_i32(fields, "id")?;
            let message = field_num_text(fields, "message")?;
            let country = field_str(fields, "country")?;
            let sunrise = field_i64(fields, "sunrise")?;
            let sunset = field_i64(fields, "sunset")?;
            Some(Sys { type_, id, message, country, sunrise, sunset })
        },
        _ => None,
    }
}

/// View of an optional viewable value.
pub open spec fn opt_view<T: View>(o: Option<T>) -> Option<T::V> {
    match o {
        Some(x) => Some(x@),
        None => None,
    }
}

/// A nested-record field: absent or null is no value, a value the record
/// reads is its value, anything else is ill-typed.
pub open spec fn spec_field_rec<M>(
    fs: Seq<(Seq<char>, JsonModel)>,
    key: Seq<char>,
    of: spec_fn(JsonModel) -> Option<M>,
) -> Option<Option<M>> {
    match spec_lookup(fs, key) {
        None => Some(None),
        Some(JsonModel::Null) => Some(None),
        Some(cj) => match of(cj) {
            Some(m) => Some(Some(m)),
            None => None,
        },
    }
}

/// Read an optional `Coordinates` field.
pub fn field_coordinates(fields: &Vec<(String, Json)>, key: &str) -> (r: Option<
    Option<Coordinates>,
>)
    ensures
        (match r {
            None => spec_field_rec(fields_model(fields@), key@, |cj| spec_coordinates_of(cj))
                == None::<Option<CoordinatesModel>>,
            Some(None) => spec_field_rec(fields_model(fields@), key@, |cj| spec_coordinates_of(cj))
                == Some(None::<CoordinatesModel>),
            Some(Some(c)) => spec_field_rec(fields_model(fields@), key@, |cj| spec_coordinates_of(cj))
                == Some(Some(c@)),
        }),
{
    match lookup(fields, key) {
        None => Some(None),
        Some(cj) => match cj {
            Json::Null => Some(None),
            _ => match coordinates_of_json(cj) {
                Some(c) => Some(Some(c)),
                None => None,
            },
        },
    }
}

/// Read an optional `Main` field.
pub fn field_main(fields: &Vec<(String, Json)>, key: &str) -> (r: Option<Option<Main>>)
    ensures
        (match r {
            None => spec_field_rec(fields_model(fields@), key@, |cj| spec_main_of(cj)) == None::<
                Option<MainModel>,
            >,
            Some(None) => spec_field_rec(fields_model(fields@), key@, |cj| spec_main_of(cj))
                == Some(None::<MainModel>),
            Some(Some(m)) => spec_field_rec(fields_model(fields@), key@, |cj| spec_main_of(cj))
                == Some(Some(m@)),
        }),
{
    match lookup(fields, key) {
        None => Some(None),
        Some(cj) => match cj {
            Json::Null => Some(None),
            _ => match main_of_json(cj) {
                Some(m) => Some(Some(m)),
                None => None,
            },
        },
    }
}

/// Read an optional `Wind` field.
pub fn field_wind(fields: &Vec<(String, Json)>, key: &str) -> (r: Option<Option<Wind>>)
    ensures
        (match r {
            None => spec_field_rec(fields_model(fields@), key@, |cj| spec_wind_of(cj)) == None::<
                Option<WindModel>,
            >,
            Some(None) => spec_field_rec(fields_model(fields@), key@, |cj| spec_wind_of(cj))
                == Some(None::<WindModel>),
            Some(Some(w)) => spec_field_rec(fields_model(fields@), key@, |cj| spec_wind_of(cj))
                == Some(Some(w@)),
        }),
{
    match lookup(fields, key) {
        None => Some(None),
        Some(cj) => match cj {
            Json::Null => Some(None),
            _ => match wind_of_json(cj) {
                Some(w) => Some(Some(w)),
                None => None,
            },
        },
    }
}

/// Read an optional `Clouds` field.
pub fn field_clouds(fields: &Vec<(String, Json)>, key: &str) -> (r: Option<Option<Clouds>>)
    ensures
        (match r {
            None => spec_field_rec(fields_model(fields@), key@, |cj| spec_clouds_of(cj)) == None::<
                Option<CloudsModel>,
            >,
            Some(None) => spec_field_rec(fields_model(fields@), key@, |cj| spec_clouds_of(cj))
                == Some(None::<CloudsModel>),
            Some(Some(c)) => spec_field_rec(fields_model(fields@), key@, |cj| spec_clouds_of(cj))
                == Some(Some(c@)),
        }),
{
    match lookup(fields, key) {
        None => Some(None),
        Some(cj) => match cj {
            Json::Null => Some(None),
            _ => match clouds_of_json(cj) {
                Some(c) => Some(Some(c)),
                None => None,
            },
        },
    }
}

/// Read an optional `Rain` field.
pub fn field_rain(fields: &Vec<(String, Json)>, key: &str) -> (r: Option<Option<Rain>>)
    ensures
        (match r {
            None => spec_field_rec(fields_model(fields@), key@, |cj| spec_rain_of(cj)) == None::<
                Option<RainModel>,
            >,
            Some(None) => spec_field_rec(fields_model(fields@), key@, |cj| spec_rain_of(cj))
                == Some(None::<RainModel>),
            Some(Some(x)) => spec_field_rec(fields_model(fields@), key@, |cj| spec_rain_of(cj))
                == Some(Some(x@)),
        }),
{
    match lookup(fields, key) {
        None => Some(None),
        Some(cj) => match cj {
            Json::Null => Some(None),
            _ => match rain_of_json(cj) {
                Some(x) => Some(Some(x)),
                None => None,
            },
        },
    }
}

/// Read an optional `Snow` field.
pub fn field_snow(fields: &Vec<(String, Json)>, key: &str) -> (r: Option<Option<Snow>>)
    ensures
        (match r {
            None => spec_field_rec(fields_model(fields@), key@, |cj| spec_snow_of(cj)) == None::<
                Option<SnowModel>,
            >,
            Some(None) => spec_field_rec(fields_model(fields@), key@, |cj| spec_snow_of(cj))
                == Some(None::<SnowModel>),
            Some(Some(x)) => spec_field_rec(fields_model(fields@), key@, |cj| spec_snow_of(cj))
                == Some(Some(x@)),
        }),
{
    match lookup(fields, key) {
        None => Some(None),
        Some(cj) => match cj {
            Json::Null => Some(None),
            _ => match snow_of_json(cj) {
                Some(x) => Some(Some(x)),
                None => None,
            },
        },
    }
}

/// Read an optional `Sys` field.
pub fn field_sys(fields: &Vec<(String, Json)>, key: &str) -> (r: Option<Option<Sys>>)
    ensures
        (match r {
            None => spec_field_rec(fields_model(fields@), key@, |cj| spec_sys_of(cj)) == None::<
                Option<SysModel>,
            >,
            Some(None) => spec_field_rec(fields_model(fields@), key@, |cj| spec_sys_of(cj)) == Some(
                None::<SysModel>,
            ),
            Some(Some(x)) => spec_field_rec(fields_model(fields@), key@, |cj| spec_sys_of(cj))
                == Some(Some(x@)),
        }),
{
    match lookup(fields, key) {
        None => Some(None),
        Some(cj) => match cj {
            Json::Null => Some(None),
            _ => match sys_of_json(cj) {
                Some(x) => Some(Some(x)),
                None => None,
            },
        },
    }
}

/// Model of a list of `Weather` records.
pub open spec fn weather_vec_model(v: Seq<Weather>) -> Seq<WeatherModel> {
    Seq::new(v.len(), |i: int| v[i]@)
}

/// What a list of `Weather` records reads from a JSON array: every item a
/// readable record, or nothing.
pub open spec fn spec_weather_list_of(js: Seq<JsonModel>) -> Option<Seq<WeatherModel>>
    decreases js.len(),
{
    if js.len() == 0 {
        Some(Seq::empty())
    } else {
        let rest = spec_weather_list_of(js.drop_last());
        let w = spec_weather_of(js.last());
        if rest is Some && w is Some {
            Some(rest->0.push(w->0))
        } else {
            None
        }
    }
}

proof fn lemma_weather_list_fails(js: Seq<JsonModel>, i: int)
    requires
        0 <= i < js.len(),
        spec_weather_of(js[i]) == None::<WeatherModel>,
    ensures
        spec_weather_list_of(js) == None::<Seq<WeatherModel>>,
    decreases js.len(),
{
    if i < js.len() - 1 {
        assert(js.drop_last()[i] == js[i]);
        lemma_weather_list_fails(js.drop_last(), i);
    }
}

/// Read a list of `Weather` records out of a JSON array.
pub fn weather_list_of_json(items: &Vec<Json>) -> (r: Option<Vec<Weather>>)
    ensures
        (match r {
            Some(v) => spec_weather_list_of(items_model(items@)) == Some(weather_vec_model(v@)),
            None => spec_weather_list_of(items_model(items@)) == None::<Seq<WeatherModel>>,
        }),
{
    let n = items.len();
    let mut out: Vec<Weather> = Vec::new();
    let mut i: usize = 0;
    proof {
        assert(items_model(items@).take(0) =~= Seq::<JsonModel>::empty());
        assert(weather_vec_model(out@) =~= Seq::<WeatherModel>::empty());
    }
    while i < n
        invariant
            0 <= i <= n,
            n == items.len(),
            spec_weather_list_of(items_model(items@).take(i as int)) == Some(
                weather_vec_model(out@),
            ),
        decreases n - i,
    {
        let ghost prev = out@;
        match weather_of_json(&items[i]) {
            Some(w) => {
                out.push(w);
                proof {
                    let jm = items_model(items@);
                    assert(jm.take(i + 1 as int).drop_last() =~= jm.take(i as int));
                    assert(jm.take(i + 1 as int).last() == jm[i as int]);
                    assert(jm[i as int] == items@[i as int]@);
                    assert(weather_vec_model(out@) =~= weather_vec_model(prev).push(w@));
                }
            },
            None => {
                proof {
                    assert(items_model(items@)[i as int] == items@[i as int]@);
                    lemma_weather_list_fails(items_model(items@), i as int);
                }
                return None;
            },
        }
        i += 1;
    }
    proof {
        assert(items_model(items@).take(n as int) =~= items_model(items@));
    }
    Some(out)
}

/// Contains all the weather-related information for one location.
#[derive(Default, Clone, Debug)]
pub struct WeatherInfo {
    /// City geographic coordinates
    pub coord: Option<Coordinates>,
    /// Weather conditions
    pub weather: Option<Vec<Weather>>,
    /// Internal parameter
    pub base: Option<String>,
    /// General weather parameters
    pub main: Option<Main>,
    /// Wind-related information
    pub wind: Option<Wind>,
    /// Cloud-related information
    pub clouds: Option<Clouds>,
    /// Rain-related information
    pub rain: Option<Rain>,
    /// Snow-related information
    pub snow: Option<Snow>,
    /// Time of data calculation, Unix, UTC
    pub dt: Option<i64>,
    /// Internal parameter
    pub sys: Option<Sys>,
    /// City ID
    pub id: Option<i64>,
    /// City name
    pub name: Option<String>,
    /// Internal parameter
    pub cod: Option<i32>,
}

/// Spec-level `WeatherInfo`.
pub struct WeatherInfoModel {
    pub coord: Option<CoordinatesModel>,
    pub weather: Option<Seq<WeatherModel>>,
    pub base: Option<Seq<char>>,
    pub main: Option<MainModel>,
    pub wind: Option<WindModel>,
    pub clouds: Option<CloudsModel>,
    pub rain: Option<RainModel>,
    pub snow: Option<SnowModel>,
    pub dt: Option<i64>,
    pub sys: Option<SysModel>,
    pub id: Option<i64>,
    pub name: Option<Seq<char>>,
    pub cod: Option<i32>,
}

impl View for WeatherInfo {
    type V = WeatherInfoModel;

    open spec fn view(&self) -> WeatherInfoModel {
        WeatherInfoModel {
            coord: opt_view(self.coord),
            weather: (match self.weather {
                Some(v) => Some(weather_vec_model(v@)),
                None => None,
            }),
            base: opt_str(self.base),
            main: opt_view(self.main),
            wind: opt_view(self.wind),
            clouds: opt_view(self.clouds),
            rain: opt_view(self.rain),
            snow: opt_view(self.snow),
            dt: self.dt,
            sys: opt_view(self.sys),
            id: self.id,
            name: opt_str(self.name),
            cod: self.cod,
        }
    }
}

/// What a `WeatherInfo` payload reads from a JSON value.
pub open spec fn spec_weather_info_of(j: JsonModel) -> Option<WeatherInfoModel> {
    match j {
        JsonModel::Obj(fs) => {
            let coord = spec_field_rec(fs, "coord"@, |cj| spec_coordinates_of(cj));
            let weather = (match spec_lookup(fs, "weather"@) {
                None => Some(None),
                Some(JsonModel::Null) => Some(None),
                Some(JsonModel::Arr(js)) => (match spec_weather_list_of(js) {
                    Some(ws) => Some(Some(ws)),
                    None => None,
                }),
                Some(_) => None,
            });
            let base = spec_field_str(fs, "base"@);
            let main = spec_field_rec(fs, "main"@, |cj| spec_main_of(cj));
            let wind = spec_field_rec(fs, "wind"@, |cj| spec_wind_of(cj));
            let clouds = spec_field_rec(fs, "clouds"@, |cj| spec_clouds_of(cj));
            let rain = spec_field_rec(fs, "rain"@, |cj| spec_rain_of(cj));
            let snow = spec_field_rec(fs, "snow"@, |cj| spec_snow_of(cj));
            let dt = spec_field_i64(fs, "dt"@);
            let sys = spec_field_rec(fs, "sys"@, |cj| spec_sys_of(cj));
            let id = spec_field_i64(fs, "id"@);
            let name = spec_field_str(fs, "name"@);
            let cod = spec_field_i32(fs, "cod"@);
            if coord is Some && weather is Some && base is Some && main is Some && wind is Some
                && clouds is Some && rain is Some && snow is Some && dt is Some && sys is Some
                && id is Some && name is Some && cod is Some {
                Some(
                    WeatherInfoModel {
                        coord: coord->0,
                        weather: weather->0,
                        base: base->0,
                        main: main->0,
                        wind: wind->0,
                        clouds: clouds->0,
                        rain: rain->0,
                        snow: snow->0,
                        dt: dt->0,
                        sys: sys->0,
                        id: id->0,
                        name: name->0,
                        cod: cod->0,
                    },
                )
            } else {
                None
            }
        },
        _ => None,
    }
}

/// Read a `WeatherInfo` payload out of a JSON value.
pub fn weather_info_of_json(j: &Json) -> (r: Option<WeatherInfo>)
    ensures
        (match r {
            Some(w) => spec_weather_info_of(j@) == Some(w@),
            None => spec_weather_info_of(j@) == None::<WeatherInfoModel>,
        }),
{
    match j {
        Json::Obj(fields) => {
            proof {
                crate::json::lemma_obj_view(*fields);
            }
            let coord = field_coordinates(fields, "coord")?;
            let weather: Option<Vec<Weather>> = match lookup(fields, "weather") {
                None => None,
                Some(wj) => match wj {
                    Json::Null => None,
                    Json::Arr(items) => {
                        proof {
                            crate::json::lemma_arr_view(*items);
                        }
                        match weather_list_of_json(items) {
                            Some(ws) => Some(ws),
                            None => {
                                return None;
                            },
                        }
                    },
                    _ => {
                        return None;
                    },
                },
            };
            let base = field_str(fields, "base")?;
            let main = field_main(fields, "main")?;
            let wind = field_wind(fields, "wind")?;
            let clouds = field_clouds(fields, "clouds")?;
            let rain = field_rain(fields, "rain")?;
            let snow = field_snow(fields, "snow")?;
            let dt = field_i64(fields, "dt")?;
            let sys = field_sys(fields, "sys")?;
            let id = field_i64(fields, "id")?;
            let name = field_str(fields, "name")?;
            let cod = field_i32(fields, "cod")?;
            Some(
                WeatherInfo {
                    coord,
                    weather,
                    base,
                    main,
                    wind,
                    clouds,
                    rain,
                    snow,
                    dt,
                    sys,
                    id,
                    name,
                    cod,
                },
            )
        },
        _ => None,
    }
}

/// Model of a list of `WeatherInfo` payloads.
pub open spec fn info_vec_model(v: Seq<WeatherInfo>) -> Seq<WeatherInfoModel> {
    Seq::new(v.len(), |i: int| v[i]@)
}

/// What a list of `WeatherInfo` payloads reads from a JSON array.
pub open spec fn spec_info_list_of(js: Seq<JsonModel>) -> Option<Seq<WeatherInfoModel>>
    decreases js.len(),
{
    if js.len() == 0 {
        Some(Seq::empty())
    } else {
        let rest = spec_info_list_of(js.drop_last());
        let w = spec_weather_info_of(js.last());
        if rest is Some && w is Some {
            Some(rest->0.push(w->0))
        } else {
            None
        }
    }
}

proof fn lemma_info_list_fails(js: Seq<JsonModel>, i: int)
    requires
        0 <= i < js.len(),
        spec_weather_info_of(js[i]) == None::<WeatherInfoModel>,
    ensures
        spec_info_list_of(js) == None::<Seq<WeatherInfoModel>>,
    decreases js.len(),
{
    if i < js.len() - 1 {
        assert(js.drop_last()[i] == js[i]);
        lemma_info_list_fails(js.drop_last(), i);
    }
}

/// Read a list of `WeatherInfo` payloads out of a JSON array.
pub fn info_list_of_json(items: &Vec<Json>) -> (r: Option<Vec<WeatherInfo>>)
    ensures
        (match r {
            Some(v) => spec_info_list_of(items_model(items@)) == Some(info_vec_model(v@)),
            None => spec_info_list_of(items_model(items@)) == None::<Seq<WeatherInfoModel>>,
        }),
{
    let n = items.len();
    let mut out: Vec<WeatherInfo> = Vec::new();
    let mut i: usize = 0;
    proof {
        assert(items_model(items@).take(0) =~= Seq::<JsonModel>::empty());
        assert(info_vec_model(out@) =~= Seq::<WeatherInfoModel>::empty());
    }
    while i < n
        invariant
            0 <= i <= n,
            n == items.len(),
            spec_info_list_of(items_model(items@).take(i as int)) == Some(info_vec_model(out@)),
        decreases n - i,
    {
        let ghost prev = out@;
        match weather_info_of_json(&items[i]) {
            Some(w) => {
                out.push(w);
                proof {
                    let jm = items_model(items@);
                    assert(jm.take(i + 1 as int).drop_last() =~= jm.take(i as int));
                    assert(jm.take(i + 1 as int).last() == jm[i as int]);
                    assert(jm[i as int] == items@[i as int]@);
                    assert(info_vec_model(out@) =~= info_vec_model(prev).push(w@));
                }
            },
            None => {
                proof {
                    assert(items_model(items@)[i as int] == items@[i as int]@);
                    lemma_info_list_fails(items_model(items@), i as int);
                }
                return None;
            },
        }
        i += 1;
    }
    proof {
        assert(items_model(items@).take(n as int) =~= items_model(items@));
    }
    Some(out)
}

/// Contains the result of an aggregate (bounding-circle) query.
#[derive(Default, Clone, Debug)]
pub struct WeatherAggregate {
    /// Search accuracy, `"accurate"` or `"like"`
    pub message: Option<String>,
    /// Status code the server reports for the request
    pub cod: Option<i32>,
    /// Number of items in the list
    pub count: Option<i32>,
    /// List of weather info
    pub list: Option<Vec<WeatherInfo>>,
}

/// Spec-level `WeatherAggregate`.
pub struct WeatherAggregateModel {
    pub message: Option<Seq<char>>,
    pub cod: Option<i32>,
    pub count: Option<i32>,
    pub list: Option<Seq<WeatherInfoModel>>,
}

impl View for WeatherAggregate {
    type V = WeatherAggregateModel;

    open spec fn view(&self) -> WeatherAggregateModel {
        WeatherAggregateModel {
            message: opt_str(self.message),
            cod: self.cod,
            count: self.count,
            list: (match self.list {
                Some(v) => Some(info_vec_model(v@)),
                None => None,
            }),
        }
    }
}

/// An optional `WeatherInfo`-list field of an object.
pub open spec fn spec_field_info_list(fs: Seq<(Seq<char>, JsonModel)>, key: Seq<char>) -> Option<
    Option<Seq<WeatherInfoModel>>,
> {
    match spec_lookup(fs, key) {
        None => Some(None),
        Some(JsonModel::Null) => Some(None),
        Some(JsonModel::Arr(js)) => (match spec_info_list_of(js) {
            Some(ws) => Some(Some(ws)),
            None => None,
        }),
        Some(_) => None,
    }
}

/// Read an optional `WeatherInfo`-list field.
pub fn field_info_list(fields: &Vec<(String, Json)>, key: &str) -> (r: Option<
    Option<Vec<WeatherInfo>>,
>)
    ensures
        (match r {
            None => spec_field_info_list(fields_model(fields@), key@) == None::<
                Option<Seq<WeatherInfoModel>>,
            >,
            Some(None) => spec_field_info_list(fields_model(fields@), key@) == Some(
                None::<Seq<WeatherInfoModel>>,
            ),
            Some(Some(v)) => spec_field_info_list(fields_model(fields@), key@) == Some(
                Some(info_vec_model(v@)),
            ),
        }),
{
    match lookup(fields, key) {
        None => Some(None),
        Some(wj) => match wj {
            Json::Null => Some(None),
            Json::Arr(items) => {
                proof {
                    crate::json::lemma_arr_view(*items);
                }
                match info_list_of_json(items) {
                    Some(ws) => Some(Some(ws)),
                    None => None,
                }
            },
            _ => None,
        },
    }
}

/// What a `WeatherAggregate` payload reads from a JSON value.
pub open spec fn spec_aggregate_of(j: JsonModel) -> Option<WeatherAggregateModel> {
    match j {
        JsonModel::Obj(fs) => {
            let message = spec_field_str(fs, "message"@);
            let cod = spec_field_i32(fs, "cod"@);
            let count = spec_field_i32(fs, "count"@);
            let list = spec_field_info_list(fs, "list"@);
            if message is Some && cod is Some && count is Some && list is Some {
                Some(
                    WeatherAggregateModel {
                        message: message->0,
                        cod: cod->0,
                        count: count->0,
                        list: list->0,
                    },
                )
            } else {
                None
            }
        },
        _ => None,
    }
}

/// Read a `WeatherAggregate` payload out of a JSON value.
pub fn aggregate_of_json(j: &Json) -> (r: Option<WeatherAggregate>)
    ensures
        (match r {
            Some(a) => spec_aggregate_of(j@) == Some(a@),
            None => spec_aggregate_of(j@) == None::<WeatherAggregateModel>,
        }),
{
    match j {
        Json::Obj(fields) => {
            proof {
                crate::json::lemma_obj_view(*fields);
            }
            let message = field_str(fields, "message")?;
            let cod = field_i32(fields, "cod")?;
            let count = field_i32(fields, "count")?;
            let list = field_info_list(fields, "list")?;
            Some(WeatherAggregate { message, cod, count, list })
        },
        _ => None,
    }
}

/// Contains the result of a bounding-box query.
#[derive(Default, Clone, Debug)]
pub struct WeatherBoxAggregate {
    /// Status code the server reports for the request
    pub cod: Option<i32>,
    /// Time elapsed server-side to handle the request, as rendered
    pub calctime: Option<String>,
    /// Number of items in the list
    pub cnt: Option<i32>,
    /// List of weather info
    pub list: Option<Vec<WeatherInfo>>,
}

/// Spec-level `WeatherBoxAggregate`.
pub struct WeatherBoxAggregateModel {
    pub cod: Option<i32>,
    pub calctime: Option<Seq<char>>,
    pub cnt: Option<i32>,
    pub list: Option<Seq<WeatherInfoModel>>,
}

impl View for WeatherBoxAggregate {
    type V = WeatherBoxAggregateModel;

    open spec fn view(&self) -> WeatherBoxAggregateModel {
        WeatherBoxAggregateModel {
            cod: self.cod,
            calctime: opt_str(self.calctime),
            cnt: self.cnt,
            list: (match self.list {
                Some(v) => Some(info_vec_model(v@)),
                None => None,
            }),
        }
    }
}

/// What a `WeatherBoxAggregate` payload reads from a JSON value.
pub open spec fn spec_box_aggregate_of(j: JsonModel) -> Option<WeatherBoxAggregateModel> {
    match j {
        JsonModel::Obj(fs) => {
            let cod = spec_field_i32(fs, "cod"@);
            let calctime = spec_field_num_text(fs, "calctime"@);
            let cnt = spec_field_i32(fs, "cnt"@);
            let list = spec_field_info_list(fs, "list"@);
            if cod is Some && calctime is Some && cnt is Some && list is Some {
                Some(
                    WeatherBoxAggregateModel {
                        cod: cod->0,
                        calctime: calctime->0,
                        cnt: cnt->0,
                        list: list->0,
                    },
                )
            } else {
                None
            }
        },
        _ => None,
    }
}

/// Read a `WeatherBoxAggregate` payload out of a JSON value.
pub fn box_aggregate_of_json(j: &Json) -> (r: Option<WeatherBoxAggregate>)
    ensures
        (match r {
            Some(a) => spec_box_aggregate_of(j@) == Some(a@),
            None => spec_box_aggregate_of(j@) == None::<WeatherBoxAggregateModel>,
        }),
{
    match j {
        Json::Obj(fields) => {
            proof {
                crate::json::lemma_obj_view(*fields);
            }
            let cod = field_i32(fields, "cod")?;
            let calctime = field_num_text(fields, "calctime")?;
            let cnt = field_i32(fields, "cnt")?;
            let list = field_info_list(fields, "list")?;
            Some(WeatherBoxAggregate { cod, calctime, cnt, list })
        },
        _ => None,
    }
}

/// Represents an error message sent by the API server for a bad request.
#[derive(Clone, Debug)]
pub struct ErrorResponse {
    /// Status code the server reports for the requested resource
    pub cod: Option<i32>,
    /// Human-readable error message
    pub message: Option<String>,
}

/// Spec-level `ErrorResponse`.
pub struct ErrorResponseModel {
    pub cod: Option<i32>,
    pub message: Option<Seq<char>>,
}

impl View for ErrorResponse {
    type V = ErrorResponseModel;

    open spec fn view(&self) -> ErrorResponseModel {
        ErrorResponseModel { cod: self.cod, message: opt_str(self.message) }
    }
}

/// The error body's status code: the server writes it as a number or as a
/// quoted decimal string, and both forms are read.
pub open spec fn spec_error_cod(fs: Seq<(Seq<char>, JsonModel)>, key: Seq<char>) -> Option<
    Option<i32>,
> {
    match spec_lookup(fs, key) {
        None => Some(None),
        Some(JsonModel::Null) => Some(None),
        Some(JsonModel::Num(t)) => (match crate::digits::parse_int(t) {
            Some(v) => if i32::MIN <= v <= i32::MAX {
                Some(Some(v as i32))
            } else {
                None
            },
            None => None,
        }),
        Some(JsonModel::Str(t)) => (match crate::digits::parse_int(t) {
            Some(v) => if i32::MIN <= v <= i32::MAX {
                Some(Some(v as i32))
            } else {
                None
            },
            None => None,
        }),
        Some(_) => None,
    }
}

/// Read the error body's status code, from a number or a decimal string.
pub fn error_cod_field(fields: &Vec<(String, Json)>, key: &str) -> (r: Option<Option<i32>>)
    ensures
        (match r {
            None => spec_error_cod(fields_model(fields@), key@) == None::<Option<i32>>,
            Some(v) => spec_error_cod(fields_model(fields@), key@) == Some(v),
        }),
{
    match lookup(fields, key) {
        None => Some(None),
        Some(cj) => match cj {
            Json::Null => Some(None),
            Json::Num(t) | Json::Str(t) => match crate::digits::parse_i64(t.as_str()) {
                Some(v) => if i32::MIN as i64 <= v && v <= i32::MAX as i64 {
                    Some(Some(v as i32))
                } else {
                    None
                },
                None => None,
            },
            _ => None,
        },
    }
}

/// What an `ErrorResponse` reads from a JSON value: any object whose `cod`
/// and `message`, where present, have the expected shapes.
pub open spec fn spec_error_response_of(j: JsonModel) -> Option<ErrorResponseModel> {
    match j {
        JsonModel::Obj(fs) => {
            let cod = spec_error_cod(fs, "cod"@);
            let message = spec_field_str(fs, "message"@);
            if cod is Some && message is Some {
                Some(ErrorResponseModel { cod: cod->0, message: message->0 })
            } else {
                None
            }
        },
        _ => None,
    }
}

/// Read an `ErrorResponse` out of a JSON value.
pub fn error_response_of_json(j: &Json) -> (r: Option<ErrorResponse>)
    ensures
        (match r {
            Some(e) => spec_error_response_of(j@) == Some(e@),
            None => spec_error_response_of(j@) == None::<ErrorResponseModel>,
        }),
{
    match j {
        Json::Obj(fields) => {
            proof {
                crate::json::lemma_obj_view(*fields);
            }
            let cod = error_cod_field(fields, "cod")?;
            let message = field_str(fields, "message")?;
            Some(ErrorResponse { cod, message })
        },
        _ => None,
    }
}

} // verus!

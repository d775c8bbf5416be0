//! Response classification: the step that turns one HTTP answer into a typed
//! payload, a structured API error, or an opaque failure.
//!
//! Status success and body readability are judged independently: a success
//! status whose body does not read as the expected payload is a decode error,
//! never a silently defaulted payload, while a failure status comes back as a
//! structured rejection exactly when its body reads as an `ErrorResponse`.

use crate::data::{
    box_aggregate_of_json, error_response_of_json, spec_aggregate_of, spec_box_aggregate_of,
    spec_error_response_of, spec_weather_info_of, weather_info_of_json, aggregate_of_json,
    ErrorResponse, ErrorResponseModel, WeatherAggregate, WeatherAggregateModel, WeatherBoxAggregate,
    WeatherBoxAggregateModel, WeatherInfo, WeatherInfoModel,
};
use crate::json::{json_of_text, parse_json};
use vstd::prelude::*;

verus! {

/// One HTTP answer: the URL it was requested from, the status code, and the
/// body text.
#[derive(Clone, Debug)]
pub struct HttpResponse {
    /// The URL the request was sent to
    pub url: String,
    /// The HTTP status code
    pub status: u16,
    /// The response body
    pub body: String,
}

/// Spec-level `HttpResponse`.
pub struct HttpResponseModel {
    pub url: Seq<char>,
    pub status: u16,
    pub body: Seq<char>,
}

impl View for HttpResponse {
    type V = HttpResponseModel;

    open spec fn view(&self) -> HttpResponseModel {
        HttpResponseModel { url: self.url@, status: self.status, body: self.body@ }
    }
}

/// Whether a status code reports success.
pub open spec fn is_success_status(status: u16) -> bool {
    200 <= status < 300
}

/// The transport collaborator: performs one HTTP GET against a URL and hands
/// back the status code and body text, or a transport-level error message.
/// Nothing is assumed of the answer — the classifier handles every outcome.
pub trait Transport {
    /// Perform one GET request.
    fn get(&self, url: &str) -> Result<(u16, String), String>;
}

/// The closed set of failure outcomes of a call.
#[derive(Debug)]
pub enum Error {
    /// An error occurred while performing the HTTP request; carries the
    /// transport's message.
    HttpError(String),
    /// The request was not correctly understood by the server; carries the
    /// structured error the server answered with.
    BadRequest(ErrorResponse),
    /// Invalid JSON received from the server, likely caused by an API change;
    /// carries the raw body text and a parser diagnostic.
    JsonDecodeError(String, String),
    /// An HTTP response with a non-success status code and no structured
    /// error; carries the raw response for inspection.
    Failure(HttpResponse),
}

/// Spec-level `Error`.
pub enum ErrorModel {
    HttpError(Seq<char>),
    BadRequest(ErrorResponseModel),
    JsonDecodeError(Seq<char>, Seq<char>),
    Failure(HttpResponseModel),
}

impl View for Error {
    type V = ErrorModel;

    open spec fn view(&self) -> ErrorModel {
        match self {
            Error::HttpError(m) => ErrorModel::HttpError(m@),
            Error::BadRequest(e) => ErrorModel::BadRequest(e@),
            Error::JsonDecodeError(b, d) => ErrorModel::JsonDecodeError(b@, d@),
            Error::Failure(r) => ErrorModel::Failure(r@),
        }
    }
}

/// What a body yields as a `WeatherInfo` payload: the parsed and extracted
/// payload, or nothing.
pub open spec fn weather_payload_of(body: Seq<char>) -> Option<WeatherInfoModel> {
    match json_of_text(body) {
        Some(j) => spec_weather_info_of(j),
        None => None,
    }
}

/// What a body yields as a `WeatherAggregate` payload.
pub open spec fn aggregate_payload_of(body: Seq<char>) -> Option<WeatherAggregateModel> {
    match json_of_text(body) {
        Some(j) => spec_aggregate_of(j),
        None => None,
    }
}

/// What a body yields as a `WeatherBoxAggregate` payload.
pub open spec fn box_payload_of(body: Seq<char>) -> Option<WeatherBoxAggregateModel> {
    match json_of_text(body) {
        Some(j) => spec_box_aggregate_of(j),
        None => None,
    }
}

/// What a body yields as a structured error.
pub open spec fn error_body_of(body: Seq<char>) -> Option<ErrorResponseModel> {
    match json_of_text(body) {
        Some(j) => spec_error_response_of(j),
        None => None,
    }
}

/// How one HTTP answer is classified, for a payload read by `payload_of`:
/// a success status with a readable body is the payload; a success status
/// with an unreadable body is a decode error carrying that body; a failure
/// status with a body that reads as a structured error is a rejection; any
/// other failure status is the raw response.
pub open spec fn outcome_of<M>(
    payload_of: spec_fn(Seq<char>) -> Option<M>,
    resp: HttpResponseModel,
    r: Result<(HttpResponseModel, M), ErrorModel>,
) -> bool {
    match r {
        Ok((meta, payload)) => meta == resp && is_success_status(resp.status) && payload_of(
            resp.body,
        ) == Some(payload),
        Err(ErrorModel::JsonDecodeError(body, _)) => body == resp.body && is_success_status(
            resp.status,
        ) && payload_of(resp.body) is None,
        Err(ErrorModel::BadRequest(e)) => !is_success_status(resp.status) && error_body_of(
            resp.body,
        ) == Some(e),
        Err(ErrorModel::Failure(raw)) => raw == resp && !is_success_status(resp.status)
            && error_body_of(resp.body) is None,
        Err(ErrorModel::HttpError(_)) => false,
    }
}

/// How one transport event is classified: a transport failure carries its
/// message, an answer is classified by `outcome_of`.
pub open spec fn call_outcome_of<M>(
    payload_of: spec_fn(Seq<char>) -> Option<M>,
    ev: Result<HttpResponseModel, Seq<char>>,
    r: Result<(HttpResponseModel, M), ErrorModel>,
) -> bool {
    match ev {
        Err(m) => r == Err::<(HttpResponseModel, M), ErrorModel>(ErrorModel::HttpError(m)),
        Ok(resp) => outcome_of(payload_of, resp, r),
    }
}

/// The five terminal outcomes of a call.
pub enum OutcomeKind {
    /// Success status, readable payload.
    Success,
    /// Failure status, structured error body.
    RejectedRequest,
    /// Failure status, no structured error body.
    OpaqueFailure,
    /// Success status, unreadable payload.
    UndecodablePayload,
    /// No response was obtained.
    TransportFailed,
}

/// The outcome a transport event is bound to have, as a total function: every
/// event falls in exactly one of the five kinds.
pub open spec fn outcome_kind_of<M>(
    payload_of: spec_fn(Seq<char>) -> Option<M>,
    ev: Result<HttpResponseModel, Seq<char>>,
) -> OutcomeKind {
    match ev {
        Err(_) => OutcomeKind::TransportFailed,
        Ok(resp) => if is_success_status(resp.status) {
            if payload_of(resp.body) is Some {
                OutcomeKind::Success
            } else {
                OutcomeKind::UndecodablePayload
            }
        } else {
            if error_body_of(resp.body) is Some {
                OutcomeKind::RejectedRequest
            } else {
                OutcomeKind::OpaqueFailure
            }
        },
    }
}

/// Classification is complete and exclusive: for every transport event the
/// call's result takes the one shape that the event's kind dictates — in
/// particular a success status with an unreadable body always comes back as
/// the decode error, never as a defaulted payload.
pub proof fn lemma_classification_complete<M>(
    payload_of: spec_fn(Seq<char>) -> Option<M>,
    ev: Result<HttpResponseModel, Seq<char>>,
    r: Result<(HttpResponseModel, M), ErrorModel>,
)
    requires
        call_outcome_of(payload_of, ev, r),
    ensures
        (outcome_kind_of(payload_of, ev) matches OutcomeKind::Success <==> r is Ok),
        (outcome_kind_of(payload_of, ev) matches OutcomeKind::TransportFailed <==> (r matches Err(
            ErrorModel::HttpError(_),
        ))),
        (outcome_kind_of(payload_of, ev) matches OutcomeKind::RejectedRequest <==> (r matches Err(
            ErrorModel::BadRequest(_),
        ))),
        (outcome_kind_of(payload_of, ev) matches OutcomeKind::OpaqueFailure <==> (r matches Err(
            ErrorModel::Failure(_),
        ))),
        (outcome_kind_of(payload_of, ev) matches OutcomeKind::UndecodablePayload <==> (r matches Err(
            ErrorModel::JsonDecodeError(_, _),
        ))),
{
}

/// What a finished call promises, given the URL it was sent to: the result is
/// the classification of some transport event, the response carried out of a
/// success or an opaque failure names that URL, and each outcome's carried
/// data has the shape its case dictates.
pub open spec fn call_resolved<M>(
    payload_of: spec_fn(Seq<char>) -> Option<M>,
    url: Seq<char>,
    rm: Result<(HttpResponseModel, M), ErrorModel>,
) -> bool {
    &&& (exists|ev: Result<HttpResponseModel, Seq<char>>|
        call_outcome_of(payload_of, ev, rm) && (ev matches Ok(resp) ==> resp.url == url))
    &&& (rm matches Ok(p) ==> p.0.url == url && is_success_status(p.0.status) && payload_of(
        p.0.body,
    ) == Some(p.1))
    &&& (rm matches Err(ErrorModel::Failure(f)) ==> f.url == url && !is_success_status(f.status)
        && error_body_of(f.body) is None)
    &&& (rm matches Err(ErrorModel::JsonDecodeError(b, _)) ==> payload_of(b) is None)
    &&& (rm matches Err(ErrorModel::BadRequest(e)) ==> (exists|b: Seq<char>|
        error_body_of(b) == Some(e)))
}

/// Model of a call result carrying a `WeatherInfo`.
pub open spec fn weather_result_model(r: Result<(HttpResponse, WeatherInfo), Error>) -> Result<
    (HttpResponseModel, WeatherInfoModel),
    ErrorModel,
> {
    match r {
        Ok((meta, w)) => Ok((meta@, w@)),
        Err(e) => Err(e@),
    }
}

/// Model of a call result carrying a `WeatherAggregate`.
pub open spec fn aggregate_result_model(r: Result<(HttpResponse, WeatherAggregate), Error>) -> Result<
    (HttpResponseModel, WeatherAggregateModel),
    ErrorModel,
> {
    match r {
        Ok((meta, a)) => Ok((meta@, a@)),
        Err(e) => Err(e@),
    }
}

/// Model of a call result carrying a `WeatherBoxAggregate`.
pub open spec fn box_result_model(r: Result<(HttpResponse, WeatherBoxAggregate), Error>) -> Result<
    (HttpResponseModel, WeatherBoxAggregateModel),
    ErrorModel,
> {
    match r {
        Ok((meta, a)) => Ok((meta@, a@)),
        Err(e) => Err(e@),
    }
}

/// Classify a non-success answer: a structured rejection when the body reads
/// as an `ErrorResponse`, else the raw response for caller inspection.
pub fn classify_failure(resp: HttpResponse) -> (e: Error)
    ensures
        e@ == (match error_body_of(resp@.body) {
            Some(er) => ErrorModel::BadRequest(er),
            None => ErrorModel::Failure(resp@),
        }),
{
    let parsed = parse_json(resp.body.as_str());
    match parsed {
        Ok(j) => match error_response_of_json(&j) {
            Some(er) => Error::BadRequest(er),
            None => Error::Failure(resp),
        },
        Err(_) => Error::Failure(resp),
    }
}

/// Resolve one HTTP answer for a single-location query.
pub fn resolve_weather(resp: HttpResponse) -> (r: Result<(HttpResponse, WeatherInfo), Error>)
    ensures
        outcome_of(|b: Seq<char>| weather_payload_of(b), resp@, weather_result_model(r)),
{
    if !(200 <= resp.status && resp.status < 300) {
        return Err(classify_failure(resp));
    }
    let parsed = parse_json(resp.body.as_str());
    match parsed {
        Ok(j) => match weather_info_of_json(&j) {
            Some(w) => Ok((resp, w)),
            None => Err(
                Error::JsonDecodeError(
                    resp.body,
                    "the body is valid JSON but not the expected payload shape".to_owned(),
                ),
            ),
        },
        Err(d) => Err(Error::JsonDecodeError(resp.body, d)),
    }
}

/// Resolve one HTTP answer for a bounding-circle query.
pub fn resolve_aggregate(resp: HttpResponse) -> (r: Result<(HttpResponse, WeatherAggregate), Error>)
    ensures
        outcome_of(|b: Seq<char>| aggregate_payload_of(b), resp@, aggregate_result_model(r)),
{
    if !(200 <= resp.status && resp.status < 300) {
        return Err(classify_failure(resp));
    }
    let parsed = parse_json(resp.body.as_str());
    match parsed {
        Ok(j) => match aggregate_of_json(&j) {
            Some(a) => Ok((resp, a)),
            None => Err(
                Error::JsonDecodeError(
                    resp.body,
                    "the body is valid JSON but not the expected payload shape".to_owned(),
                ),
            ),
        },
        Err(d) => Err(Error::JsonDecodeError(resp.body, d)),
    }
}

/// Resolve one HTTP answer for a bounding-box query.
pub fn resolve_box_aggregate(resp: HttpResponse) -> (r: Result<
    (HttpResponse, WeatherBoxAggregate),
    Error,
>)
    ensures
        outcome_of(|b: Seq<char>| box_payload_of(b), resp@, box_result_model(r)),
{
    if !(200 <= resp.status && resp.status < 300) {
        return Err(classify_failure(resp));
    }
    let parsed = parse_json(resp.body.as_str());
    match parsed {
        Ok(j) => match box_aggregate_of_json(&j) {
            Some(a) => Ok((resp, a)),
            None => Err(
                Error::JsonDecodeError(
                    resp.body,
                    "the body is valid JSON but not the expected payload shape".to_owned(),
                ),
            ),
        },
        Err(d) => Err(Error::JsonDecodeError(resp.body, d)),
    }
}

} // verus!

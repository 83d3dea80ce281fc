//! The weather lookup: the request to send and the reading of what came back.

use vstd::prelude::*;

verus! {

/// What a successful answer of the weather service holds, numbers already cut
/// to whole degrees and whole kilometres per hour.
#[derive(Debug, Clone, PartialEq, Eq)]
pub struct Observation {
    /// The labels of the reported conditions, in the order of the answer.
    pub conditions: Vec<String>,
    /// The lowest temperature, in degrees Celsius.
    pub temp_min: i32,
    /// The highest temperature, in degrees Celsius.
    pub temp_max: i32,
    /// The wind speed, in kilometres per hour.
    pub wind_speed: i32,
}

/// The weather of a city as the bot reports it.
#[derive(Debug, Clone, PartialEq, Eq)]
pub struct WeatherSummary {
    /// The label of the primary condition.
    pub condition: String,
    /// The lowest temperature, in degrees Celsius.
    pub temp_min_c: i32,
    /// The highest temperature, in degrees Celsius.
    pub temp_max_c: i32,
    /// The wind speed, in kilometres per hour.
    pub wind_speed_kmh: i32,
}

/// The mathematical content of a [`WeatherSummary`].
pub struct SummaryView {
    pub condition: Seq<char>,
    pub temp_min_c: int,
    pub temp_max_c: int,
    pub wind_speed_kmh: int,
}

impl View for WeatherSummary {
    type V = SummaryView;

    open spec fn view(&self) -> SummaryView {
        SummaryView {
            condition: self.condition@,
            temp_min_c: self.temp_min_c as int,
            temp_max_c: self.temp_max_c as int,
            wind_speed_kmh: self.wind_speed_kmh as int,
        }
    }
}

/// Why a lookup gave no summary.
#[derive(Debug, Clone, Copy, PartialEq, Eq, Structural)]
pub enum Failure {
    /// The service could not be reached.
    TransportError,
    /// The service answered with a status other than success.
    UpstreamError(u16),
    /// The answer was not of the expected shape.
    ParseError,
}

/// What the HTTP exchange with the weather service came to.
#[derive(Debug, Clone, PartialEq, Eq)]
pub enum Exchange {
    /// No answer arrived.
    Unreachable,
    /// An answer arrived with this status. `body` is the decoded answer, or
    /// `None` where it could not be decoded or was not looked at.
    Answered { status: u16, body: Option<Observation> },
}

/// The label reported where the service names no condition.
pub open spec fn unknown_condition() -> Seq<char> {
    "Unknown"@
}

/// The address of the weather service up to the name of the city.
pub open spec fn url_head() -> Seq<char> {
    "https://api.openweathermap.org/data/2.5/weather?q="@
}

/// The part of the address between the city and the key.
pub open spec fn url_middle() -> Seq<char> {
    "&units=metric&appid="@
}

/// The address to fetch for a city: the city and the key are set in as they
/// are, between the fixed parts, and metric units are asked for.
pub open spec fn url_of(city: Seq<char>, api_key: Seq<char>) -> Seq<char> {
    url_head() + city + url_middle() + api_key
}

/// Whether an HTTP status reports success.
pub open spec fn is_success(status: u16) -> bool {
    200 <= status < 300
}

/// The summary that an observation gives: its first condition, or the label
/// for an unknown one where it lists none, and its three numbers.
pub open spec fn summary_of(obs: Observation) -> SummaryView {
    SummaryView {
        condition: if obs.conditions@.len() > 0 {
            obs.conditions@[0]@
        } else {
            unknown_condition()
        },
        temp_min_c: obs.temp_min as int,
        temp_max_c: obs.temp_max as int,
        wind_speed_kmh: obs.wind_speed as int,
    }
}

/// The outcome of a lookup, by what the exchange came to.
pub open spec fn outcome_of(exchange: Exchange) -> Result<SummaryView, Failure> {
    match exchange {
        Exchange::Unreachable => Err(Failure::TransportError),
        Exchange::Answered { status, body } => if !is_success(status) {
            Err(Failure::UpstreamError(status))
        } else {
            match body {
                None => Err(Failure::ParseError),
                Some(obs) => Ok(summary_of(obs)),
            }
        },
    }
}

/// The outcome of a lookup as a value of the library, seen through its view.
pub open spec fn outcome_view(outcome: Result<WeatherSummary, Failure>) -> Result<
    SummaryView,
    Failure,
> {
    match outcome {
        Ok(summary) => Ok(summary@),
        Err(failure) => Err(failure),
    }
}

/// Calls `http_req::response::StatusCode::is_success` on the status code
/// `code`. That method holds exactly for the codes from 200 to 299.
#[verifier::external_body]
fn status_is_success(code: u16) -> (ok: bool)
    ensures
        ok == is_success(code),
{
    http_req::response::StatusCode::new(code).is_success()
}

/// Builds the address to fetch for `city` with the key `api_key`.
pub fn request_url(city: &str, api_key: &str) -> (url: String)
    ensures
        url@ == url_of(city@, api_key@),
{
    let mut url = String::from_str("https://api.openweathermap.org/data/2.5/weather?q=");
    url.append(city);
    url.append("&units=metric&appid=");
    url.append(api_key);
    url
}

/// Tells whether an answer with this status is to be decoded.
pub fn status_accepted(status: u16) -> (ok: bool)
    ensures
        ok == is_success(status),
{
    status_is_success(status)
}

/// Turns an observation into the summary that the bot reports.
pub fn summarize(obs: &Observation) -> (summary: WeatherSummary)
    ensures
        summary@ == summary_of(*obs),
{
    let condition = if obs.conditions.len() > 0 {
        obs.conditions[0].clone()
    } else {
        String::from_str("Unknown")
    };
    WeatherSummary {
        condition,
        temp_min_c: obs.temp_min,
        temp_max_c: obs.temp_max,
        wind_speed_kmh: obs.wind_speed,
    }
}

/// Reads the outcome of a lookup off what the exchange came to: no answer is
/// a transport error, a status other than success an upstream error with
/// that status, an answer that could not be decoded a parse error, and
/// anything else the summary of the answer.
pub fn interpret(exchange: &Exchange) -> (outcome: Result<WeatherSummary, Failure>)
    ensures
        outcome_view(outcome) == outcome_of(*exchange),
{
    match exchange {
        Exchange::Unreachable => Err(Failure::TransportError),
        Exchange::Answered { status, body } => {
            if !status_is_success(*status) {
                Err(Failure::UpstreamError(*status))
            } else {
                match body {
                    None => Err(Failure::ParseError),
                    Some(obs) => Ok(summarize(obs)),
                }
            }
        },
    }
}

} // verus!

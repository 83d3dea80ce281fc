//! The text that answers an invocation of the weather command.

use vstd::prelude::*;
use crate::decimal::{decimal, render};
use crate::weather::{outcome_view, Failure, SummaryView, WeatherSummary};

verus! {

/// The one text that is sent whenever a lookup fails.
pub open spec fn failure_text() -> Seq<char> {
    "No city or incorrect spelling"@
}

/// The report of a summary: four lines that give, in this order, the
/// condition, the lowest and the highest temperature in degrees Celsius, and
/// the wind speed in kilometres per hour, each number in decimal notation.
pub open spec fn success_text(summary: SummaryView) -> Seq<char> {
    "Today: "@ + summary.condition + ",\n                Low temperature: "@ + decimal(
        summary.temp_min_c,
    ) + " \u{b0}C,\n                High temperature: "@ + decimal(summary.temp_max_c)
        + " \u{b0}C,\n                Wind Speed: "@ + decimal(summary.wind_speed_kmh) + " km/h"@
}

/// The text that answers an invocation, by the outcome of its lookup: the
/// report of the summary, or the failure text whatever the failure was.
pub open spec fn reply_of(outcome: Result<SummaryView, Failure>) -> Seq<char> {
    match outcome {
        Ok(summary) => success_text(summary),
        Err(_) => failure_text(),
    }
}

/// Writes the report of a summary.
pub fn report(summary: &WeatherSummary) -> (text: String)
    ensures
        text@ == success_text(summary@),
{
    let mut text = String::from_str("Today: ");
    text.append(summary.condition.as_str());
    text.append(",\n                Low temperature: ");
    text.append(render(summary.temp_min_c).as_str());
    text.append(" \u{b0}C,\n                High temperature: ");
    text.append(render(summary.temp_max_c).as_str());
    text.append(" \u{b0}C,\n                Wind Speed: ");
    text.append(render(summary.wind_speed_kmh).as_str());
    text.append(" km/h");
    text
}

/// Writes the text that answers an invocation whose lookup ended in
/// `outcome`.
pub fn reply_text(outcome: &Result<WeatherSummary, Failure>) -> (text: String)
    ensures
        text@ == reply_of(outcome_view(*outcome)),
        outcome is Err ==> text@ == failure_text(),
        outcome matches Ok(summary) ==> text@ == success_text(summary@),
{
    match outcome {
        Ok(summary) => report(summary),
        Err(_) => String::from_str("No city or incorrect spelling"),
    }
}

} // verus!

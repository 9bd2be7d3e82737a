//! The weather lookup tool.

use crate::ai_functions::{
    optional_text, required_text, spec_optional_text, spec_required_text, AIFunction,
    AIFunctionParameter, AIFunctionParameterView, Invocation, InvocationView, ToolErrorKind,
    ToolErrorView,
};
use crate::json::{
    empty_members, insert_member, json_model, no_members, object, spec_text_member, text, JsonValue,
    JsonView,
};
use vstd::prelude::*;
use vstd::string::*;

verus! {

/// Looks up the current weather at a place.
#[derive(Clone, Copy, Debug, PartialEq, Eq)]
pub struct GetWeatherFunction;

/// The timestamp of a report where the clock gives no moment that can be
/// written: the first moment of 1970.
pub const NO_TIMESTAMP: &'static str = "1970-01-01T00:00:00+00:00";

/// What `chrono` writes for a moment: the RFC 3339 text of the moment that
/// lies `seconds` and `nanoseconds` behind the first moment of 1970, or
/// `None` where chrono has no such moment.
pub uninterp spec fn spec_rfc3339(seconds: i64, nanoseconds: u32) -> Option<Seq<char>>;

/// `SystemTime::elapsed` on `UNIX_EPOCH`: the seconds and nanoseconds that
/// the system clock is past the first moment of 1970, `None` where it is set
/// to before that. Nothing is claimed of the reading: it differs from call
/// to call.
#[verifier::external_body]
fn unix_time() -> (r: Option<(u64, u32)>) {
    std::time::UNIX_EPOCH.elapsed().ok().map(|d| (d.as_secs(), d.subsec_nanos()))
}

/// `DateTime::from_timestamp` and `DateTime::to_rfc3339`: the text is the one
/// that [`spec_rfc3339`] names for the moment; a moment out of chrono's range
/// gives `None`.
#[verifier::external_body]
fn rfc3339(seconds: i64, nanoseconds: u32) -> (r: Option<String>)
    ensures
        r.deep_view() == spec_rfc3339(seconds, nanoseconds),
{
    chrono::DateTime::from_timestamp(seconds, nanoseconds).map(|moment| moment.to_rfc3339())
}

/// The timestamp for a reading of the clock: the reading as RFC 3339 text,
/// and [`NO_TIMESTAMP`] where there is no reading or none that can be
/// written.
pub open spec fn spec_timestamp(reading: Option<(u64, u32)>) -> Seq<char> {
    match reading {
        Some((seconds, nanoseconds)) => if seconds <= i64::MAX {
            match spec_rfc3339(seconds as i64, nanoseconds) {
                Some(written) => written,
                None => NO_TIMESTAMP@,
            }
        } else {
            NO_TIMESTAMP@
        },
        None => NO_TIMESTAMP@,
    }
}

/// Writes the timestamp for a reading of the clock.
pub fn timestamp_at(reading: Option<(u64, u32)>) -> (r: String)
    ensures
        r@ == spec_timestamp(reading),
{
    match reading {
        Some((seconds, nanoseconds)) => {
            if seconds <= 0x7fff_ffff_ffff_ffff {
                match rfc3339(seconds as i64, nanoseconds) {
                    Some(written) => written,
                    None => String::from_str(NO_TIMESTAMP),
                }
            } else {
                String::from_str(NO_TIMESTAMP)
            }
        },
        None => String::from_str(NO_TIMESTAMP),
    }
}

/// The arguments of a weather lookup, checked: the place and the units asked
/// for, or the first fault. Where both are at fault, a `location` of the wrong
/// type is reported first, then `units`, then a missing `location`.
pub open spec fn spec_weather_args(args: JsonView) -> Result<
    (Seq<char>, Option<Seq<char>>),
    ToolErrorView,
> {
    match (spec_required_text(args, "location"@), spec_optional_text(args, "units"@)) {
        (Ok(location), Ok(units)) => Ok((location, units)),
        (Ok(_), Err(e)) => Err(e),
        (Err(e), Ok(_)) => Err(e),
        (Err(e), Err(other)) => if e.kind == ToolErrorKind::InvalidParameter {
            Err(e)
        } else {
            Err(other)
        },
    }
}

/// The units of a report: those asked for, or Celsius.
pub open spec fn spec_units(units: Option<Seq<char>>) -> Seq<char> {
    match units {
        Some(u) => u,
        None => "celsius"@,
    }
}

/// The sentence of a report.
pub open spec fn spec_weather_data(location: Seq<char>, units: Seq<char>) -> Seq<char> {
    "Its currently 69dg "@ + units + ". in "@ + location
}

/// The report for a place, in the units asked for, stamped with `timestamp`.
pub open spec fn spec_weather_report(
    location: Seq<char>,
    units: Option<Seq<char>>,
    timestamp: Seq<char>,
) -> JsonView {
    JsonView::Object(
        no_members().insert("location"@, JsonView::Text(location)).insert(
            "units"@,
            JsonView::Text(spec_units(units)),
        ).insert(
            "weather_data"@,
            JsonView::Text(spec_weather_data(location, spec_units(units))),
        ).insert("timestamp"@, JsonView::Text(timestamp)),
    )
}

/// Whether a finished call holds the report for the place and units, stamped
/// with the time that the report itself shows.
pub open spec fn spec_is_weather_report(
    outcome: InvocationView,
    location: Seq<char>,
    units: Option<Seq<char>>,
) -> bool {
    outcome matches InvocationView::Finished(Ok(report)) && spec_text_member(report, "timestamp"@)
        matches Some(timestamp) && report == spec_weather_report(location, units, timestamp)
}

impl GetWeatherFunction {
    /// Writes the report for a place.
    pub fn respond(location: String, units: Option<String>, timestamp: String) -> (r: JsonValue)
        ensures
            json_model(r) == spec_weather_report(location@, units.deep_view(), timestamp@),
    {
        let units = match units {
            Some(u) => u,
            None => String::from_str("celsius"),
        };
        let mut data = String::from_str("Its currently 69dg ");
        data.append(units.as_str());
        data.append(". in ");
        data.append(location.as_str());
        let mut members = empty_members();
        insert_member(&mut members, String::from_str("location"), text(location));
        insert_member(&mut members, String::from_str("units"), text(units));
        insert_member(&mut members, String::from_str("weather_data"), text(data));
        insert_member(&mut members, String::from_str("timestamp"), text(timestamp));
        object(members)
    }
}

impl AIFunction for GetWeatherFunction {
    open spec fn spec_name(&self) -> Seq<char> {
        "get_weather"@
    }

    open spec fn spec_description(&self) -> Seq<char> {
        "Get current weather information for a specified location"@
    }

    open spec fn spec_parameters(&self) -> Seq<(Seq<char>, AIFunctionParameterView)> {
        seq![
            (
                "location"@,
                AIFunctionParameterView {
                    param_type: "string"@,
                    description: "The location to get weather for (city, state/country)"@,
                    required: true,
                },
            ),
            (
                "units"@,
                AIFunctionParameterView {
                    param_type: "string"@,
                    description: "Temperature units: celsius, fahrenheit, kelvin"@,
                    required: false,
                },
            ),
        ]
    }

    /// Faulty arguments give their fault; sound ones give the report for
    /// them, stamped with some moment.
    open spec fn spec_execute(&self, args: JsonView, outcome: InvocationView) -> bool {
        match spec_weather_args(args) {
            Ok(given) => spec_is_weather_report(outcome, given.0, given.1),
            Err(e) => outcome == InvocationView::Finished(Err(e)),
        }
    }

    fn name(&self) -> (r: &'static str) {
        "get_weather"
    }

    fn description(&self) -> (r: &'static str) {
        "Get current weather information for a specified location"
    }

    fn parameters(&self) -> (r: Vec<(String, AIFunctionParameter)>) {
        let mut params: Vec<(String, AIFunctionParameter)> = Vec::new();
        params.push(
            (
                String::from_str("location"),
                AIFunctionParameter::new(
                    "string",
                    "The location to get weather for (city, state/country)",
                    true,
                ),
            ),
        );
        params.push(
            (
                String::from_str("units"),
                AIFunctionParameter::new(
                    "string",
                    "Temperature units: celsius, fahrenheit, kelvin",
                    false,
                ),
            ),
        );
        assert(params.deep_view() =~= self.spec_parameters());
        proof {
            reveal_strlit("location");
            reveal_strlit("units");
            assert("location"@.len() != "units"@.len());
        }
        params
    }

    /// Checks the arguments and writes the report, stamped with the present
    /// moment.
    fn execute(&self, args: &JsonValue) -> (r: Invocation) {
        let location = required_text(args, "location");
        let units = optional_text(args, "units");
        match location {
            Ok(location) => match units {
                Ok(units) => {
                    let timestamp = timestamp_at(unix_time());
                    let ghost stamp = timestamp@;
                    let ghost place = location@;
                    let ghost asked = units.deep_view();
                    let report = Self::respond(location, units, timestamp);
                    let done = Invocation::Finished(Ok(report));
                    assert(done.deep_view() == InvocationView::Finished(
                        Ok(spec_weather_report(place, asked, stamp)),
                    ));
                    done
                },
                Err(e) => Invocation::Finished(Err(e)),
            },
            Err(e) => match units {
                Ok(_) => Invocation::Finished(Err(e)),
                Err(other) => match e.kind {
                    ToolErrorKind::InvalidParameter => Invocation::Finished(Err(e)),
                    _ => Invocation::Finished(Err(other)),
                },
            },
        }
    }
}

} // verus!

//! The pause between two checks, as the operator writes it: a number with
//! its unit, such as `5min` or `1h 30s`.

use crate::types::deep;
use vstd::prelude::*;

verus! {

/// What `duration_human` reads from a text: the nanoseconds that it stands
/// for, or the complaint about a text that is no duration.
pub uninterp spec fn human_duration(text: Seq<char>) -> Result<u64, Seq<char>>;

/// Calls `DurationHuman::try_from` of `duration_human` on the text. The
/// contract claims only that what comes back depends on the text alone: the
/// nanoseconds of the duration read, or the text of the error.
#[verifier::external_body]
fn parse_human_duration(value: &str) -> (parsed: Result<u64, String>)
    ensures
        deep(parsed) == human_duration(value@),
{
    match ::duration_human::DurationHuman::try_from(value) {
        Ok(duration) => Ok(u64::from(&duration)),
        Err(error) => Err(error.to_string()),
    }
}

/// The setting that a text read as a duration gives: a pause of that length.
pub open spec fn interval_setting(parsed: Result<u64, Seq<char>>) -> Result<
    Option<u64>,
    Seq<char>,
> {
    match parsed {
        Ok(nanoseconds) => Ok(Some(nanoseconds)),
        Err(complaint) => Err(complaint),
    }
}

/// Turns a text that was read as a duration into the interval setting.
pub fn interval_from(parsed: Result<u64, String>) -> (setting: Result<Option<u64>, String>)
    ensures
        deep(setting) == interval_setting(deep(parsed)),
{
    match parsed {
        Ok(nanoseconds) => Ok(Some(nanoseconds)),
        Err(complaint) => Err(complaint),
    }
}

/// Reads the interval setting from its text.
pub fn deserialize_duration(value: &str) -> (setting: Result<Option<u64>, String>)
    ensures
        deep(setting) == interval_setting(human_duration(value@)),
{
    interval_from(parse_human_duration(value))
}

} // verus!

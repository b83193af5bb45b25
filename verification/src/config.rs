//! The retention configuration record: its default, its persisted form, and
//! what loading it concludes.

use vstd::prelude::*;

use crate::errors::DriveError;
use crate::json_text::config_record_text;
use crate::json_text::config_record_json;

verus! {

/// The externally supplied configuration: how many hours a stored file may
/// reach before the retention purge removes it.
#[derive(Debug, Clone, PartialEq, Eq)]
pub struct AppConfig {
    pub retention_hours: i64,
}

impl Default for AppConfig {
    /// The default retention window of twenty-four hours.
    fn default() -> (r: AppConfig)
        ensures
            r.retention_hours == 24,
    {
        AppConfig { retention_hours: 24 }
    }
}

impl AppConfig {
    /// Renders the record in its persisted form.
    pub fn to_json(&self) -> (r: String)
        ensures
            r@ == config_record_text(self.retention_hours as int),
    {
        config_record_json(self.retention_hours)
    }
}

/// What retention window a persisted configuration record carries, if it is
/// a JSON object with an integral `retention_hours` field.
pub uninterp spec fn config_hours_of(s: Seq<char>) -> Option<int>;

/// Relies on serde_json::from_str::<Value> and the Value accessors `get` and
/// `as_i64`: reads the retention window out of a configuration record.
#[verifier::external_body]
pub(crate) fn parse_config_hours(s: &str) -> (r: Option<i64>)
    ensures
        r is Some <==> config_hours_of(s@) is Some,
        r matches Some(h) ==> config_hours_of(s@) == Some(h as int),
{
    let v: serde_json::Value = serde_json::from_str(s).ok()?;
    v.get("retention_hours")?.as_i64()
}

/// What loading the configuration concludes: a missing record yields the
/// default, which must then be persisted; a record that does not parse is
/// malformed; a parsed record is taken as it is.
pub open spec fn config_load_spec(contents: Option<Seq<char>>) -> Result<
    (AppConfig, bool),
    DriveError,
> {
    match contents {
        Option::None => Result::Ok((AppConfig { retention_hours: 24 }, true)),
        Option::Some(s) => match config_hours_of(s) {
            Option::None => Result::Err(DriveError::Malformed),
            Option::Some(h) => if i64::MIN <= h <= i64::MAX {
                Result::Ok((AppConfig { retention_hours: h as i64 }, false))
            } else {
                Result::Err(DriveError::Malformed)
            },
        },
    }
}

/// Decides what a loaded configuration record holds (`None` when no record
/// exists on disk). The flag reports whether the default must be written
/// back.
pub fn config_load_outcome(contents: Option<String>) -> (r: Result<(AppConfig, bool), DriveError>)
    ensures
        r == config_load_spec(crate::credential::view_opt(contents)),
{
    match contents {
        Option::None => Result::Ok((AppConfig { retention_hours: 24 }, true)),
        Option::Some(s) => match parse_config_hours(s.as_str()) {
            Option::None => Result::Err(DriveError::Malformed),
            Option::Some(h) => Result::Ok((AppConfig { retention_hours: h }, false)),
        },
    }
}

} // verus!

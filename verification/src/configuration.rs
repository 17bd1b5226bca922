//! What the operator configures, and what follows from it before anything
//! is asked of the store.

use crate::logging::LogLevel;
use vstd::prelude::*;
use vstd::string::StringExecFns;

verus! {

/// The settings of a run. `interval` is the pause between two checks of the
/// address, in nanoseconds; `records` holds the names to keep in step.
#[derive(Clone, Debug, PartialEq, Eq)]
pub struct Configuration {
    pub interval: Option<u64>,
    pub api_token: String,
    pub zone_id: String,
    pub records: Vec<String>,
    pub log_level: Option<LogLevel>,
    pub group_errors: Option<bool>,
}

/// The model of [`Configuration`].
pub struct ConfigurationView {
    pub interval: Option<u64>,
    pub api_token: Seq<char>,
    pub zone_id: Seq<char>,
    pub records: Seq<Seq<char>>,
    pub log_level: Option<LogLevel>,
    pub group_errors: Option<bool>,
}

impl View for Configuration {
    type V = ConfigurationView;

    open spec fn view(&self) -> ConfigurationView {
        ConfigurationView {
            interval: self.interval,
            api_token: self.api_token@,
            zone_id: self.zone_id@,
            records: self.records.deep_view(),
            log_level: self.log_level,
            group_errors: self.group_errors,
        }
    }
}

/// What a run does once the settings are read.
#[derive(Clone, Copy, Debug, PartialEq, Eq, Structural)]
pub enum RunMode {
    /// There are no names to keep in step.
    NothingToDo,
    /// Reconcile once.
    Once,
    /// Reconcile, then check the address again after every pause of so many
    /// nanoseconds.
    Watch(u64),
}

/// The line that says that no names are configured.
pub const NOTHING_TO_DO: &'static str = "No records provided, nothing to do!";

/// The credential as the store wants it in the authorization header.
pub open spec fn bearer(api_token: Seq<char>) -> Seq<char> {
    "Bearer "@ + api_token
}

/// The mode that the settings ask for: nothing without names; a watch where
/// the interval is set and not zero; one reconciliation else.
pub open spec fn run_mode(configuration: ConfigurationView) -> RunMode {
    if configuration.records.len() == 0 {
        RunMode::NothingToDo
    } else {
        match configuration.interval {
            Some(pause) => if pause == 0 {
                RunMode::Once
            } else {
                RunMode::Watch(pause)
            },
            None => RunMode::Once,
        }
    }
}

/// Makes the settings as they were read ready for use: the token becomes the
/// credential that the store takes.
pub fn load(configuration: Configuration) -> (loaded: Configuration)
    ensures
        loaded@ == (ConfigurationView {
            api_token: bearer(configuration.api_token@),
            ..configuration@
        }),
{
    let mut api_token = String::from_str("Bearer ");
    api_token.append(configuration.api_token.as_str());
    Configuration {
        interval: configuration.interval,
        api_token,
        zone_id: configuration.zone_id,
        records: configuration.records,
        log_level: configuration.log_level,
        group_errors: configuration.group_errors,
    }
}

impl Configuration {
    /// What the run is to do.
    pub fn mode(&self) -> (mode: RunMode)
        ensures
            mode == run_mode(self@),
    {
        if self.records.is_empty() {
            RunMode::NothingToDo
        } else {
            match self.interval {
                Some(pause) => if pause == 0 {
                    RunMode::Once
                } else {
                    RunMode::Watch(pause)
                },
                None => RunMode::Once,
            }
        }
    }

    /// Whether repeated failures are grouped; they are not unless asked for.
    pub fn groups_errors(&self) -> (group: bool)
        ensures
            group == (self.group_errors == Some(true)),
    {
        match self.group_errors {
            Some(group) => group,
            None => false,
        }
    }
}

} // verus!

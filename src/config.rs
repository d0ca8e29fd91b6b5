//! Options of one run, as given and as resolved.

use vstd::prelude::*;

use crate::decimal::{parse_u8, parsed_u8};

verus! {

/// The options of one run as they were given, before any of them is read.
pub struct RawOptions {
    /// Paths to archive, in order.
    pub inputs: Vec<String>,
    /// Exclusion patterns, in order.
    pub excludes: Vec<String>,
    /// Text of the daily retention count; `None` when the option was not given.
    pub keep_daily: Option<String>,
    /// Text of the weekly retention count; `None` when the option was not given.
    pub keep_weekly: Option<String>,
    /// Text of the monthly retention count; `None` when the option was not given.
    pub keep_monthly: Option<String>,
    /// Location of the archive repository.
    pub repo_path: String,
    /// Remote target of the synchronisation.
    pub sync_dest: String,
    /// Whether commands are only shown, not run.
    pub dry_run: bool,
    /// Where the run's outcome is pushed, if anywhere.
    pub metrics_addr: Option<String>,
}

/// The resolved, immutable configuration of one run.
pub struct RunConfig {
    pub inputs: Vec<String>,
    pub excludes: Vec<String>,
    pub keep_daily: u8,
    pub keep_weekly: u8,
    pub keep_monthly: u8,
    pub repo_path: String,
    pub sync_dest: String,
    pub dry_run: bool,
    pub metrics_addr: Option<String>,
}

impl RunConfig {
    /// A configuration always names at least one input.
    pub open spec fn wf(&self) -> bool {
        self.inputs.len() > 0
    }
}

/// Why the options could not be resolved.
pub enum ConfigError {
    /// No input path was given.
    MissingInputs,
    /// A retention count is not a number from 0 to 255.
    InvalidCount { flag: String, value: String },
}

/// Retention count used when the option is not given.
pub const DEFAULT_KEEP: u8 = 1;

/// The count that an optional retention text stands for.
pub open spec fn count_of(text: Option<String>) -> Option<u8> {
    match text {
        None => Some(DEFAULT_KEEP),
        Some(t) => parsed_u8(t@),
    }
}

/// Whether `r` is the error that reports the retention option `flag` with
/// the given text.
pub open spec fn rejects_count<T>(r: Result<T, ConfigError>, flag: Seq<char>, text: Option<String>) -> bool {
    match (r, text) {
        (Err(ConfigError::InvalidCount { flag: f, value }), Some(t)) => f@ == flag && value@ == t@,
        _ => false,
    }
}

/// Reads one retention option; `flag` names it in the error.
pub fn resolve_count(flag: &str, text: Option<String>) -> (r: Result<u8, ConfigError>)
    ensures
        count_of(text) matches Some(n) ==> r == Ok::<u8, ConfigError>(n),
        count_of(text) is None ==> rejects_count(r, flag@, text),
{
    match text {
        None => Ok(DEFAULT_KEEP),
        Some(t) => match parse_u8(t.as_str()) {
            Some(n) => Ok(n),
            None => Err(ConfigError::InvalidCount { flag: String::from_str(flag), value: t }),
        },
    }
}

/// Resolves the options of a run. It fails when no input is given, then on the
/// first of the daily, weekly and monthly counts that is not a `u8`, naming
/// that option; otherwise every field is taken over, with absent counts at 1.
pub fn resolve(raw: RawOptions) -> (r: Result<RunConfig, ConfigError>)
    ensures
        raw.inputs.len() == 0 ==> r matches Err(ConfigError::MissingInputs),
        raw.inputs.len() > 0 && count_of(raw.keep_daily) is None ==> rejects_count(
            r,
            "keep-daily"@,
            raw.keep_daily,
        ),
        raw.inputs.len() > 0 && count_of(raw.keep_daily) is Some && count_of(
            raw.keep_weekly,
        ) is None ==> rejects_count(r, "keep-weekly"@, raw.keep_weekly),
        raw.inputs.len() > 0 && count_of(raw.keep_daily) is Some && count_of(
            raw.keep_weekly,
        ) is Some && count_of(raw.keep_monthly) is None ==> rejects_count(
            r,
            "keep-monthly"@,
            raw.keep_monthly,
        ),
        r is Ok <==> raw.inputs.len() > 0 && count_of(raw.keep_daily) is Some && count_of(
            raw.keep_weekly,
        ) is Some && count_of(raw.keep_monthly) is Some,
        r matches Ok(c) ==> {
            &&& c.wf()
            &&& c.inputs@ == raw.inputs@
            &&& c.excludes@ == raw.excludes@
            &&& Some(c.keep_daily) == count_of(raw.keep_daily)
            &&& Some(c.keep_weekly) == count_of(raw.keep_weekly)
            &&& Some(c.keep_monthly) == count_of(raw.keep_monthly)
            &&& c.repo_path@ == raw.repo_path@
            &&& c.sync_dest@ == raw.sync_dest@
            &&& c.dry_run == raw.dry_run
            &&& c.metrics_addr == raw.metrics_addr
        },
{
    if raw.inputs.len() == 0 {
        return Err(ConfigError::MissingInputs);
    }
    let keep_daily = match resolve_count("keep-daily", raw.keep_daily) {
        Ok(n) => n,
        Err(e) => return Err(e),
    };
    let keep_weekly = match resolve_count("keep-weekly", raw.keep_weekly) {
        Ok(n) => n,
        Err(e) => return Err(e),
    };
    let keep_monthly = match resolve_count("keep-monthly", raw.keep_monthly) {
        Ok(n) => n,
        Err(e) => return Err(e),
    };
    Ok(
        RunConfig {
            inputs: raw.inputs,
            excludes: raw.excludes,
            keep_daily,
            keep_weekly,
            keep_monthly,
            repo_path: raw.repo_path,
            sync_dest: raw.sync_dest,
            dry_run: raw.dry_run,
            metrics_addr: raw.metrics_addr,
        },
    )
}

} // verus!

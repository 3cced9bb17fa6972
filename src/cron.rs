//! Cron scheduling of plugin tasks. Expressions are parsed and occurrences
//! found by the `croner` crate; the library decides what a cron task does
//! at each turn, with times as milliseconds since the Unix epoch.
use chrono::TimeZone;
use vstd::prelude::*;

verus! {

#[verifier::external_type_specification]
#[verifier::external_body]
pub struct ExCron(croner::Cron);

#[verifier::external_type_specification]
#[verifier::external_body]
pub struct ExCronError(croner::errors::CronError);

/// Whether `croner` accepts a text as a cron expression with an optional
/// seconds field.
pub uninterp spec fn cron_accepts(expr: Seq<char>) -> bool;

/// Relies on `Cron::new(..).with_seconds_optional().parse()`: whether it
/// succeeds depends on the expression alone.
#[verifier::external_body]
fn parse_cron(expr: &str) -> (r: Result<croner::Cron, croner::errors::CronError>)
    ensures
        r is Ok <==> cron_accepts(expr@),
{
    croner::Cron::new(expr).with_seconds_optional().parse()
}

/// Relies on `Cron::find_next_occurrence` (not inclusive) in the machine's
/// time zone, with the instant converted from and to epoch milliseconds. The
/// outcome depends on the time zone, so nothing is promised of it.
#[verifier::external_body]
fn next_occurrence(cron: &croner::Cron, now_ms: i64) -> (r: Option<i64>) {
    let now = chrono::Local.timestamp_millis_opt(now_ms).single()?;
    cron.find_next_occurrence(&now, false).ok().map(|t| t.timestamp_millis())
}

/// A parsed cron schedule.
pub struct CronSchedule {
    pub cron: croner::Cron,
}

/// What a cron task does next.
#[derive(Clone, Copy, Debug, PartialEq, Eq, Structural)]
pub enum CronStep {
    /// Sleep `wait_ms` milliseconds, until `until_ms`, then run the handler.
    Sleep { until_ms: i64, wait_ms: u64 },
    /// End the task: the plugin is disabled, or no next occurrence was found.
    Stop,
}

/// The wait from `now` until `until`, none if `until` has passed.
pub open spec fn wait_until(now: i64, until: i64) -> int {
    if until > now { until - now } else { 0 }
}

/// The step of a cron task, given whether its plugin is enabled, the time
/// now, and the next occurrence found (if any).
pub fn cron_decide(enabled: bool, now_ms: i64, next: Option<i64>) -> (r: CronStep)
    ensures
        !enabled ==> r == CronStep::Stop,
        next is None ==> r == CronStep::Stop,
        enabled ==> (next matches Some(t) ==> r == (CronStep::Sleep { until_ms: t, wait_ms: wait_until(now_ms, t) as u64 })),
{
    if !enabled {
        return CronStep::Stop;
    }
    match next {
        None => CronStep::Stop,
        Some(t) => {
            let wait: u64 = if t > now_ms { (t as i128 - now_ms as i128) as u64 } else { 0 };
            CronStep::Sleep { until_ms: t, wait_ms: wait }
        },
    }
}

/// Whether a cron task that woke up runs its handler: only while its plugin
/// is enabled.
pub fn cron_should_fire(enabled: bool) -> (r: bool)
    ensures
        r == enabled,
{
    enabled
}

impl CronSchedule {
    /// Parses a cron expression whose seconds field is optional.
    pub fn parse(expr: &str) -> (r: Result<CronSchedule, croner::errors::CronError>)
        ensures
            r is Ok <==> cron_accepts(expr@),
    {
        match parse_cron(expr) {
            Ok(cron) => Ok(CronSchedule { cron }),
            Err(e) => Err(e),
        }
    }

    /// The next step of a task on this schedule at `now_ms`.
    pub fn plan(&self, enabled: bool, now_ms: i64) -> (r: CronStep)
        ensures
            !enabled ==> r == CronStep::Stop,
            r matches CronStep::Sleep { until_ms, wait_ms } ==> wait_ms == wait_until(now_ms, until_ms),
    {
        if !enabled {
            return CronStep::Stop;
        }
        let next = next_occurrence(&self.cron, now_ms);
        cron_decide(enabled, now_ms, next)
    }
}

} // verus!

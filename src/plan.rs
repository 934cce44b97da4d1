use vstd::prelude::*;
use vstd::multiset::Multiset;

use crate::classify::Verdict;
use crate::config::{Config, stop_bound};
use crate::error::InquisitorError;
use crate::headers::{header_map, keys_unique, pairs_map, pairs_view, parse_headers, strings_view};
use crate::metrics::{MAX_TRACKED_LATENCY_US, Metrics};
use crate::pattern::{FailurePattern, regex_compiles};
use crate::worker::Settings;

verus! {

/// Everything a run needs before its first request: the stop bound, the
/// request headers, how replies are treated, and empty metrics.
pub struct RunPlan {
    /// Stop once this many requests are recorded.
    pub max_iterations: usize,
    /// Stop once this many microseconds have elapsed.
    pub max_duration_us: u64,
    /// Request headers, with unique keys.
    pub headers: Vec<(String, String)>,
    /// How workers treat replies.
    pub settings: Settings,
    /// The run's shared metrics, empty.
    pub metrics: Metrics,
}

/// Prepares a run from its configuration. Fails exactly where the
/// failure-body pattern is not a valid regular expression.
pub fn prepare(config: &Config) -> (r: Result<RunPlan, InquisitorError>)
    ensures
        r == Err::<RunPlan, InquisitorError>(InquisitorError::InvalidFailurePattern) <==> (
        config.failed_body matches Some(f) && !regex_compiles(f@)),
        (config.failed_body matches Some(f) ==> regex_compiles(f@)) ==> r is Ok,
        r matches Ok(p) ==> {
            &&& (p.max_iterations, p.max_duration_us) == stop_bound(
                config.iterations,
                config.duration,
            )
            &&& keys_unique(pairs_view(p.headers@))
            &&& pairs_map(pairs_view(p.headers@)) == header_map(strings_view(config.header@))
            &&& p.settings.print_response == config.print_response
            &&& p.settings.hide_errors == config.hide_errors
            &&& (p.settings.failure_pattern is Some <==> config.failed_body is Some)
            &&& (p.settings.failure_pattern matches Some(fp) ==> fp@
                == config.failed_body.unwrap()@)
            &&& p.metrics.wf()
            &&& p.metrics.outcomes() == Seq::<Verdict>::empty()
            &&& p.metrics.samples() =~= Multiset::<u64>::empty()
            &&& p.metrics.limit() == MAX_TRACKED_LATENCY_US
        },
{
    let failure_pattern = match &config.failed_body {
        Some(source) => match FailurePattern::new(source.as_str()) {
            Ok(p) => Some(p),
            Err(e) => {
                return Err(e);
            },
        },
        None => None,
    };
    let metrics = match Metrics::new() {
        Ok(m) => m,
        Err(e) => {
            return Err(e);
        },
    };
    let (max_iterations, max_duration_us) = config.iterations_and_duration();
    let headers = parse_headers(&config.header);
    let settings = Settings {
        print_response: config.print_response,
        hide_errors: config.hide_errors,
        failure_pattern,
    };
    Ok(RunPlan { max_iterations, max_duration_us, headers, settings, metrics })
}

} // verus!

use vstd::prelude::*;

verus! {

/// Default run duration, in seconds, when neither an iteration count nor a
/// duration is given.
pub const DEFAULT_DURATION_SECS: u64 = 20;

/// Default number of concurrent connections.
pub const MAX_CONNS: usize = 12;

/// HTTP method used for every request of a run.
#[derive(Debug, Clone, Copy, PartialEq, Eq, Structural)]
pub enum Method {
    Get,
    Post,
}

impl Default for Method {
    fn default() -> (r: Self)
        ensures
            r == Method::Get,
    {
        Method::Get
    }
}

/// The effective stop bound `(max_iterations, max_duration_micros)` for the
/// user's optional iteration count and optional duration (in microseconds).
/// Where neither is given, the run lasts the default duration.
pub open spec fn stop_bound(iterations: Option<usize>, duration: Option<u64>) -> (usize, u64) {
    match (iterations, duration) {
        (None, None) => (usize::MAX, (DEFAULT_DURATION_SECS * 1_000_000) as u64),
        (Some(i), None) => (i, u64::MAX),
        (None, Some(d)) => (usize::MAX, d),
        (Some(i), Some(d)) => (i, d),
    }
}

/// Configuration of a load-test run.
pub struct Config {
    /// Target URL.
    pub url: String,
    /// Number of requests to send. With `duration` too, the run ends at
    /// whichever bound is reached first; with neither, the run lasts
    /// `DEFAULT_DURATION_SECS`.
    pub iterations: Option<usize>,
    /// Number of concurrent connections (workers).
    pub connections: usize,
    /// Print the body of successful responses.
    pub print_response: bool,
    /// A regular expression; a 2xx response whose body matches it counts as a
    /// failure.
    pub failed_body: Option<String>,
    /// Do not validate TLS certificates.
    pub insecure: bool,
    /// HTTP method of the requests.
    pub method: Method,
    /// Body of the requests (sent only with `Method::Post`).
    pub request_body: Option<String>,
    /// Header entries in `KEY:VALUE` form.
    pub header: Vec<String>,
    /// Do not print errors.
    pub hide_errors: bool,
    /// Duration of the run, in microseconds.
    pub duration: Option<u64>,
    /// Path to an extra trusted root CA certificate in PEM format.
    pub ca_cert: Option<String>,
}

impl Default for Config {
    fn default() -> (r: Self)
        ensures
            r.url@ == Seq::<char>::empty(),
            r.iterations.is_none(),
            r.connections == 0,
            !r.print_response,
            r.failed_body.is_none(),
            !r.insecure,
            r.method == Method::Get,
            r.request_body.is_none(),
            r.header@.len() == 0,
            !r.hide_errors,
            r.duration.is_none(),
            r.ca_cert.is_none(),
    {
        Config {
            url: String::new(),
            iterations: None,
            connections: 0,
            print_response: false,
            failed_body: None,
            insecure: false,
            method: Method::Get,
            request_body: None,
            header: Vec::new(),
            hide_errors: false,
            duration: None,
            ca_cert: None,
        }
    }
}

impl Config {
    /// The effective maximum number of iterations and duration (in
    /// microseconds) for the bounds set by the user.
    pub fn iterations_and_duration(&self) -> (r: (usize, u64))
        ensures
            r == stop_bound(self.iterations, self.duration),
    {
        match (self.iterations, self.duration) {
            (None, None) => (usize::MAX, DEFAULT_DURATION_SECS * 1_000_000),
            (Some(i), None) => (i, u64::MAX),
            (None, Some(d)) => (usize::MAX, d),
            (Some(i), Some(d)) => (i, d),
        }
    }
}

} // verus!

use vstd::prelude::*;

verus! {

/// What a request came back with: a transport-level failure (connection
/// refused, timeout, TLS failure, ...) or an HTTP status code.
#[derive(Debug, Clone, Copy, PartialEq, Eq, Structural)]
pub enum Reply {
    Failed,
    Status(u16),
}

/// The outcome category of one request.
#[derive(Debug, Clone, Copy, PartialEq, Eq, Structural)]
pub enum Verdict {
    Pass,
    Fail,
}

/// A 2xx status code.
pub open spec fn is_success(code: u16) -> bool {
    200 <= code && code <= 299
}

/// A reply that carries a 2xx status.
pub open spec fn is_success_reply(reply: Reply) -> bool {
    match reply {
        Reply::Failed => false,
        Reply::Status(code) => is_success(code),
    }
}

/// The verdict for a reply. `pattern_hit` is `None` where no failure pattern
/// is configured, and otherwise whether the pattern matched the body.
pub open spec fn verdict_of(reply: Reply, pattern_hit: Option<bool>) -> Verdict {
    if !is_success_reply(reply) {
        Verdict::Fail
    } else {
        match pattern_hit {
            Some(true) => Verdict::Fail,
            _ => Verdict::Pass,
        }
    }
}

/// Classifies a reply as a pass or a failure: transport failures and non-2xx
/// statuses fail; a 2xx passes unless a configured failure pattern matched its
/// body.
pub fn classify(reply: Reply, pattern_hit: Option<bool>) -> (r: Verdict)
    ensures
        r == verdict_of(reply, pattern_hit),
{
    match reply {
        Reply::Failed => Verdict::Fail,
        Reply::Status(code) => {
            if code < 200 || code > 299 {
                Verdict::Fail
            } else {
                match pattern_hit {
                    Some(true) => Verdict::Fail,
                    _ => Verdict::Pass,
                }
            }
        },
    }
}

/// Whether the body of a reply must be read: for a 2xx reply, to test it
/// against a failure pattern or to print it.
pub fn body_needed(reply: Reply, has_pattern: bool, print_response: bool) -> (r: bool)
    ensures
        r == (is_success_reply(reply) && (has_pattern || print_response)),
{
    match reply {
        Reply::Failed => false,
        Reply::Status(code) => 200 <= code && code <= 299 && (has_pattern || print_response),
    }
}

/// Number of passes among `vs`.
pub open spec fn count_passes(vs: Seq<Verdict>) -> nat
    decreases vs.len(),
{
    if vs.len() == 0 {
        0
    } else {
        count_passes(vs.drop_last()) + if vs.last() == Verdict::Pass {
            1nat
        } else {
            0nat
        }
    }
}

/// Number of failures among `vs`.
pub open spec fn count_fails(vs: Seq<Verdict>) -> nat
    decreases vs.len(),
{
    if vs.len() == 0 {
        0
    } else {
        count_fails(vs.drop_last()) + if vs.last() == Verdict::Fail {
            1nat
        } else {
            0nat
        }
    }
}

/// Every verdict is a pass or a failure.
pub proof fn lemma_counts_sum(vs: Seq<Verdict>)
    ensures
        count_passes(vs) + count_fails(vs) == vs.len(),
    decreases vs.len(),
{
    if vs.len() > 0 {
        lemma_counts_sum(vs.drop_last());
    }
}

} // verus!

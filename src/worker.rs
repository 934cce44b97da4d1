use vstd::prelude::*;

use crate::classify::{
    Reply, Verdict, body_needed, classify, count_fails, count_passes, is_success_reply, verdict_of,
};
use crate::error::InquisitorError;
use crate::metrics::{MAX_TRACKED_LATENCY_US, Metrics};
use crate::pattern::{FailurePattern, regex_finds};

verus! {

/// How a worker treats the replies it gets.
pub struct Settings {
    /// Print the body of successful responses.
    pub print_response: bool,
    /// Do not print errors.
    pub hide_errors: bool,
    /// A 2xx response whose body this matches counts as a failure.
    pub failure_pattern: Option<FailurePattern>,
}

/// What a worker reports about one request.
#[derive(Debug, Clone, Copy, PartialEq, Eq, Structural)]
pub enum Notice {
    /// Nothing to print.
    Quiet,
    /// A successful response: print its body.
    ShowBody,
    /// A 2xx response whose body matched the failure pattern: print the body
    /// as an error.
    BodyIndicatesError,
    /// A non-2xx response: print its status code as an error.
    BadStatus(u16),
    /// A transport failure: print it as an error.
    RequestFailed,
}

/// Whether the failure pattern matched, for a reply with body `body`: `None`
/// where no pattern is configured or the reply is not a 2xx.
pub open spec fn pattern_hit(settings: Settings, reply: Reply, body: Seq<char>) -> Option<bool> {
    match settings.failure_pattern {
        Some(p) => if is_success_reply(reply) {
            Some(regex_finds(p@, body))
        } else {
            None
        },
        None => None,
    }
}

/// The notice for a reply, given the pattern's outcome on its body.
pub open spec fn notice_of(settings: Settings, reply: Reply, hit: Option<bool>) -> Notice {
    if verdict_of(reply, hit) == Verdict::Pass {
        if settings.print_response {
            Notice::ShowBody
        } else {
            Notice::Quiet
        }
    } else if settings.hide_errors {
        Notice::Quiet
    } else {
        match reply {
            Reply::Failed => Notice::RequestFailed,
            Reply::Status(code) => if is_success_reply(reply) {
                Notice::BodyIndicatesError
            } else {
                Notice::BadStatus(code)
            },
        }
    }
}

/// Whether the body of a reply must be read before `settle`: for a 2xx, where
/// a failure pattern is configured or bodies are printed.
pub fn needs_body(settings: &Settings, reply: Reply) -> (r: bool)
    ensures
        r == (is_success_reply(reply) && (settings.failure_pattern is Some
            || settings.print_response)),
{
    body_needed(reply, settings.failure_pattern.is_some(), settings.print_response)
}

/// Settles one finished request: classifies the reply (testing `body`, which
/// `needs_body` says when to read, against the failure pattern), records its
/// latency and verdict, and says what to print. Fails, recording nothing,
/// where the latency exceeds `MAX_TRACKED_LATENCY_US` or the count of
/// requests is already `usize::MAX`.
pub fn settle(
    settings: &Settings,
    metrics: &mut Metrics,
    reply: Reply,
    body: &str,
    latency_us: u64,
) -> (r: Result<Notice, InquisitorError>)
    requires
        old(metrics).wf(),
    ensures
        final(metrics).wf(),
        ({
            let hit = pattern_hit(*settings, reply, body@);
            &&& r is Ok ==> final(metrics).outcomes() == old(metrics).outcomes().push(
                verdict_of(reply, hit),
            ) && final(metrics).samples() =~= old(metrics).samples().insert(latency_us)
            &&& r matches Ok(n) ==> n == notice_of(*settings, reply, hit)
        }),
        r is Err ==> final(metrics).outcomes() == old(metrics).outcomes(),
        r is Err ==> final(metrics).samples() == old(metrics).samples(),
        r == Err::<Notice, InquisitorError>(InquisitorError::LatencyOutOfRange)
            <==> latency_us > MAX_TRACKED_LATENCY_US,
        r == Err::<Notice, InquisitorError>(InquisitorError::CounterOverflow)
            <==> latency_us <= MAX_TRACKED_LATENCY_US && old(metrics).outcomes().len() == usize::MAX,
        r is Ok <==> latency_us <= MAX_TRACKED_LATENCY_US && old(metrics).outcomes().len()
            < usize::MAX,
{
    let success = match reply {
        Reply::Failed => false,
        Reply::Status(code) => 200 <= code && code <= 299,
    };
    let hit: Option<bool> = match &settings.failure_pattern {
        Some(p) => if success {
            Some(p.is_match(body))
        } else {
            None
        },
        None => None,
    };
    let verdict = classify(reply, hit);
    match metrics.record(latency_us, verdict) {
        Ok(()) => {},
        Err(e) => {
            return Err(e);
        },
    }
    let notice = match verdict {
        Verdict::Pass => if settings.print_response {
            Notice::ShowBody
        } else {
            Notice::Quiet
        },
        Verdict::Fail => if settings.hide_errors {
            Notice::Quiet
        } else {
            match reply {
                Reply::Failed => Notice::RequestFailed,
                Reply::Status(code) => if success {
                    Notice::BodyIndicatesError
                } else {
                    Notice::BadStatus(code)
                },
            }
        },
    };
    Ok(notice)
}

/// The verdicts that `settle` records for a sequence of replies and their
/// bodies, in order.
pub open spec fn run_verdicts(settings: Settings, replies: Seq<Reply>, bodies: Seq<Seq<char>>) -> Seq<
    Verdict,
>
    recommends
        replies.len() == bodies.len(),
{
    Seq::new(replies.len(), |i: int| verdict_of(replies[i], pattern_hit(settings, replies[i], bodies[i])))
}

/// Against a target that always answers with a 2xx status, and with no
/// failure pattern, every request passes and none fails.
pub proof fn lemma_success_target_all_pass(
    settings: Settings,
    replies: Seq<Reply>,
    bodies: Seq<Seq<char>>,
)
    requires
        settings.failure_pattern is None,
        replies.len() == bodies.len(),
        forall|i: int| 0 <= i < replies.len() ==> #[trigger] is_success_reply(replies[i]),
    ensures
        count_passes(run_verdicts(settings, replies, bodies)) == replies.len(),
        count_fails(run_verdicts(settings, replies, bodies)) == 0,
    decreases replies.len(),
{
    let vs = run_verdicts(settings, replies, bodies);
    if replies.len() > 0 {
        let rs = replies.drop_last();
        let bs = bodies.drop_last();
        assert forall|i: int| 0 <= i < rs.len() implies #[trigger] is_success_reply(rs[i]) by {
            assert(is_success_reply(replies[i]));
        }
        lemma_success_target_all_pass(settings, rs, bs);
        assert(vs.drop_last() =~= run_verdicts(settings, rs, bs));
        assert(is_success_reply(replies[replies.len() - 1]));
    }
}

/// Against a target that never answers with a 2xx status (always 500, say),
/// whatever the settings and bodies, every request fails and none passes.
pub proof fn lemma_failing_target_all_fail(
    settings: Settings,
    replies: Seq<Reply>,
    bodies: Seq<Seq<char>>,
)
    requires
        replies.len() == bodies.len(),
        forall|i: int| 0 <= i < replies.len() ==> !#[trigger] is_success_reply(replies[i]),
    ensures
        count_passes(run_verdicts(settings, replies, bodies)) == 0,
        count_fails(run_verdicts(settings, replies, bodies)) == replies.len(),
    decreases replies.len(),
{
    let vs = run_verdicts(settings, replies, bodies);
    if replies.len() > 0 {
        let rs = replies.drop_last();
        let bs = bodies.drop_last();
        assert forall|i: int| 0 <= i < rs.len() implies !#[trigger] is_success_reply(rs[i]) by {
            assert(!is_success_reply(replies[i]));
        }
        lemma_failing_target_all_fail(settings, rs, bs);
        assert(vs.drop_last() =~= run_verdicts(settings, rs, bs));
        assert(!is_success_reply(replies[replies.len() - 1]));
    }
}

} // verus!

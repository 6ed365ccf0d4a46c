//! Status classification and the short-circuiting evaluation loop.
//!
//! One probe of a URL either yields an HTTP status code or fails at the
//! transport level. A status is healthy exactly when it lies in 200..300;
//! a transport failure is fatal. The run stops at the first outcome that is
//! not healthy, and the process exit code is 0 exactly when every URL was
//! probed and found healthy.

use vstd::prelude::*;

verus! {

/// A received HTTP status code is healthy exactly when it lies in 200..300.
pub open spec fn spec_healthy(code: u16) -> bool {
    200 <= code < 300
}

/// Decides whether one HTTP status code counts as healthy.
pub fn is_healthy_status(code: u16) -> (r: bool)
    ensures
        r == spec_healthy(code),
{
    200 <= code && code < 300
}

/// The outcome of probing one URL, as the driver hands it back.
#[derive(Clone, Copy, PartialEq, Eq, Structural, Debug)]
pub enum ProbeOutcome {
    /// An HTTP response was received, bearing this status code. A 3xx
    /// answer is an outcome like any other: redirects are never followed.
    Response(u16),
    /// No response was received: DNS failure, connection refused, TLS
    /// handshake failure, timeout, or a malformed URL.
    TransportFailure,
}

/// An outcome keeps the run going exactly when it is a 2xx response.
pub open spec fn outcome_healthy(o: ProbeOutcome) -> bool {
    match o {
        ProbeOutcome::Response(code) => spec_healthy(code),
        ProbeOutcome::TransportFailure => false,
    }
}

/// What the driver must do after one probe.
#[derive(Clone, Copy, PartialEq, Eq, Structural, Debug)]
pub enum Directive {
    /// The URL was healthy: go on to the next one.
    Proceed,
    /// The URL answered with a status outside 200..300: stop probing;
    /// the run is unhealthy, but no diagnostic is owed.
    StopUnhealthy,
    /// A transport-level failure: report it and stop at once.
    StopFatal,
}

/// The directive an outcome dictates.
pub open spec fn spec_directive(o: ProbeOutcome) -> Directive {
    match o {
        ProbeOutcome::Response(code) => if spec_healthy(code) {
            Directive::Proceed
        } else {
            Directive::StopUnhealthy
        },
        ProbeOutcome::TransportFailure => Directive::StopFatal,
    }
}

/// Decides, from one probe's outcome, whether the run goes on, stops
/// unhealthy, or stops fatally.
pub fn next_directive(o: &ProbeOutcome) -> (d: Directive)
    ensures
        d == spec_directive(*o),
        d == Directive::Proceed <==> outcome_healthy(*o),
{
    match *o {
        ProbeOutcome::Response(code) => if is_healthy_status(code) {
            Directive::Proceed
        } else {
            Directive::StopUnhealthy
        },
        ProbeOutcome::TransportFailure => Directive::StopFatal,
    }
}

/// How a whole run ends.
#[derive(Clone, Copy, PartialEq, Eq, Structural, Debug)]
pub enum Verdict {
    /// No URLs were given: a usage error, reported before any probe.
    NoUrls,
    /// Every URL was probed and answered with a 2xx status.
    AllHealthy,
    /// The URL at this index answered with a status outside 200..300;
    /// the URLs after it were not probed.
    UnhealthyAt(usize),
    /// The URL at this index failed at the transport level; the URLs
    /// after it were not probed.
    FatalAt(usize),
}

/// The first n outcomes are all healthy.
pub open spec fn healthy_prefix(outcomes: Seq<ProbeOutcome>, n: int) -> bool {
    forall|i: int| 0 <= i < n ==> outcome_healthy(outcomes[i])
}

/// Index i holds the first outcome that is not healthy.
pub open spec fn first_failure_at(outcomes: Seq<ProbeOutcome>, i: int) -> bool {
    &&& 0 <= i < outcomes.len()
    &&& !outcome_healthy(outcomes[i])
    &&& healthy_prefix(outcomes, i)
}

/// The verdict that a sequence of probe outcomes dictates.
pub open spec fn verdict_for(outcomes: Seq<ProbeOutcome>, v: Verdict) -> bool {
    match v {
        Verdict::NoUrls => outcomes.len() == 0,
        Verdict::AllHealthy => outcomes.len() > 0 && healthy_prefix(
            outcomes,
            outcomes.len() as int,
        ),
        Verdict::UnhealthyAt(i) => first_failure_at(outcomes, i as int) && outcomes[i as int]
            is Response,
        Verdict::FatalAt(i) => first_failure_at(outcomes, i as int) && outcomes[i as int]
            is TransportFailure,
    }
}

/// The process exit code each verdict owes: 0 only when every URL was
/// probed and healthy.
pub open spec fn spec_exit_code(v: Verdict) -> int {
    if v is AllHealthy {
        0
    } else {
        1
    }
}

/// The exit code the process owes for a verdict.
pub fn exit_code(v: &Verdict) -> (c: u8)
    ensures
        c as int == spec_exit_code(*v),
        c == 0 <==> *v is AllHealthy,
{
    match *v {
        Verdict::AllHealthy => 0,
        _ => 1,
    }
}

/// How many URLs a run with this verdict probes, out of `total` given:
/// none on a usage error, all of them when all are healthy, and everything
/// up to and including the first failing one otherwise.
pub open spec fn spec_probed(v: Verdict, total: int) -> int {
    match v {
        Verdict::NoUrls => 0,
        Verdict::AllHealthy => total,
        Verdict::UnhealthyAt(i) => i + 1,
        Verdict::FatalAt(i) => i + 1,
    }
}

/// The verdict's failure index, if any, lies among the `total` URLs.
pub open spec fn verdict_in_range(v: Verdict, total: int) -> bool {
    match v {
        Verdict::NoUrls => true,
        Verdict::AllHealthy => true,
        Verdict::UnhealthyAt(i) => i < total,
        Verdict::FatalAt(i) => i < total,
    }
}

/// Counts how many URLs a run with this verdict probes.
pub fn probed_count(v: &Verdict, total: usize) -> (n: usize)
    requires
        verdict_in_range(*v, total as int),
    ensures
        n as int == spec_probed(*v, total as int),
{
    match *v {
        Verdict::NoUrls => 0,
        Verdict::AllHealthy => total,
        Verdict::UnhealthyAt(i) => i + 1,
        Verdict::FatalAt(i) => i + 1,
    }
}

/// Evaluates a whole run: walks the outcomes in order and stops at the
/// first one that is not healthy. The verdict is the unique one the
/// outcome sequence dictates.
pub fn evaluate(outcomes: &Vec<ProbeOutcome>) -> (v: Verdict)
    ensures
        verdict_for(outcomes@, v),
        verdict_in_range(v, outcomes@.len() as int),
{
    if outcomes.len() == 0 {
        return Verdict::NoUrls;
    }
    let mut i: usize = 0;
    while i < outcomes.len()
        invariant
            i <= outcomes@.len(),
            healthy_prefix(outcomes@, i as int),
        decreases outcomes@.len() - i,
    {
        match next_directive(&outcomes[i]) {
            Directive::Proceed => {
                i = i + 1;
            },
            Directive::StopUnhealthy => {
                return Verdict::UnhealthyAt(i);
            },
            Directive::StopFatal => {
                return Verdict::FatalAt(i);
            },
        }
    }
    Verdict::AllHealthy
}

/// A sequence of outcomes has at most one first failure.
pub proof fn lemma_first_failure_unique(outcomes: Seq<ProbeOutcome>, i: int, j: int)
    requires
        first_failure_at(outcomes, i),
        first_failure_at(outcomes, j),
    ensures
        i == j,
{
    if i < j {
        assert(outcome_healthy(outcomes[i]));
    }
    if j < i {
        assert(outcome_healthy(outcomes[j]));
    }
}

/// The verdict relation is functional: a run of outcomes admits exactly
/// one verdict.
pub proof fn lemma_verdict_unique(outcomes: Seq<ProbeOutcome>, v1: Verdict, v2: Verdict)
    requires
        verdict_for(outcomes, v1),
        verdict_for(outcomes, v2),
    ensures
        v1 == v2,
{
    match (v1, v2) {
        (Verdict::UnhealthyAt(i), Verdict::UnhealthyAt(j)) => {
            lemma_first_failure_unique(outcomes, i as int, j as int);
        },
        (Verdict::UnhealthyAt(i), Verdict::FatalAt(j)) => {
            lemma_first_failure_unique(outcomes, i as int, j as int);
        },
        (Verdict::FatalAt(i), Verdict::UnhealthyAt(j)) => {
            lemma_first_failure_unique(outcomes, i as int, j as int);
        },
        (Verdict::FatalAt(i), Verdict::FatalAt(j)) => {
            lemma_first_failure_unique(outcomes, i as int, j as int);
        },
        _ => {},
    }
}

/// With no URLs given, the only verdict is the usage error: its exit code
/// is 1 and nothing is probed, so no network call occurs.
pub proof fn lemma_no_urls(outcomes: Seq<ProbeOutcome>)
    requires
        outcomes.len() == 0,
    ensures
        verdict_for(outcomes, Verdict::NoUrls),
        forall|v: Verdict| verdict_for(outcomes, v) ==> v == Verdict::NoUrls,
        spec_exit_code(Verdict::NoUrls) == 1,
        spec_probed(Verdict::NoUrls, 0) == 0,
{
    assert forall|v: Verdict| verdict_for(outcomes, v) implies v == Verdict::NoUrls by {
        lemma_verdict_unique(outcomes, v, Verdict::NoUrls);
    }
}

/// When every probed URL answers with a 2xx status, the only verdict is
/// all-healthy and the process exit code is 0.
pub proof fn lemma_all_healthy(outcomes: Seq<ProbeOutcome>)
    requires
        outcomes.len() > 0,
        healthy_prefix(outcomes, outcomes.len() as int),
    ensures
        verdict_for(outcomes, Verdict::AllHealthy),
        forall|v: Verdict| verdict_for(outcomes, v) ==> v == Verdict::AllHealthy,
        spec_exit_code(Verdict::AllHealthy) == 0,
{
    assert forall|v: Verdict| verdict_for(outcomes, v) implies v == Verdict::AllHealthy by {
        lemma_verdict_unique(outcomes, v, Verdict::AllHealthy);
    }
}

/// Short-circuit: a run whose first failure stands at index i of a prefix
/// keeps that failure as its first one however the run would have gone on;
/// later URLs have no influence.
pub proof fn lemma_failure_ignores_rest(
    outcomes: Seq<ProbeOutcome>,
    rest: Seq<ProbeOutcome>,
    i: int,
)
    requires
        first_failure_at(outcomes, i),
    ensures
        first_failure_at(outcomes + rest, i),
        (outcomes + rest)[i] == outcomes[i],
{
    assert((outcomes + rest)[i] == outcomes[i]);
    assert forall|k: int| 0 <= k < i implies outcome_healthy((outcomes + rest)[k]) by {
        assert((outcomes + rest)[k] == outcomes[k]);
    }
}

/// Fatal short-circuit: when the first failing probe is a transport
/// failure, the whole run's verdict is fatal at that index, whatever the
/// remaining URLs would have answered; the exit code is 1, and no URL past
/// the failing one is probed.
pub proof fn lemma_fatal_short_circuit(
    outcomes: Seq<ProbeOutcome>,
    rest: Seq<ProbeOutcome>,
    i: usize,
)
    requires
        first_failure_at(outcomes, i as int),
        outcomes[i as int] is TransportFailure,
    ensures
        verdict_for(outcomes + rest, Verdict::FatalAt(i)),
        forall|v: Verdict| verdict_for(outcomes + rest, v) ==> v == Verdict::FatalAt(i),
        spec_exit_code(Verdict::FatalAt(i)) == 1,
        spec_probed(Verdict::FatalAt(i), (outcomes + rest).len() as int) == i + 1,
{
    lemma_failure_ignores_rest(outcomes, rest, i as int);
    assert forall|v: Verdict| verdict_for(outcomes + rest, v) implies v == Verdict::FatalAt(i) by {
        lemma_verdict_unique(outcomes + rest, v, Verdict::FatalAt(i));
    }
}

/// Non-fatal short-circuit: when the first failing probe is a response
/// with a status outside 200..300, the whole run's verdict is unhealthy at
/// that index, whatever the remaining URLs would have answered; the exit
/// code is 1, and the run is permitted to probe nothing past it.
pub proof fn lemma_unhealthy_short_circuit(
    outcomes: Seq<ProbeOutcome>,
    rest: Seq<ProbeOutcome>,
    i: usize,
)
    requires
        first_failure_at(outcomes, i as int),
        outcomes[i as int] is Response,
    ensures
        verdict_for(outcomes + rest, Verdict::UnhealthyAt(i)),
        forall|v: Verdict| verdict_for(outcomes + rest, v) ==> v == Verdict::UnhealthyAt(i),
        spec_exit_code(Verdict::UnhealthyAt(i)) == 1,
        spec_probed(Verdict::UnhealthyAt(i), (outcomes + rest).len() as int) == i + 1,
{
    lemma_failure_ignores_rest(outcomes, rest, i as int);
    assert forall|v: Verdict| verdict_for(outcomes + rest, v) implies v == Verdict::UnhealthyAt(
        i,
    ) by {
        lemma_verdict_unique(outcomes + rest, v, Verdict::UnhealthyAt(i));
    }
}

/// Redirect suppression: a 3xx answer is judged by its own status code,
/// which is never healthy, so a redirecting URL stops the run unhealthy
/// rather than being followed.
pub proof fn lemma_redirect_unhealthy(code: u16)
    requires
        300 <= code < 400,
    ensures
        !spec_healthy(code),
        spec_directive(ProbeOutcome::Response(code)) == Directive::StopUnhealthy,
{
}

/// A transport failure — a timeout included — always stops the run at
/// once, with exit code 1.
pub proof fn lemma_transport_failure_fatal()
    ensures
        spec_directive(ProbeOutcome::TransportFailure) == Directive::StopFatal,
        forall|v: Verdict| v is FatalAt ==> spec_exit_code(v) == 1,
{
}

} // verus!

//! Waiting for the backend to become ready: a bounded retry loop over health
//! requests, as a state machine.
//!
//! The caller asks [`ReadinessProber::pending`] what to do, does it, and
//! reports the result with [`ReadinessProber::step`], until the pending
//! action is [`ProbeAction::Finish`].

use vstd::prelude::*;
use vstd::string::*;
use crate::health::{health_request_of, HealthRequest, HealthRequestView, ProbeOutcome};
use crate::text::{decimal, decimal_string, lemma_decimal_digits};

verus! {

/// How many health requests are made before giving up.
pub const MAX_ATTEMPTS: u32 = 60;

/// The pause after a request that did not find the backend ready.
pub const RETRY_DELAY_MS: u64 = 500;

/// The timeout of each health request of the loop.
pub const REQUEST_TIMEOUT_SECS: u64 = 2;

/// The whole of the pauses of a loop that gives up, in seconds.
pub const RETRY_BUDGET_SECS: u64 = 30;

/// What the loop is doing.
#[derive(Clone, Copy, Debug, PartialEq, Eq, Structural)]
pub enum ProbePhase {
    /// A health request is to be made, or is in flight.
    Requesting,
    /// The last request failed; the pause after it has not elapsed yet.
    Sleeping,
    /// A request found the backend ready.
    Ready,
    /// Every attempt failed.
    TimedOut,
}

/// What the caller reports back.
#[derive(Clone, Copy, Debug, PartialEq, Eq, Structural)]
pub enum ProbeEvent {
    /// The health request ended with this outcome.
    Answered(ProbeOutcome),
    /// The pause has elapsed.
    Slept,
}

/// What the caller is to do next.
#[derive(Debug, PartialEq, Eq)]
pub enum ProbeAction {
    /// Send this request, then report `Answered`.
    Request(HealthRequest),
    /// Pause, then report `Slept`.
    Sleep { millis: u64 },
    /// The loop is over: ready, or the diagnostic why not.
    Finish(Result<(), String>),
}

/// [`ProbeAction`] over mathematical strings.
pub enum ProbeActionView {
    Request(HealthRequestView),
    Sleep { millis: u64 },
    Finish(Result<(), Seq<char>>),
}

impl View for ProbeAction {
    type V = ProbeActionView;

    open spec fn view(&self) -> ProbeActionView {
        match self {
            ProbeAction::Request(request) => ProbeActionView::Request(request@),
            ProbeAction::Sleep { millis } => ProbeActionView::Sleep { millis: *millis },
            ProbeAction::Finish(Ok(())) => ProbeActionView::Finish(Ok(())),
            ProbeAction::Finish(Err(text)) => ProbeActionView::Finish(Err(text@)),
        }
    }
}

/// The diagnostic of a loop that gave up.
pub open spec fn timeout_text() -> Seq<char> {
    "Backend did not become ready within "@ + decimal(RETRY_BUDGET_SECS as nat) + " seconds"@
}

/// The diagnostic of a loop that gave up. It names the retry budget.
pub fn timeout_message() -> (text: String)
    ensures
        text@ == timeout_text(),
        text@ == "Backend did not become ready within 30 seconds"@,
{
    let mut text = "Backend did not become ready within ".to_owned();
    let budget = decimal_string(RETRY_BUDGET_SECS);
    text.append(budget.as_str());
    text.append(" seconds");
    proof {
        lemma_decimal_digits(30);
        reveal_strlit("Backend did not become ready within ");
        reveal_strlit(" seconds");
        reveal_strlit("Backend did not become ready within 30 seconds");
        assert(text@ =~= "Backend did not become ready within 30 seconds"@);
    }
    text
}

/// The diagnostic for an HTTP client that could not be set up, so that no
/// request can be made at all.
pub open spec fn client_failure_text(cause: Seq<char>) -> Seq<char> {
    "Failed to create HTTP client: "@ + cause
}

/// The diagnostic for an HTTP client that could not be set up.
pub fn client_failure_message(cause: &str) -> (text: String)
    ensures
        text@ == client_failure_text(cause@),
{
    let mut text = "Failed to create HTTP client: ".to_owned();
    text.append(cause);
    text
}

/// The retry loop's state.
#[derive(Clone, Copy, Debug, PartialEq, Eq, Structural)]
pub struct ReadinessProber {
    /// The number of the attempt that is under way or was the last, from 1.
    pub attempt: u32,
    pub phase: ProbePhase,
}

impl ReadinessProber {
    /// The state before the first request.
    pub open spec fn initial() -> ReadinessProber {
        ReadinessProber { attempt: 1, phase: ProbePhase::Requesting }
    }

    /// What holds of every state that can be reached from
    /// [`ReadinessProber::initial`]: the attempt number stays within the
    /// budget, and the loop gives up only after the last attempt.
    pub open spec fn wf(self) -> bool {
        &&& 1 <= self.attempt <= MAX_ATTEMPTS
        &&& self.phase == ProbePhase::TimedOut ==> self.attempt == MAX_ATTEMPTS
    }

    /// The loop is over.
    pub open spec fn finished(self) -> bool {
        self.phase == ProbePhase::Ready || self.phase == ProbePhase::TimedOut
    }

    /// The state after `event`. An event that does not answer the pending
    /// action changes nothing.
    pub open spec fn next(self, event: ProbeEvent) -> ReadinessProber {
        match (self.phase, event) {
            (ProbePhase::Requesting, ProbeEvent::Answered(outcome)) => {
                if outcome.ready() {
                    ReadinessProber { phase: ProbePhase::Ready, ..self }
                } else {
                    ReadinessProber { phase: ProbePhase::Sleeping, ..self }
                }
            },
            (ProbePhase::Sleeping, ProbeEvent::Slept) => {
                if self.attempt < MAX_ATTEMPTS {
                    ReadinessProber {
                        attempt: (self.attempt + 1) as u32,
                        phase: ProbePhase::Requesting,
                    }
                } else {
                    ReadinessProber { phase: ProbePhase::TimedOut, ..self }
                }
            },
            _ => self,
        }
    }

    /// What the caller is to do in this state.
    pub open spec fn action(self) -> ProbeActionView {
        match self.phase {
            ProbePhase::Requesting => ProbeActionView::Request(
                health_request_of(REQUEST_TIMEOUT_SECS),
            ),
            ProbePhase::Sleeping => ProbeActionView::Sleep { millis: RETRY_DELAY_MS },
            ProbePhase::Ready => ProbeActionView::Finish(Ok(())),
            ProbePhase::TimedOut => ProbeActionView::Finish(Err(timeout_text())),
        }
    }

    /// The loop's result once it is over.
    pub open spec fn verdict(self) -> Option<Result<(), Seq<char>>> {
        match self.phase {
            ProbePhase::Ready => Some(Ok(())),
            ProbePhase::TimedOut => Some(Err(timeout_text())),
            _ => None,
        }
    }

    /// The state after the endpoint has answered with `outcomes`, one per
    /// request and in order, and every pause asked for has elapsed.
    pub open spec fn after_outcomes(outcomes: Seq<ProbeOutcome>) -> ReadinessProber
        decreases outcomes.len(),
    {
        if outcomes.len() == 0 {
            ReadinessProber::initial()
        } else {
            ReadinessProber::after_outcomes(outcomes.drop_last()).next(
                ProbeEvent::Answered(outcomes.last()),
            ).next(ProbeEvent::Slept)
        }
    }

    /// The pauses, in milliseconds, that the loop has asked for by the time
    /// the endpoint has answered with `outcomes`.
    pub open spec fn paused_ms(outcomes: Seq<ProbeOutcome>) -> nat
        decreases outcomes.len(),
    {
        if outcomes.len() == 0 {
            0
        } else {
            let answered = ReadinessProber::after_outcomes(outcomes.drop_last()).next(
                ProbeEvent::Answered(outcomes.last()),
            );
            let pause: nat = if answered.phase == ProbePhase::Sleeping {
                RETRY_DELAY_MS as nat
            } else {
                0
            };
            ReadinessProber::paused_ms(outcomes.drop_last()) + pause
        }
    }

    /// A loop that has made no request yet.
    pub fn new() -> (prober: ReadinessProber)
        ensures
            prober == ReadinessProber::initial(),
            prober.wf(),
    {
        ReadinessProber { attempt: 1, phase: ProbePhase::Requesting }
    }

    /// What the caller is to do now.
    pub fn pending(&self) -> (action: ProbeAction)
        ensures
            action@ == self.action(),
    {
        match self.phase {
            ProbePhase::Requesting => ProbeAction::Request(
                HealthRequest::with_timeout(REQUEST_TIMEOUT_SECS),
            ),
            ProbePhase::Sleeping => ProbeAction::Sleep { millis: RETRY_DELAY_MS },
            ProbePhase::Ready => ProbeAction::Finish(Ok(())),
            ProbePhase::TimedOut => ProbeAction::Finish(Err(timeout_message())),
        }
    }

    /// Takes the result of the pending action and moves on.
    pub fn step(&mut self, event: ProbeEvent)
        ensures
            *final(self) == old(self).next(event),
            old(self).wf() ==> final(self).wf(),
    {
        match self.phase {
            ProbePhase::Requesting => {
                if let ProbeEvent::Answered(outcome) = event {
                    if outcome.is_ready() {
                        self.phase = ProbePhase::Ready;
                    } else {
                        self.phase = ProbePhase::Sleeping;
                    }
                }
            },
            ProbePhase::Sleeping => {
                if let ProbeEvent::Slept = event {
                    if self.attempt < MAX_ATTEMPTS {
                        self.attempt = self.attempt + 1;
                        self.phase = ProbePhase::Requesting;
                    } else {
                        self.phase = ProbePhase::TimedOut;
                    }
                }
            },
            _ => {},
        }
    }
}

/// No request in `outcomes` before the one numbered `count` found the
/// backend ready.
pub open spec fn none_ready_before(outcomes: Seq<ProbeOutcome>, count: int) -> bool {
    forall|i: int| 0 <= i < count && i < outcomes.len() ==> !(#[trigger] outcomes[i]).ready()
}

/// One of the first `count` requests in `outcomes` found the backend ready.
pub open spec fn some_ready_before(outcomes: Seq<ProbeOutcome>, count: int) -> bool {
    exists|i: int| 0 <= i < count && i < outcomes.len() && (#[trigger] outcomes[i]).ready()
}

/// Where the loop stands after the endpoint has answered with `outcomes`.
///
/// It is still requesting while fewer answers than the budget have come and
/// none was a success; it is ready from the first success on, having paused
/// once per failure before it; it has given up when the budget's worth of
/// answers came without a success, having paused once per attempt.
pub proof fn lemma_after_outcomes(outcomes: Seq<ProbeOutcome>)
    ensures
        ({
            let state = ReadinessProber::after_outcomes(outcomes);
            let paused = ReadinessProber::paused_ms(outcomes);
            &&& state.wf()
            &&& state.phase != ProbePhase::Sleeping
            &&& state.phase == ProbePhase::Requesting ==> {
                &&& outcomes.len() < MAX_ATTEMPTS
                &&& state.attempt == outcomes.len() + 1
                &&& none_ready_before(outcomes, outcomes.len() as int)
                &&& paused == RETRY_DELAY_MS * outcomes.len()
            }
            &&& state.phase == ProbePhase::Ready ==> {
                &&& state.attempt <= outcomes.len()
                &&& outcomes[state.attempt - 1].ready()
                &&& none_ready_before(outcomes, state.attempt - 1)
                &&& paused == RETRY_DELAY_MS * (state.attempt - 1)
            }
            &&& state.phase == ProbePhase::TimedOut ==> {
                &&& outcomes.len() >= MAX_ATTEMPTS
                &&& none_ready_before(outcomes, MAX_ATTEMPTS as int)
                &&& paused == RETRY_DELAY_MS * MAX_ATTEMPTS
            }
        }),
    decreases outcomes.len(),
{
    if outcomes.len() > 0 {
        let earlier = outcomes.drop_last();
        lemma_after_outcomes(earlier);
        assert(forall|i: int| 0 <= i < earlier.len() ==> earlier[i] == outcomes[i]);
    }
}

/// If one of the first [`MAX_ATTEMPTS`] requests finds the backend ready, the
/// loop ends ready, after as many requests as it took and one pause for each
/// request before that.
pub proof fn lemma_ready_within_budget(outcomes: Seq<ProbeOutcome>, first: int)
    requires
        0 <= first < outcomes.len(),
        first < MAX_ATTEMPTS,
        outcomes[first].ready(),
        none_ready_before(outcomes, first),
    ensures
        ReadinessProber::after_outcomes(outcomes).verdict() == Some(Ok::<(), Seq<char>>(())),
        ReadinessProber::after_outcomes(outcomes).attempt == first + 1,
        ReadinessProber::paused_ms(outcomes) == RETRY_DELAY_MS * first,
{
    lemma_after_outcomes(outcomes);
    let state = ReadinessProber::after_outcomes(outcomes);
    if state.phase == ProbePhase::Ready && state.attempt - 1 != first {
        if state.attempt - 1 < first {
            assert(!outcomes[state.attempt - 1].ready());
        } else {
            assert(!outcomes[first].ready());
        }
    }
}

/// The same, for a success anywhere within the budget: the loop ends ready.
pub proof fn lemma_some_ready_within_budget(outcomes: Seq<ProbeOutcome>)
    requires
        some_ready_before(outcomes, MAX_ATTEMPTS as int),
    ensures
        ReadinessProber::after_outcomes(outcomes).verdict() == Some(Ok::<(), Seq<char>>(())),
{
    lemma_after_outcomes(outcomes);
    let i = choose|i: int|
        0 <= i < MAX_ATTEMPTS && i < outcomes.len() && (#[trigger] outcomes[i]).ready();
    assert(outcomes[i].ready());
}

/// If none of the first [`MAX_ATTEMPTS`] requests finds the backend ready,
/// the loop gives up with the timeout diagnostic, having paused
/// [`RETRY_DELAY_MS`] after each of them: [`RETRY_BUDGET_SECS`] in all.
pub proof fn lemma_never_ready_times_out(outcomes: Seq<ProbeOutcome>)
    requires
        outcomes.len() >= MAX_ATTEMPTS,
        none_ready_before(outcomes, MAX_ATTEMPTS as int),
    ensures
        ReadinessProber::after_outcomes(outcomes).verdict() == Some(
            Err::<(), Seq<char>>(timeout_text()),
        ),
        ReadinessProber::after_outcomes(outcomes).attempt == MAX_ATTEMPTS,
        ReadinessProber::paused_ms(outcomes) == MAX_ATTEMPTS * RETRY_DELAY_MS,
        ReadinessProber::paused_ms(outcomes) == RETRY_BUDGET_SECS * 1000,
{
    lemma_after_outcomes(outcomes);
    let state = ReadinessProber::after_outcomes(outcomes);
    if state.phase == ProbePhase::Ready {
        assert(!outcomes[state.attempt - 1].ready());
    }
}

/// Once the loop is over, nothing the caller reports changes its result.
pub proof fn lemma_finished_is_final(state: ReadinessProber, event: ProbeEvent)
    requires
        state.finished(),
    ensures
        state.next(event) == state,
{
}

} // verus!

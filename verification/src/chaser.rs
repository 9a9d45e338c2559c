//! The polling state machine.
//!
//! A subscription runs request/sleep cycles: `Starting` emits a single
//! `Started` event and moves to `Polling`; one request attempt then
//! completes with success or failure and moves to `Sleeping` either way; the
//! sleep interval elapses and a fresh cycle begins.  A caller-driven stop —
//! or a fired one-shot launch decision — suspends the subscription, after
//! which nothing is emitted any more, even for a request that was already in
//! flight.  The machine holds no memory across cycles beyond its state and
//! whether the launch already fired for this subscription.
//!
//! Every transition is a pure function of the current state and the cycle's
//! outcome; the methods are proved to implement those functions exactly, and
//! the laws at the end of this module are proved over them.

use vstd::prelude::*;

use crate::aggregate::available_sum;
use crate::aggregate::aggregate;
use crate::aggregate::SelectionCriterion;
use crate::response::Product;
use crate::response::ResponseEnvelope;

verus! {

/// Seconds the machine sleeps between cycles.  A tuning constant, not a
/// correctness requirement; failures retry at the same fixed interval, with
/// no backoff, by design.
pub const POLL_INTERVAL_SECS: u64 = 2;

/// Where the machine stands in its cycle.
#[derive(Clone, Copy, Debug, PartialEq, Eq, Structural)]
pub enum ChaserState {
    /// A subscription was activated but no cycle has begun.
    Starting,
    /// One request attempt is outstanding.
    Polling,
    /// Waiting out the fixed interval before the next attempt.
    Sleeping,
    /// Stopped; nothing is emitted any more.
    Suspended,
}

/// What the machine emits towards the caller.
#[derive(Clone, Debug)]
pub enum ChaserEvent {
    /// The subscription began; no request has been issued yet.
    Started,
    /// One request attempt succeeded: the aggregated available count under
    /// the cycle's criterion, and the raw envelope it was computed from.
    Responded(i128, ResponseEnvelope),
    /// One request attempt failed, in transport or in interpretation; the
    /// cause is carried verbatim.
    Errored(String),
    /// The one-shot launch decision fired for this product kind.
    LaunchRequested(Product),
}

/// The polling engine: its state, and whether the launch decision already
/// fired during the current subscription.
#[derive(Clone, Copy, Debug, PartialEq, Eq, Structural)]
pub struct Chaser {
    pub state: ChaserState,
    pub launched: bool,
}

/// The launch rule: fire exactly when launching is enabled, the aggregated
/// count is positive, and no launch fired yet for this subscription.
pub open spec fn spec_should_launch(already_launched: bool, auto_launch_enabled: bool, aggregated_count: int) -> bool {
    !already_launched && auto_launch_enabled && aggregated_count > 0
}

/// Decide whether to emit the one-shot launch signal.
pub fn should_launch(already_launched: bool, auto_launch_enabled: bool, aggregated_count: i128) -> (r: bool)
    ensures
        r == spec_should_launch(already_launched, auto_launch_enabled, aggregated_count as int),
{
    !already_launched && auto_launch_enabled && aggregated_count > 0
}

/// What activating a fresh subscription yields.
pub open spec fn spec_new_chaser() -> Chaser {
    Chaser { state: ChaserState::Starting, launched: false }
}

/// What beginning a cycle does: from `Starting` the machine moves to
/// `Polling` and emits `Started` once; in any other state nothing happens.
pub open spec fn spec_begin(c: Chaser) -> (Chaser, Seq<ChaserEvent>) {
    if c.state is Starting {
        (Chaser { state: ChaserState::Polling, ..c }, seq![ChaserEvent::Started])
    } else {
        (c, Seq::empty())
    }
}

/// What completing one request attempt does.  Outside `Polling` the result
/// is discarded and nothing is emitted — in particular after a stop.  A
/// failure emits `Errored` and sleeps; a success emits `Responded` with the
/// aggregated count, fires the one-shot launch decision when the rule says
/// so (suspending the subscription at once), and sleeps otherwise.
pub open spec fn spec_interpret(
    c: Chaser,
    outcome: Result<ResponseEnvelope, String>,
    criterion: SelectionCriterion,
    auto_launch_enabled: bool,
) -> (Chaser, Seq<ChaserEvent>) {
    if !(c.state is Polling) {
        (c, Seq::empty())
    } else {
        match outcome {
            Err(cause) => (
                Chaser { state: ChaserState::Sleeping, ..c },
                seq![ChaserEvent::Errored(cause)],
            ),
            Ok(env) => {
                let count = available_sum(env.licenses@, criterion);
                if spec_should_launch(c.launched, auto_launch_enabled, count) {
                    (
                        Chaser { state: ChaserState::Suspended, launched: true },
                        seq![
                            ChaserEvent::Responded(count as i128, env),
                            ChaserEvent::LaunchRequested(criterion.product),
                        ],
                    )
                } else {
                    (
                        Chaser { state: ChaserState::Sleeping, ..c },
                        seq![ChaserEvent::Responded(count as i128, env)],
                    )
                }
            },
        }
    }
}

/// What waking from the sleep interval does: back to `Polling`, emitting
/// nothing; in any other state nothing happens.
pub open spec fn spec_wake(c: Chaser) -> (Chaser, Seq<ChaserEvent>) {
    if c.state is Sleeping {
        (Chaser { state: ChaserState::Polling, ..c }, Seq::empty())
    } else {
        (c, Seq::empty())
    }
}

/// What the caller's stop signal does: suspend, from every state.
pub open spec fn spec_stop(c: Chaser) -> Chaser {
    Chaser { state: ChaserState::Suspended, ..c }
}

impl Chaser {
    /// A fresh subscription, ready to begin its first cycle.
    pub fn new() -> (r: Chaser)
        ensures
            r == spec_new_chaser(),
    {
        Chaser { state: ChaserState::Starting, launched: false }
    }

    /// Activate a new subscription after a suspension: back to `Starting`,
    /// with the one-shot launch decision armed again.
    pub fn restart(&mut self)
        ensures
            *final(self) == spec_new_chaser(),
    {
        self.state = ChaserState::Starting;
        self.launched = false;
    }

    /// Begin a cycle; see [`spec_begin`].
    pub fn begin(&mut self) -> (events: Vec<ChaserEvent>)
        ensures
            (*final(self), events@) == spec_begin(*old(self)),
    {
        let mut events: Vec<ChaserEvent> = Vec::new();
        match self.state {
            ChaserState::Starting => {
                self.state = ChaserState::Polling;
                events.push(ChaserEvent::Started);
                proof {
                    assert(events@ =~= seq![ChaserEvent::Started]);
                }
            },
            _ => {
            },
        }
        events
    }

    /// Complete one request attempt; see [`spec_interpret`].
    pub fn interpret(
        &mut self,
        outcome: Result<ResponseEnvelope, String>,
        criterion: &SelectionCriterion,
        auto_launch_enabled: bool,
    ) -> (events: Vec<ChaserEvent>)
        ensures
            (*final(self), events@) == spec_interpret(
                *old(self),
                outcome,
                *criterion,
                auto_launch_enabled,
            ),
    {
        let mut events: Vec<ChaserEvent> = Vec::new();
        match self.state {
            ChaserState::Polling => {
            },
            _ => {
                return events;
            },
        }
        match outcome {
            Err(cause) => {
                self.state = ChaserState::Sleeping;
                events.push(ChaserEvent::Errored(cause));
                proof {
                    assert(events@ =~= spec_interpret(
                        *old(self),
                        outcome,
                        *criterion,
                        auto_launch_enabled,
                    ).1);
                }
            },
            Ok(env) => {
                let count = aggregate(&env, criterion);
                let fire = should_launch(self.launched, auto_launch_enabled, count);
                events.push(ChaserEvent::Responded(count, env));
                if fire {
                    events.push(ChaserEvent::LaunchRequested(criterion.product));
                    self.launched = true;
                    self.state = ChaserState::Suspended;
                } else {
                    self.state = ChaserState::Sleeping;
                }
                proof {
                    assert(events@ =~= spec_interpret(
                        *old(self),
                        outcome,
                        *criterion,
                        auto_launch_enabled,
                    ).1);
                }
            },
        }
        events
    }

    /// Complete one request attempt from the raw transport result.
    ///
    /// A transport failure completes the cycle with its cause, verbatim.  A
    /// response body is interpreted by
    /// [`crate::envelope::parse_envelope`]: a well-formed body completes
    /// the cycle with exactly the envelope its parse yields, a malformed
    /// one with exactly the parse error's message.  Either way the step is
    /// the [`spec_interpret`] transition on that outcome, pinned over the
    /// body's named parse; only the heap identity of the envelope or
    /// message value — never its contents — is left existential.
    pub fn interpret_response(
        &mut self,
        transport: Result<String, String>,
        criterion: &SelectionCriterion,
        auto_launch_enabled: bool,
    ) -> (events: Vec<ChaserEvent>)
        ensures
            transport is Err ==> (*final(self), events@) == spec_interpret(
                *old(self),
                Err(transport->Err_0),
                *criterion,
                auto_launch_enabled,
            ),
            transport is Ok ==> match crate::envelope::spec_envelope_result(
                crate::envelope::json_of(transport->Ok_0@),
            ) {
                Ok(licenses) => exists|env: ResponseEnvelope|
                    #![trigger spec_interpret(*old(self), Ok(env), *criterion, auto_launch_enabled)]
                    env.licenses@ == licenses && (*final(self), events@) == spec_interpret(
                        *old(self),
                        Ok(env),
                        *criterion,
                        auto_launch_enabled,
                    ),
                Err(e) => exists|cause: String|
                    #![trigger spec_interpret(*old(self), Err(cause), *criterion, auto_launch_enabled)]
                    cause@ == crate::response::spec_message(e) && (*final(self), events@)
                        == spec_interpret(
                        *old(self),
                        Err(cause),
                        *criterion,
                        auto_launch_enabled,
                    ),
            },
    {
        match transport {
            Err(cause) => self.interpret(Err(cause), criterion, auto_launch_enabled),
            Ok(body) => match crate::envelope::parse_envelope(body.as_str()) {
                Ok(env) => {
                    let ghost genv = env;
                    let events = self.interpret(Ok(env), criterion, auto_launch_enabled);
                    proof {
                        assert((*self, events@) == spec_interpret(
                            *old(self),
                            Ok(genv),
                            *criterion,
                            auto_launch_enabled,
                        ));
                    }
                    events
                },
                Err(e) => {
                    let cause = e.message();
                    let ghost gcause = cause;
                    let events = self.interpret(Err(cause), criterion, auto_launch_enabled);
                    proof {
                        assert((*self, events@) == spec_interpret(
                            *old(self),
                            Err(gcause),
                            *criterion,
                            auto_launch_enabled,
                        ));
                    }
                    events
                },
            },
        }
    }

    /// Wake from the sleep interval; see [`spec_wake`].
    pub fn wake(&mut self) -> (events: Vec<ChaserEvent>)
        ensures
            (*final(self), events@) == spec_wake(*old(self)),
    {
        let events: Vec<ChaserEvent> = Vec::new();
        match self.state {
            ChaserState::Sleeping => {
                self.state = ChaserState::Polling;
            },
            _ => {
            },
        }
        events
    }

    /// The caller's stop signal; see [`spec_stop`].  No event acknowledges
    /// the suspension, and none follows it.
    pub fn stop(&mut self)
        ensures
            *final(self) == spec_stop(*old(self)),
    {
        self.state = ChaserState::Suspended;
    }
}

/// After a stop, no step emits anything any more: a result that arrives for
/// an in-flight request is discarded, and beginning or waking a suspended
/// subscription does nothing.
pub proof fn lemma_no_events_after_stop(
    c: Chaser,
    outcome: Result<ResponseEnvelope, String>,
    criterion: SelectionCriterion,
    auto_launch_enabled: bool,
)
    ensures
        spec_interpret(spec_stop(c), outcome, criterion, auto_launch_enabled) == (
            spec_stop(c),
            Seq::<ChaserEvent>::empty(),
        ),
        spec_begin(spec_stop(c)) == (spec_stop(c), Seq::<ChaserEvent>::empty()),
        spec_wake(spec_stop(c)) == (spec_stop(c), Seq::<ChaserEvent>::empty()),
{
}

/// With launching disabled, no step ever emits a launch request, whatever
/// the aggregated count.
pub proof fn lemma_no_launch_when_disabled(
    c: Chaser,
    outcome: Result<ResponseEnvelope, String>,
    criterion: SelectionCriterion,
)
    ensures
        ({
            let events = spec_interpret(c, outcome, criterion, false).1;
            forall|i: int| 0 <= i < events.len() ==> !(#[trigger] events[i] is LaunchRequested)
        }),
{
}

/// The launch decision is one-shot per subscription: once it fired, no
/// later step fires it again, and the moment it fires the subscription is
/// suspended with the decision disarmed.
pub proof fn lemma_launch_one_shot(
    c: Chaser,
    outcome: Result<ResponseEnvelope, String>,
    criterion: SelectionCriterion,
    auto_launch_enabled: bool,
)
    ensures
        ({
            let (d, events) = spec_interpret(c, outcome, criterion, auto_launch_enabled);
            &&& c.launched ==> forall|i: int|
                0 <= i < events.len() ==> !(#[trigger] events[i] is LaunchRequested)
            &&& c.launched ==> d.launched
            &&& (exists|i: int| 0 <= i < events.len() && #[trigger] events[i] is LaunchRequested)
                ==> d.state is Suspended && d.launched
        }),
{
}

/// Three consecutive cycles whose attempts succeed, fail and succeed — none
/// of them firing the launch rule — emit exactly `Started`, `Responded`,
/// `Errored`, `Responded`, in that order; the sleep waits in between emit
/// nothing of their own.
pub proof fn lemma_three_cycle_event_order(
    env1: ResponseEnvelope,
    cause: String,
    env2: ResponseEnvelope,
    criterion: SelectionCriterion,
    auto_launch_enabled: bool,
)
    requires
        !spec_should_launch(false, auto_launch_enabled, available_sum(env1.licenses@, criterion)),
        !spec_should_launch(false, auto_launch_enabled, available_sum(env2.licenses@, criterion)),
    ensures
        ({
            let (c1, e1) = spec_begin(spec_new_chaser());
            let (c2, e2) = spec_interpret(c1, Ok(env1), criterion, auto_launch_enabled);
            let (c3, e3) = spec_wake(c2);
            let (c4, e4) = spec_interpret(c3, Err(cause), criterion, auto_launch_enabled);
            let (c5, e5) = spec_wake(c4);
            let (c6, e6) = spec_interpret(c5, Ok(env2), criterion, auto_launch_enabled);
            let all = e1 + e2 + e3 + e4 + e5 + e6;
            &&& e3.len() == 0
            &&& e5.len() == 0
            &&& all.len() == 4
            &&& all[0] is Started
            &&& all[1] is Responded
            &&& all[2] is Errored
            &&& all[3] is Responded
        }),
{
}

/// With launching enabled and aggregated counts `0, 0, positive, …` over
/// consecutive cycles, the launch request fires exactly once, on the third
/// cycle, and the subscription is suspended at once: the fourth cycle never
/// runs, so its count is never observed.
pub proof fn lemma_launch_fires_exactly_once(
    env1: ResponseEnvelope,
    env2: ResponseEnvelope,
    env3: ResponseEnvelope,
    env4: ResponseEnvelope,
    criterion: SelectionCriterion,
)
    requires
        available_sum(env1.licenses@, criterion) == 0,
        available_sum(env2.licenses@, criterion) == 0,
        available_sum(env3.licenses@, criterion) > 0,
    ensures
        ({
            let (c1, e1) = spec_begin(spec_new_chaser());
            let (c2, e2) = spec_interpret(c1, Ok(env1), criterion, true);
            let (c3, e3) = spec_wake(c2);
            let (c4, e4) = spec_interpret(c3, Ok(env2), criterion, true);
            let (c5, e5) = spec_wake(c4);
            let (c6, e6) = spec_interpret(c5, Ok(env3), criterion, true);
            &&& forall|i: int| 0 <= i < e2.len() ==> !(#[trigger] e2[i] is LaunchRequested)
            &&& forall|i: int| 0 <= i < e4.len() ==> !(#[trigger] e4[i] is LaunchRequested)
            &&& e6.len() == 2
            &&& e6[1] == ChaserEvent::LaunchRequested(criterion.product)
            &&& c6.state is Suspended
            &&& spec_wake(c6) == (c6, Seq::<ChaserEvent>::empty())
            &&& spec_interpret(c6, Ok(env4), criterion, true) == (
                c6,
                Seq::<ChaserEvent>::empty(),
            )
        }),
{
}

} // verus!

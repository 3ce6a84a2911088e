use vstd::prelude::*;

verus! {

/// The phase of a circuit breaker. Times are milliseconds on a monotonic clock.
#[derive(Debug, Clone, Copy, PartialEq, Eq, Structural)]
pub enum CircuitBreakerState {
    Closed,
    Open { opened_at: u64 },
    HalfOpen,
}

/// Tuning of a circuit breaker; `recovery_timeout_ms` is in milliseconds.
#[derive(Debug, Clone, Copy, PartialEq, Eq, Structural)]
pub struct CircuitBreakerConfig {
    pub failure_threshold: u32,
    pub recovery_timeout_ms: u64,
    pub half_open_max_calls: u32,
}

impl Default for CircuitBreakerConfig {
    fn default() -> (r: Self)
        ensures
            r.failure_threshold == 5,
            r.recovery_timeout_ms == 30_000,
            r.half_open_max_calls == 2,
    {
        CircuitBreakerConfig { failure_threshold: 5, recovery_timeout_ms: 30_000, half_open_max_calls: 2 }
    }
}

/// One input to the breaker: a request for a permit, or a recorded outcome.
#[derive(Debug, Clone, Copy, PartialEq, Eq, Structural)]
pub enum BreakerEvent {
    Permit { now: u64 },
    Success,
    Failure { now: u64 },
}

/// The abstract state of a breaker: phase, counters and configuration.
#[derive(Debug)]
pub struct BreakerModel {
    pub phase: CircuitBreakerState,
    pub failure_count: u32,
    pub half_open_inflight: u32,
    pub half_open_successes: u32,
    pub config: CircuitBreakerConfig,
}

pub open spec fn saturating_inc(x: u32) -> u32 {
    if x == u32::MAX { x } else { (x + 1) as u32 }
}

impl BreakerModel {
    /// A breaker in the given configuration, closed, with every counter at zero.
    pub open spec fn initial(config: CircuitBreakerConfig) -> BreakerModel {
        BreakerModel {
            phase: CircuitBreakerState::Closed,
            failure_count: 0,
            half_open_inflight: 0,
            half_open_successes: 0,
            config,
        }
    }

    /// Counters are zero except where the phase gives them meaning, and the
    /// half-open budget is never exceeded.
    pub open spec fn wf(self) -> bool {
        match self.phase {
            CircuitBreakerState::Closed => {
                &&& self.half_open_inflight == 0
                &&& self.half_open_successes == 0
                &&& (self.failure_count == 0 || self.failure_count < self.config.failure_threshold)
            },
            CircuitBreakerState::Open { .. } => {
                &&& self.half_open_inflight == 0
                &&& self.half_open_successes == 0
            },
            CircuitBreakerState::HalfOpen => {
                &&& (self.half_open_inflight <= self.config.half_open_max_calls
                    || self.half_open_inflight == 1)
                &&& (self.half_open_successes < self.config.half_open_max_calls
                    || self.half_open_successes == 0)
            },
        }
    }

    /// The recovery timeout has elapsed for a breaker opened at `opened_at`.
    pub open spec fn recovered(self, opened_at: u64, now: u64) -> bool {
        now as int >= opened_at as int + self.config.recovery_timeout_ms as int
    }

    /// The state after a permit request at time `now`.
    pub open spec fn after_permit(self, now: u64) -> BreakerModel {
        match self.phase {
            CircuitBreakerState::Closed => self,
            CircuitBreakerState::Open { opened_at } => if self.recovered(opened_at, now) {
                BreakerModel {
                    phase: CircuitBreakerState::HalfOpen,
                    half_open_inflight: 1,
                    half_open_successes: 0,
                    ..self
                }
            } else {
                self
            },
            CircuitBreakerState::HalfOpen => if self.half_open_inflight
                >= self.config.half_open_max_calls {
                self
            } else {
                BreakerModel { half_open_inflight: (self.half_open_inflight + 1) as u32, ..self }
            },
        }
    }

    /// Whether a permit request at time `now` is granted.
    pub open spec fn permits(self, now: u64) -> bool {
        match self.phase {
            CircuitBreakerState::Closed => true,
            CircuitBreakerState::Open { opened_at } => self.recovered(opened_at, now),
            CircuitBreakerState::HalfOpen => self.half_open_inflight
                < self.config.half_open_max_calls,
        }
    }

    pub open spec fn closed(self) -> BreakerModel {
        BreakerModel {
            phase: CircuitBreakerState::Closed,
            failure_count: 0,
            half_open_inflight: 0,
            half_open_successes: 0,
            ..self
        }
    }

    /// The state after a successful call is recorded.
    pub open spec fn after_success(self) -> BreakerModel {
        match self.phase {
            CircuitBreakerState::HalfOpen => {
                let s = saturating_inc(self.half_open_successes);
                if s >= self.config.half_open_max_calls {
                    self.closed()
                } else {
                    BreakerModel { half_open_successes: s, ..self }
                }
            },
            _ => self.closed(),
        }
    }

    /// The state after a failed call, completed at time `now`, is recorded.
    pub open spec fn after_failure(self, now: u64) -> BreakerModel {
        match self.phase {
            CircuitBreakerState::HalfOpen => BreakerModel {
                phase: CircuitBreakerState::Open { opened_at: now },
                half_open_inflight: 0,
                half_open_successes: 0,
                ..self
            },
            _ => {
                let f = saturating_inc(self.failure_count);
                if f >= self.config.failure_threshold {
                    BreakerModel {
                        phase: CircuitBreakerState::Open { opened_at: now },
                        failure_count: f,
                        ..self
                    }
                } else {
                    BreakerModel { failure_count: f, ..self }
                }
            },
        }
    }

    /// The state after one event.
    pub open spec fn step(self, e: BreakerEvent) -> BreakerModel {
        match e {
            BreakerEvent::Permit { now } => self.after_permit(now),
            BreakerEvent::Success => self.after_success(),
            BreakerEvent::Failure { now } => self.after_failure(now),
        }
    }

    /// The state after a sequence of events, applied in order.
    pub open spec fn replay(self, events: Seq<BreakerEvent>) -> BreakerModel
        decreases events.len(),
    {
        if events.len() == 0 {
            self
        } else {
            self.step(events[0]).replay(events.drop_first())
        }
    }
}

/// The edges of the breaker's state machine: which phase may follow which,
/// under which event.
pub open spec fn transition_allowed(
    before: CircuitBreakerState,
    after: CircuitBreakerState,
    e: BreakerEvent,
) -> bool {
    match (before, e) {
        (CircuitBreakerState::Closed, BreakerEvent::Permit { .. }) => after
            == CircuitBreakerState::Closed,
        (CircuitBreakerState::Closed, BreakerEvent::Success) => after
            == CircuitBreakerState::Closed,
        (CircuitBreakerState::Closed, BreakerEvent::Failure { now }) => after
            == CircuitBreakerState::Closed || after == (CircuitBreakerState::Open { opened_at: now }),
        (CircuitBreakerState::Open { .. }, BreakerEvent::Permit { .. }) => after == before
            || after == CircuitBreakerState::HalfOpen,
        (CircuitBreakerState::Open { .. }, BreakerEvent::Success) => after
            == CircuitBreakerState::Closed,
        (CircuitBreakerState::Open { .. }, BreakerEvent::Failure { now }) => after == before
            || after == (CircuitBreakerState::Open { opened_at: now }),
        (CircuitBreakerState::HalfOpen, BreakerEvent::Permit { .. }) => after
            == CircuitBreakerState::HalfOpen,
        (CircuitBreakerState::HalfOpen, BreakerEvent::Success) => after
            == CircuitBreakerState::HalfOpen || after == CircuitBreakerState::Closed,
        (CircuitBreakerState::HalfOpen, BreakerEvent::Failure { now }) => after
            == (CircuitBreakerState::Open { opened_at: now }),
    }
}

/// Every event takes a well-formed breaker to a well-formed breaker, along
/// an edge of the state machine.
pub proof fn lemma_step_wf(m: BreakerModel, e: BreakerEvent)
    requires
        m.wf(),
    ensures
        m.step(e).wf(),
        transition_allowed(m.phase, m.step(e).phase, e),
{
}

/// Every step of a replay follows an edge of the state machine.
pub open spec fn follows_edges(m: BreakerModel, events: Seq<BreakerEvent>) -> bool
    decreases events.len(),
{
    events.len() == 0 || {
        &&& transition_allowed(m.phase, m.step(events[0]).phase, events[0])
        &&& follows_edges(m.step(events[0]), events.drop_first())
    }
}

/// For every configuration and every sequence of outcomes and permit
/// requests, replay from a fresh breaker moves only along the edges of the
/// state machine and ends in a well-formed state.
pub proof fn lemma_replay_wf(config: CircuitBreakerConfig, events: Seq<BreakerEvent>)
    ensures
        BreakerModel::initial(config).replay(events).wf(),
        follows_edges(BreakerModel::initial(config), events),
{
    lemma_replay_from_wf(BreakerModel::initial(config), events);
}

/// Replay from any well-formed state stays well-formed and follows the edges
/// of the state machine.
pub proof fn lemma_replay_from_wf(m: BreakerModel, events: Seq<BreakerEvent>)
    requires
        m.wf(),
    ensures
        m.replay(events).wf(),
        follows_edges(m, events),
    decreases events.len(),
{
    if events.len() > 0 {
        lemma_step_wf(m, events[0]);
        lemma_replay_from_wf(m.step(events[0]), events.drop_first());
    }
}

/// A closed breaker with threshold `F` opens exactly at the `F`-th
/// consecutive failure, and grants no permit before the recovery timeout.
pub proof fn lemma_failures_open(config: CircuitBreakerConfig, t: u64)
    requires
        config.failure_threshold >= 1,
    ensures
        ({
            let m = BreakerModel::initial(config).failures(config.failure_threshold as nat, t);
            &&& m.phase == (CircuitBreakerState::Open { opened_at: t })
            &&& !m.permits(t)
                || config.recovery_timeout_ms == 0
        }),
{
    lemma_failures_count(config, config.failure_threshold as nat, t);
}

impl BreakerModel {
    /// `n` consecutive failures, all at time `t`.
    pub open spec fn failures(self, n: nat, t: u64) -> BreakerModel
        decreases n,
    {
        if n == 0 {
            self
        } else {
            self.failures((n - 1) as nat, t).after_failure(t)
        }
    }
}

proof fn lemma_failures_count(config: CircuitBreakerConfig, n: nat, t: u64)
    requires
        1 <= n <= config.failure_threshold,
    ensures
        ({
            let m = BreakerModel::initial(config).failures(n, t);
            &&& m.failure_count == n
            &&& m.half_open_inflight == 0
            &&& m.half_open_successes == 0
            &&& m.config == config
            &&& (n < config.failure_threshold ==> m.phase == CircuitBreakerState::Closed)
            &&& (n == config.failure_threshold ==> m.phase == (CircuitBreakerState::Open {
                opened_at: t,
            }))
        }),
    decreases n,
{
    let m0 = BreakerModel::initial(config);
    if n > 1 {
        lemma_failures_count(config, (n - 1) as nat, t);
    } else {
        assert(m0.failures(0, t) == m0);
    }
    assert(m0.failures(n, t) == m0.failures((n - 1) as nat, t).after_failure(t));
}

/// The events one guarded call feeds the breaker, at time `now`: a permit
/// request, then, when it was granted, the recorded outcome.
pub open spec fn call_events(now: u64, permitted: bool, succeeded: bool) -> Seq<BreakerEvent> {
    if !permitted {
        seq![BreakerEvent::Permit { now }]
    } else if succeeded {
        seq![BreakerEvent::Permit { now }, BreakerEvent::Success]
    } else {
        seq![BreakerEvent::Permit { now }, BreakerEvent::Failure { now }]
    }
}

/// The events of a sequence of guarded calls, each given as its time,
/// whether it was permitted and whether it succeeded.
pub open spec fn calls_events(calls: Seq<(u64, bool, bool)>) -> Seq<BreakerEvent>
    decreases calls.len(),
{
    if calls.len() == 0 {
        Seq::empty()
    } else {
        calls_events(calls.drop_last()) + call_events(
            calls.last().0,
            calls.last().1,
            calls.last().2,
        )
    }
}

impl BreakerModel {
    /// The state after a sequence of guarded calls, one call at a time.
    pub open spec fn after_calls(self, calls: Seq<(u64, bool, bool)>) -> BreakerModel
        decreases calls.len(),
    {
        if calls.len() == 0 {
            self
        } else {
            self.after_calls(calls.drop_last()).replay(
                call_events(calls.last().0, calls.last().1, calls.last().2),
            )
        }
    }
}

/// The replay of one guarded call is its permit request followed, when the
/// permit was granted, by its outcome.
pub proof fn lemma_call_events_replay(m: BreakerModel, now: u64, permitted: bool, succeeded: bool)
    ensures
        m.replay(call_events(now, permitted, succeeded)) == if !permitted {
            m.after_permit(now)
        } else if succeeded {
            m.after_permit(now).after_success()
        } else {
            m.after_permit(now).after_failure(now)
        },
{
    let p = BreakerEvent::Permit { now };
    let empty = Seq::<BreakerEvent>::empty();
    if !permitted {
        let es = seq![p];
        assert(es[0] == p);
        assert(es.drop_first() =~= empty);
        assert(m.replay(es) == m.step(p).replay(es.drop_first()));
        assert(m.step(p).replay(empty) == m.step(p));
    } else {
        let o = if succeeded { BreakerEvent::Success } else { BreakerEvent::Failure { now } };
        let es = seq![p, o];
        let rest = seq![o];
        assert(call_events(now, permitted, succeeded) == es);
        assert(es[0] == p);
        assert(rest[0] == o);
        assert(es.drop_first() =~= rest);
        assert(rest.drop_first() =~= empty);
        assert(m.replay(es) == m.step(p).replay(rest));
        assert(m.step(p).replay(rest) == m.step(p).step(o).replay(rest.drop_first()));
        assert(m.step(p).step(o).replay(empty) == m.step(p).step(o));
    }
}

/// A failure recorded by a closed, well-formed breaker raises its failure
/// count by one and opens it exactly when the count reaches the threshold;
/// the half-open counters stay at zero.
pub proof fn lemma_closed_failure_increments(m: BreakerModel, now: u64)
    requires
        m.wf(),
        m.phase == CircuitBreakerState::Closed,
    ensures
        m.after_failure(now).failure_count == m.failure_count + 1,
        m.after_failure(now).failure_count >= m.config.failure_threshold ==> m.after_failure(now).phase
            == (CircuitBreakerState::Open { opened_at: now }),
        m.after_failure(now).failure_count < m.config.failure_threshold ==> m.after_failure(now).phase
            == CircuitBreakerState::Closed,
        m.after_failure(now).half_open_inflight == 0,
        m.after_failure(now).half_open_successes == 0,
{
}

/// Replaying two sequences one after the other is replaying their
/// concatenation.
pub proof fn lemma_replay_append(m: BreakerModel, a: Seq<BreakerEvent>, b: Seq<BreakerEvent>)
    ensures
        m.replay(a + b) == m.replay(a).replay(b),
    decreases a.len(),
{
    if a.len() == 0 {
        assert(a + b =~= b);
    } else {
        assert((a + b)[0] == a[0]);
        assert((a + b).drop_first() =~= a.drop_first() + b);
        lemma_replay_append(m.step(a[0]), a.drop_first(), b);
    }
}

/// The breaker after any sequence of guarded calls is exactly the state that
/// replaying their permit requests and outcomes, in order, through the state
/// machine reaches.
pub proof fn lemma_calls_replay(m: BreakerModel, calls: Seq<(u64, bool, bool)>)
    ensures
        m.after_calls(calls) == m.replay(calls_events(calls)),
    decreases calls.len(),
{
    if calls.len() > 0 {
        let c = calls.last();
        lemma_calls_replay(m, calls.drop_last());
        lemma_replay_append(m, calls_events(calls.drop_last()), call_events(c.0, c.1, c.2));
    }
}

/// What `CircuitBreaker::call` returns when it does not hand back the
/// closure's own result.
#[derive(Debug)]
pub enum BreakerCallError<E> {
    /// The breaker refused the call; the closure was not run.
    Rejected,
    /// The closure ran and failed.
    Failed(E),
}

/// A circuit breaker guarding one upstream.
#[derive(Debug, Clone, Copy)]
pub struct CircuitBreaker {
    state: CircuitBreakerState,
    failure_count: u32,
    half_open_request: u32,
    success_half_open_request: u32,
    config: CircuitBreakerConfig,
}

impl View for CircuitBreaker {
    type V = BreakerModel;

    closed spec fn view(&self) -> BreakerModel {
        BreakerModel {
            phase: self.state,
            failure_count: self.failure_count,
            half_open_inflight: self.half_open_request,
            half_open_successes: self.success_half_open_request,
            config: self.config,
        }
    }
}

impl CircuitBreaker {
    /// A closed breaker with every counter at zero.
    pub fn new(config: CircuitBreakerConfig) -> (r: Self)
        ensures
            r@ == BreakerModel::initial(config),
            r@.wf(),
    {
        CircuitBreaker {
            state: CircuitBreakerState::Closed,
            failure_count: 0,
            half_open_request: 0,
            success_half_open_request: 0,
            config,
        }
    }

    pub fn config(&self) -> (r: CircuitBreakerConfig)
        ensures
            r == self@.config,
    {
        self.config
    }

    pub fn state(&self) -> (r: CircuitBreakerState)
        ensures
            r == self@.phase,
    {
        self.state
    }

    pub fn failure_count(&self) -> (r: u32)
        ensures
            r == self@.failure_count,
    {
        self.failure_count
    }

    /// Asks for a permit at time `now` (milliseconds); moves an open breaker
    /// whose timeout has elapsed to half-open, counting this call as the
    /// first half-open call.
    pub fn is_allowed(&mut self, now: u64) -> (r: bool)
        ensures
            r == old(self)@.permits(now),
            final(self)@ == old(self)@.after_permit(now),
            old(self)@.wf() ==> final(self)@.wf(),
    {
        proof {
            if self@.wf() {
                lemma_step_wf(self@, BreakerEvent::Permit { now });
            }
        }
        match self.state {
            CircuitBreakerState::Closed => true,
            CircuitBreakerState::Open { opened_at } => {
                if now >= opened_at && now - opened_at >= self.config.recovery_timeout_ms {
                    self.state = CircuitBreakerState::HalfOpen;
                    self.half_open_request = 1;
                    self.success_half_open_request = 0;
                    true
                } else {
                    false
                }
            },
            CircuitBreakerState::HalfOpen => {
                if self.half_open_request >= self.config.half_open_max_calls {
                    false
                } else {
                    self.half_open_request = self.half_open_request + 1;
                    true
                }
            },
        }
    }

    fn close_internal(&mut self)
        ensures
            final(self)@ == old(self)@.closed(),
    {
        self.state = CircuitBreakerState::Closed;
        self.half_open_request = 0;
        self.success_half_open_request = 0;
        self.failure_count = 0;
    }

    /// Records a successful call.
    pub fn record_success(&mut self)
        ensures
            final(self)@ == old(self)@.after_success(),
            old(self)@.wf() ==> final(self)@.wf(),
    {
        proof {
            if self@.wf() {
                lemma_step_wf(self@, BreakerEvent::Success);
            }
        }
        match self.state {
            CircuitBreakerState::HalfOpen => {
                self.success_half_open_request = self.success_half_open_request.saturating_add(1);
                if self.success_half_open_request >= self.config.half_open_max_calls {
                    self.close_internal();
                }
            },
            _ => {
                self.close_internal();
            },
        }
    }

    /// Records a failed call that completed at time `now` (milliseconds).
    pub fn record_failure(&mut self, now: u64)
        ensures
            final(self)@ == old(self)@.after_failure(now),
            old(self)@.wf() ==> final(self)@.wf(),
    {
        proof {
            if self@.wf() {
                lemma_step_wf(self@, BreakerEvent::Failure { now });
            }
        }
        match self.state {
            CircuitBreakerState::HalfOpen => {
                self.state = CircuitBreakerState::Open { opened_at: now };
                self.half_open_request = 0;
                self.success_half_open_request = 0;
            },
            _ => {
                self.failure_count = self.failure_count.saturating_add(1);
                if self.failure_count >= self.config.failure_threshold {
                    self.state = CircuitBreakerState::Open { opened_at: now };
                }
            },
        }
    }

    /// Applies one event; returns whether a permit was granted (always
    /// `false` for a recorded outcome).
    pub fn apply(&mut self, e: BreakerEvent) -> (r: bool)
        ensures
            final(self)@ == old(self)@.step(e),
            r == (e matches BreakerEvent::Permit { now } && old(self)@.permits(now)),
    {
        match e {
            BreakerEvent::Permit { now } => self.is_allowed(now),
            BreakerEvent::Success => {
                self.record_success();
                false
            },
            BreakerEvent::Failure { now } => {
                self.record_failure(now);
                false
            },
        }
    }

    /// Applies a sequence of events in order.
    pub fn replay(&mut self, events: &Vec<BreakerEvent>)
        ensures
            final(self)@ == old(self)@.replay(events@),
    {
        let ghost start = self@;
        let mut i: usize = 0;
        assert(events@.subrange(0, events@.len() as int) =~= events@);
        while i < events.len()
            invariant
                0 <= i <= events@.len(),
                start.replay(events@) == self@.replay(events@.subrange(i as int, events@.len() as int)),
            decreases events@.len() - i,
        {
            let ghost rest = events@.subrange(i as int, events@.len() as int);
            assert(rest.drop_first() =~= events@.subrange(i + 1, events@.len() as int));
            self.apply(events[i]);
            i = i + 1;
        }
        assert(events@.subrange(events@.len() as int, events@.len() as int) =~= Seq::<
            BreakerEvent,
        >::empty());
        assert(events@.subrange(0, events@.len() as int) =~= events@);
    }

    /// Runs `f` under the breaker at time `now` (milliseconds): without a
    /// permit, `f` is not run and the call is rejected; otherwise the outcome
    /// of `f` is recorded and returned.
    pub fn call<T, E, F: FnOnce() -> Result<T, E>>(&mut self, now: u64, f: F) -> (r: Result<
        T,
        BreakerCallError<E>,
    >)
        requires
            f.requires(()),
        ensures
            final(self)@ == old(self)@.replay(call_events(now, old(self)@.permits(now), r is Ok)),
            !old(self)@.permits(now) ==> r is Err && r->Err_0 is Rejected && final(self)@
                == old(self)@.after_permit(now),
            old(self)@.permits(now) ==> match r {
                Ok(v) => f.ensures((), Ok(v)) && final(self)@ == old(self)@.after_permit(
                    now,
                ).after_success(),
                Err(BreakerCallError::Failed(e)) => f.ensures((), Err(e)) && final(self)@
                    == old(self)@.after_permit(now).after_failure(now),
                Err(BreakerCallError::Rejected) => false,
            },
    {
        let ghost m = self@;
        if !self.is_allowed(now) {
            proof {
                lemma_call_events_replay(m, now, false, false);
            }
            return Err(BreakerCallError::Rejected);
        }
        let result = f();
        match result {
            Ok(v) => {
                self.record_success();
                proof {
                    lemma_call_events_replay(m, now, true, true);
                }
                Ok(v)
            },
            Err(e) => {
                self.record_failure(now);
                proof {
                    lemma_call_events_replay(m, now, true, false);
                }
                Err(BreakerCallError::Failed(e))
            },
        }
    }
}

} // verus!

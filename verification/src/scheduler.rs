//! The refresh scheduler: what to fetch next, when to rest and when to give
//! up.
//!
//! The scheduler is a state machine. Its owner performs each action that the
//! scheduler hands out (a fetch, a rest) and reports back what came of it; the
//! scheduler records the outcome, stores a fetched snapshot in the cache and
//! says what to do next.
use crate::cache::{stored, SnapshotCache};
use crate::date::Date;
use crate::fetch::GegenDataError;
use crate::requests::RequestQueue;
use crate::types::{LiveScoresResponse, Match};
use vstd::prelude::*;

verus! {

/// Live scores are fetched again once more than this many milliseconds have
/// passed since they were fetched last.
pub const FETCH_DELAY_MS: u64 = 4000;

/// The length of a rest between two looks at the queue and the clock, in
/// milliseconds.
pub const SLEEP_MS: u64 = 100;

/// The number of fetches failing in a row at which the scheduler gives up.
pub const FAILURE_LIMIT: u32 = 3;

/// Which data a fetch asks for.
#[derive(Debug, Clone, Copy, PartialEq, Eq, Structural)]
pub enum DataToFetch {
    /// The live scores of the current day.
    Live,
    /// The fixtures of a given date.
    Fixtures,
}

/// One fetch, and the date under which its snapshot is stored.
#[derive(Debug, Clone, Copy, PartialEq, Eq, Structural)]
pub struct FetchJob {
    pub data: DataToFetch,
    pub date: Date,
}

/// What the owner of the scheduler is to do next.
#[derive(Debug, Clone, Copy, PartialEq, Eq, Structural)]
pub enum Action {
    /// Fetch, and report the outcome.
    Fetch(FetchJob),
    /// Rest for this many milliseconds, and report back.
    Sleep(u64),
    /// Nothing more: the scheduler has given up.
    Stop,
}

/// What the scheduler is waiting for.
#[derive(Debug, Clone, Copy, PartialEq, Eq, Structural)]
pub enum Stage {
    /// The outcome of the first fetch of live scores.
    Prefetching,
    /// The outcome of this fetch.
    Fetching(FetchJob),
    /// The end of a rest.
    Sleeping,
    /// Nothing: it has given up.
    Stopped,
}

/// What the owner reports to the scheduler.
#[derive(Debug, PartialEq, Eq)]
pub enum SchedulerEvent {
    /// The fetch that was handed out has ended, with a snapshot or an error.
    Fetched(Result<LiveScoresResponse, GegenDataError>),
    /// The rest is over.
    Woke,
}

/// An event without what it carries.
#[derive(Debug, Clone, Copy, PartialEq, Eq, Structural)]
pub enum Signal {
    FetchedOk,
    FetchedErr,
    Woke,
}

/// The signal of an event.
pub open spec fn signal_of(event: SchedulerEvent) -> Signal {
    match event {
        SchedulerEvent::Fetched(Ok(_)) => Signal::FetchedOk,
        SchedulerEvent::Fetched(Err(_)) => Signal::FetchedErr,
        SchedulerEvent::Woke => Signal::Woke,
    }
}

/// The state of the scheduler.
///
/// `current_date` is the day whose live scores it keeps fresh.
/// `failure_count` counts the fetches that have failed since the last one
/// that succeeded. `last_live_fetch` is the clock, in milliseconds, at the
/// last fetch of live scores.
#[derive(Debug, Clone, Copy, PartialEq, Eq, Structural)]
pub struct Scheduler {
    pub current_date: Date,
    pub failure_count: u32,
    pub last_live_fetch: u64,
    pub stage: Stage,
}

impl Scheduler {
    /// A scheduler is well formed when it has given up exactly if its count
    /// of failures stands at the limit, which the count never passes.
    pub open spec fn wf(self) -> bool {
        &&& self.failure_count <= FAILURE_LIMIT
        &&& self.stage is Stopped <==> self.failure_count == FAILURE_LIMIT
    }

    /// This scheduler at another stage.
    pub open spec fn at(self, stage: Stage) -> Scheduler {
        Scheduler {
            current_date: self.current_date,
            failure_count: self.failure_count,
            last_live_fetch: self.last_live_fetch,
            stage,
        }
    }

    /// The fetch of the live scores of the current day.
    pub open spec fn live_job(self) -> FetchJob {
        FetchJob { data: DataToFetch::Live, date: self.current_date }
    }

    /// The fetch whose outcome the scheduler is waiting for, if any.
    pub open spec fn job_out(self) -> Option<FetchJob> {
        match self.stage {
            Stage::Prefetching => Some(self.live_job()),
            Stage::Fetching(job) => Some(job),
            _ => None,
        }
    }

    /// Whether the live scores are due at the time `now`: more than the delay
    /// has passed since they were fetched last. A clock that has gone back
    /// makes nothing due.
    pub open spec fn live_due(self, now: u64) -> bool {
        now > self.last_live_fetch && now - self.last_live_fetch > FETCH_DELAY_MS
    }

    /// The count of failures after one more outcome: zero after a success,
    /// one more after a failure.
    pub open spec fn count_after(self, ok: bool) -> int {
        if ok {
            0
        } else {
            self.failure_count + 1
        }
    }

    /// This scheduler with one more outcome counted.
    pub open spec fn recorded(self, ok: bool) -> Scheduler {
        Scheduler {
            current_date: self.current_date,
            failure_count: self.count_after(ok) as u32,
            last_live_fetch: self.last_live_fetch,
            stage: self.stage,
        }
    }

    /// This scheduler with the clock of the last live fetch set to `now`.
    pub open spec fn refreshed(self, now: u64) -> Scheduler {
        Scheduler {
            current_date: self.current_date,
            failure_count: self.failure_count,
            last_live_fetch: now,
            stage: self.stage,
        }
    }

    /// Going to rest.
    pub open spec fn rest(self) -> (Scheduler, Action) {
        (self.at(Stage::Sleeping), Action::Sleep(SLEEP_MS))
    }

    /// Giving up.
    pub open spec fn give_up(self) -> (Scheduler, Action) {
        (self.at(Stage::Stopped), Action::Stop)
    }

    /// Looking at the clock: fetch the live scores where they are due, else
    /// rest.
    pub open spec fn check_timer(self, now: u64) -> (Scheduler, Action) {
        if self.live_due(now) {
            (self.at(Stage::Fetching(self.live_job())), Action::Fetch(self.live_job()))
        } else {
            self.rest()
        }
    }

    /// Looking at the queue: fetch the fixtures of the requested date where
    /// there is one, else look at the clock.
    pub open spec fn serve(self, request: Option<Date>, now: u64) -> (Scheduler, Action) {
        match request {
            Some(date) => {
                let job = FetchJob { data: DataToFetch::Fixtures, date };
                (self.at(Stage::Fetching(job)), Action::Fetch(job))
            },
            None => self.check_timer(now),
        }
    }

    /// What follows the outcome of the fetch `job`, once it is counted: the
    /// end where the count has reached the limit; after the first fetch a
    /// look at the queue; after fixtures a look at the clock; after live
    /// scores, which set the clock of the last live fetch, a rest.
    pub open spec fn after_outcome(self, first: bool, job: FetchJob, ok: bool, request: Option<Date>, now: u64) -> (
        Scheduler,
        Action,
    ) {
        let counted = self.recorded(ok);
        if counted.failure_count >= FAILURE_LIMIT {
            counted.give_up()
        } else if first {
            counted.serve(request, now)
        } else {
            match job.data {
                DataToFetch::Fixtures => counted.check_timer(now),
                DataToFetch::Live => counted.refreshed(now).rest(),
            }
        }
    }

    /// The next state and the action to take, when `signal` arrives at the
    /// time `now` and `request` is what the queue holds next.
    ///
    /// A signal that the stage is not waiting for changes nothing and has the
    /// pending action handed out again.
    pub open spec fn next(self, signal: Signal, request: Option<Date>, now: u64) -> (
        Scheduler,
        Action,
    ) {
        match self.stage {
            Stage::Stopped => (self, Action::Stop),
            Stage::Sleeping => match signal {
                Signal::Woke => self.serve(request, now),
                _ => (self, Action::Sleep(SLEEP_MS)),
            },
            Stage::Prefetching => match signal {
                Signal::Woke => (self, Action::Fetch(self.live_job())),
                _ => self.after_outcome(true, self.live_job(), signal is FetchedOk, request, now),
            },
            Stage::Fetching(job) => match signal {
                Signal::Woke => (self, Action::Fetch(job)),
                _ => self.after_outcome(false, job, signal is FetchedOk, request, now),
            },
        }
    }

    /// Whether the step on `signal` looks at the queue.
    pub open spec fn polls(self, signal: Signal) -> bool {
        match self.stage {
            Stage::Sleeping => signal is Woke,
            Stage::Prefetching => signal !is Woke && self.count_after(signal is FetchedOk)
                < FAILURE_LIMIT,
            _ => false,
        }
    }

    /// Whether the step on `signal` counts an outcome.
    pub open spec fn records(self, signal: Signal) -> bool {
        self.job_out() is Some && signal !is Woke
    }

    /// What the cache holds after the step on `event`: the fetched snapshot
    /// under the date of the fetch that was out, or what it held before.
    pub open spec fn cache_after(
        self,
        event: SchedulerEvent,
        entries: Map<Date, Seq<Match>>,
    ) -> Map<Date, Seq<Match>> {
        match (self.job_out(), event) {
            (Some(job), SchedulerEvent::Fetched(Ok(snapshot))) => stored(
                entries,
                job.date,
                snapshot@,
            ),
            _ => entries,
        }
    }

    /// A scheduler for the day `current_date`, started at the time `now`,
    /// with the first action: to fetch the live scores.
    pub fn new(current_date: Date, now: u64) -> (start: (Scheduler, Action))
        ensures
            start.0.wf(),
            start.0 == (Scheduler {
                current_date,
                failure_count: 0,
                last_live_fetch: now,
                stage: Stage::Prefetching,
            }),
            start.1 == Action::Fetch(start.0.live_job()),
    {
        let scheduler = Scheduler {
            current_date,
            failure_count: 0,
            last_live_fetch: now,
            stage: Stage::Prefetching,
        };
        (scheduler, Action::Fetch(FetchJob { data: DataToFetch::Live, date: current_date }))
    }

    /// Whether the scheduler has given up.
    pub fn is_stopped(&self) -> (stopped: bool)
        ensures
            stopped == (self.stage is Stopped),
    {
        match self.stage {
            Stage::Stopped => true,
            _ => false,
        }
    }

    /// Whether the live scores are due at the time `now`.
    pub fn is_live_due(&self, now: u64) -> (due: bool)
        ensures
            due == self.live_due(now),
    {
        now > self.last_live_fetch && now - self.last_live_fetch > FETCH_DELAY_MS
    }

    /// Whether the step on `event` looks at the queue.
    pub fn will_poll(&self, event: &SchedulerEvent) -> (polls: bool)
        requires
            self.wf(),
        ensures
            polls == self.polls(signal_of(*event)),
    {
        match self.stage {
            Stage::Sleeping => match event {
                SchedulerEvent::Woke => true,
                _ => false,
            },
            Stage::Prefetching => match event {
                SchedulerEvent::Woke => false,
                SchedulerEvent::Fetched(Ok(_)) => true,
                SchedulerEvent::Fetched(Err(_)) => self.failure_count + 1 < FAILURE_LIMIT,
            },
            _ => false,
        }
    }

    fn look_at_clock(&mut self, now: u64) -> (action: Action)
        requires
            old(self).failure_count < FAILURE_LIMIT,
        ensures
            (*final(self), action) == old(self).check_timer(now),
            final(self).wf(),
    {
        if self.is_live_due(now) {
            let job = FetchJob { data: DataToFetch::Live, date: self.current_date };
            self.stage = Stage::Fetching(job);
            Action::Fetch(job)
        } else {
            self.stage = Stage::Sleeping;
            Action::Sleep(SLEEP_MS)
        }
    }

    fn look_at_queue(&mut self, request: Option<Date>, now: u64) -> (action: Action)
        requires
            old(self).failure_count < FAILURE_LIMIT,
        ensures
            (*final(self), action) == old(self).serve(request, now),
            final(self).wf(),
    {
        match request {
            Some(date) => {
                let job = FetchJob { data: DataToFetch::Fixtures, date };
                self.stage = Stage::Fetching(job);
                Action::Fetch(job)
            },
            None => self.look_at_clock(now),
        }
    }

    fn take_outcome(
        &mut self,
        cache: &mut SnapshotCache,
        first: bool,
        job: FetchJob,
        outcome: Result<LiveScoresResponse, GegenDataError>,
        request: Option<Date>,
        now: u64,
    ) -> (action: Action)
        requires
            old(self).failure_count < FAILURE_LIMIT,
        ensures
            (*final(self), action) == old(self).after_outcome(
                first,
                job,
                outcome is Ok,
                request,
                now,
            ),
            final(self).wf(),
            final(cache)@ == (match outcome {
                Ok(snapshot) => stored(old(cache)@, job.date, snapshot@),
                Err(_) => old(cache)@,
            }),
    {
        match outcome {
            Ok(snapshot) => {
                cache.insert(job.date, snapshot);
                self.failure_count = 0;
            },
            Err(_) => {
                self.failure_count = self.failure_count + 1;
            },
        }
        if self.failure_count >= FAILURE_LIMIT {
            self.stage = Stage::Stopped;
            Action::Stop
        } else if first {
            self.look_at_queue(request, now)
        } else {
            match job.data {
                DataToFetch::Fixtures => self.look_at_clock(now),
                DataToFetch::Live => {
                    self.last_live_fetch = now;
                    self.stage = Stage::Sleeping;
                    Action::Sleep(SLEEP_MS)
                },
            }
        }
    }

    /// Takes one event, at the time `now`, with `request` being what the
    /// queue holds next, and says what to do next.
    ///
    /// A fetched snapshot is stored in the cache under the date of its fetch
    /// and sets the count of failures to zero; an error adds one to it, and
    /// at the limit the scheduler gives up for good.
    pub fn advance(
        &mut self,
        cache: &mut SnapshotCache,
        event: SchedulerEvent,
        request: Option<Date>,
        now: u64,
    ) -> (action: Action)
        requires
            old(self).wf(),
        ensures
            final(self).wf(),
            (*final(self), action) == old(self).next(signal_of(event), request, now),
            final(cache)@ == old(self).cache_after(event, old(cache)@),
    {
        match self.stage {
            Stage::Stopped => Action::Stop,
            Stage::Sleeping => match event {
                SchedulerEvent::Woke => self.look_at_queue(request, now),
                SchedulerEvent::Fetched(_) => Action::Sleep(SLEEP_MS),
            },
            Stage::Prefetching => {
                let job = FetchJob { data: DataToFetch::Live, date: self.current_date };
                match event {
                    SchedulerEvent::Woke => Action::Fetch(job),
                    SchedulerEvent::Fetched(outcome) => self.take_outcome(
                        cache,
                        true,
                        job,
                        outcome,
                        request,
                        now,
                    ),
                }
            },
            Stage::Fetching(job) => match event {
                SchedulerEvent::Woke => Action::Fetch(job),
                SchedulerEvent::Fetched(outcome) => self.take_outcome(
                    cache,
                    false,
                    job,
                    outcome,
                    request,
                    now,
                ),
            },
        }
    }

    /// Takes one event at the time `now` and says what to do next. Where the
    /// step looks at the queue, the next request is taken from `queue`; no
    /// request is taken where it does not.
    pub fn step(
        &mut self,
        cache: &mut SnapshotCache,
        queue: &RequestQueue,
        event: SchedulerEvent,
        now: u64,
    ) -> (action: Action)
        requires
            old(self).wf(),
        ensures
            final(self).wf(),
            final(cache)@ == old(self).cache_after(event, old(cache)@),
            exists|request: Option<Date>|
                {
                    &&& (*final(self), action) == #[trigger] old(self).next(
                        signal_of(event),
                        request,
                        now,
                    )
                    &&& !old(self).polls(signal_of(event)) ==> request is None
                },
    {
        let request = if self.will_poll(&event) {
            queue.poll()
        } else {
            None
        };
        self.advance(cache, event, request, now)
    }
}

/// One input to the scheduler: a signal, what the queue holds next, and the
/// time.
pub struct Input {
    pub signal: Signal,
    pub request: Option<Date>,
    pub now: u64,
}

/// The state after the inputs, taken in order.
pub open spec fn run(start: Scheduler, inputs: Seq<Input>) -> Scheduler
    decreases inputs.len(),
{
    if inputs.len() == 0 {
        start
    } else {
        let first = inputs.first();
        run(start.next(first.signal, first.request, first.now).0, inputs.drop_first())
    }
}

/// The outcomes that the scheduler counts in a run, in order: `true` for a
/// fetch that succeeded, `false` for one that failed.
pub open spec fn counted_outcomes(start: Scheduler, inputs: Seq<Input>) -> Seq<bool>
    decreases inputs.len(),
{
    if inputs.len() == 0 {
        Seq::empty()
    } else {
        let first = inputs.first();
        let rest = counted_outcomes(
            start.next(first.signal, first.request, first.now).0,
            inputs.drop_first(),
        );
        if start.records(first.signal) {
            seq![first.signal is FetchedOk] + rest
        } else {
            rest
        }
    }
}

/// The number of failures in a row at the end of `outcomes`, starting from
/// `count`; once it stands at the limit it stays there.
pub open spec fn streak(count: int, outcomes: Seq<bool>) -> int
    decreases outcomes.len(),
{
    if outcomes.len() == 0 {
        count
    } else {
        let counted = if count >= FAILURE_LIMIT {
            count
        } else if outcomes.first() {
            0
        } else {
            count + 1
        };
        streak(counted, outcomes.drop_first())
    }
}

/// A step keeps the scheduler well formed.
pub proof fn lemma_next_wf(s: Scheduler, signal: Signal, request: Option<Date>, now: u64)
    requires
        s.wf(),
    ensures
        s.next(signal, request, now).0.wf(),
{
}

/// A failed fetch adds one to the count of failures, and the scheduler gives
/// up exactly when that was the third failure in a row.
pub proof fn lemma_failure_counts(s: Scheduler, request: Option<Date>, now: u64)
    requires
        s.wf(),
        s.job_out() is Some,
    ensures
        s.next(Signal::FetchedErr, request, now).0.failure_count == s.failure_count + 1,
        s.next(Signal::FetchedErr, request, now).0.stage is Stopped <==> s.failure_count + 1
            == FAILURE_LIMIT,
        s.next(Signal::FetchedErr, request, now).0.stage is Stopped ==> s.next(
            Signal::FetchedErr,
            request,
            now,
        ).1 == Action::Stop,
{
}

/// A fetch that succeeds sets the count of failures to zero, and the
/// scheduler goes on.
pub proof fn lemma_success_resets(s: Scheduler, request: Option<Date>, now: u64)
    requires
        s.wf(),
        s.job_out() is Some,
    ensures
        s.next(Signal::FetchedOk, request, now).0.failure_count == 0,
        s.next(Signal::FetchedOk, request, now).0.stage !is Stopped,
        s.next(Signal::FetchedOk, request, now).1 != Action::Stop,
{
}

/// A scheduler that has given up stays so, whatever arrives.
pub proof fn lemma_stopped_stays(s: Scheduler, signal: Signal, request: Option<Date>, now: u64)
    requires
        s.stage is Stopped,
    ensures
        s.next(signal, request, now) == (s, Action::Stop),
{
}

/// After any run the count of failures is the number of fetches that failed
/// in a row at the end of the outcomes counted in it, and the scheduler has
/// given up exactly if that number has reached the limit.
pub proof fn lemma_run_counts_streak(start: Scheduler, inputs: Seq<Input>)
    requires
        start.wf(),
    ensures
        run(start, inputs).wf(),
        run(start, inputs).failure_count == streak(
            start.failure_count as int,
            counted_outcomes(start, inputs),
        ),
        run(start, inputs).stage is Stopped <==> streak(
            start.failure_count as int,
            counted_outcomes(start, inputs),
        ) == FAILURE_LIMIT,
    decreases inputs.len(),
{
    if inputs.len() > 0 {
        let first = inputs.first();
        let after = start.next(first.signal, first.request, first.now).0;
        lemma_next_wf(start, first.signal, first.request, first.now);
        lemma_run_counts_streak(after, inputs.drop_first());
        let rest = counted_outcomes(after, inputs.drop_first());
        if start.records(first.signal) {
            let all = seq![first.signal is FetchedOk] + rest;
            assert(all.first() == (first.signal is FetchedOk));
            assert(all.drop_first() =~= rest);
        }
    }
}

/// Whatever came before, three failures at the end of the outcomes bring the
/// streak to the limit.
pub proof fn lemma_three_failures_stop(count: int, outcomes: Seq<bool>)
    requires
        0 <= count <= FAILURE_LIMIT,
        outcomes.len() >= 3,
        !outcomes[outcomes.len() - 1],
        !outcomes[outcomes.len() - 2],
        !outcomes[outcomes.len() - 3],
    ensures
        streak(count, outcomes) == FAILURE_LIMIT,
    decreases outcomes.len(),
{
    lemma_streak_bounds(count, outcomes);
    if outcomes.len() == 3 {
        let a = outcomes.drop_first();
        let b = a.drop_first();
        let c = b.drop_first();
        assert(!outcomes.first());
        assert(!a.first());
        assert(!b.first());
        assert(c.len() == 0);
        reveal_with_fuel(streak, 4);
    } else {
        let counted = if count >= FAILURE_LIMIT {
            count
        } else if outcomes.first() {
            0
        } else {
            count + 1
        };
        let rest = outcomes.drop_first();
        assert(rest[rest.len() - 1] == outcomes[outcomes.len() - 1]);
        assert(rest[rest.len() - 2] == outcomes[outcomes.len() - 2]);
        assert(rest[rest.len() - 3] == outcomes[outcomes.len() - 3]);
        lemma_three_failures_stop(counted, rest);
    }
}

/// Three fetches failing in a row end the scheduler: a run whose last three
/// counted outcomes are failures has given up.
pub proof fn lemma_three_failed_fetches_end_run(start: Scheduler, inputs: Seq<Input>)
    requires
        start.wf(),
        counted_outcomes(start, inputs).len() >= 3,
        !counted_outcomes(start, inputs)[counted_outcomes(start, inputs).len() - 1],
        !counted_outcomes(start, inputs)[counted_outcomes(start, inputs).len() - 2],
        !counted_outcomes(start, inputs)[counted_outcomes(start, inputs).len() - 3],
    ensures
        run(start, inputs).stage is Stopped,
        run(start, inputs).failure_count == FAILURE_LIMIT,
{
    lemma_run_counts_streak(start, inputs);
    lemma_three_failures_stop(start.failure_count as int, counted_outcomes(start, inputs));
}

/// The streak never leaves the range from zero to the limit.
pub proof fn lemma_streak_bounds(count: int, outcomes: Seq<bool>)
    requires
        0 <= count <= FAILURE_LIMIT,
    ensures
        0 <= streak(count, outcomes) <= FAILURE_LIMIT,
    decreases outcomes.len(),
{
    if outcomes.len() > 0 {
        let counted = if count >= FAILURE_LIMIT {
            count
        } else if outcomes.first() {
            0
        } else {
            count + 1
        };
        lemma_streak_bounds(counted, outcomes.drop_first());
    }
}

/// While every fetch succeeds the scheduler runs on: a run in which no fetch
/// fails, begun with fewer failures than the limit, never gives up and ends
/// with a count of zero or the count it began with.
pub proof fn lemma_success_runs_on(start: Scheduler, inputs: Seq<Input>)
    requires
        start.wf(),
        start.stage !is Stopped,
        forall|i: int| 0 <= i < inputs.len() ==> (#[trigger] inputs[i]).signal !is FetchedErr,
    ensures
        run(start, inputs).stage !is Stopped,
        run(start, inputs).failure_count == 0 || run(start, inputs).failure_count
            == start.failure_count,
    decreases inputs.len(),
{
    if inputs.len() > 0 {
        let first = inputs.first();
        let after = start.next(first.signal, first.request, first.now).0;
        lemma_next_wf(start, first.signal, first.request, first.now);
        assert(first.signal !is FetchedErr);
        let rest = inputs.drop_first();
        assert forall|i: int| 0 <= i < rest.len() implies (#[trigger] rest[i]).signal
            !is FetchedErr by {
            assert(rest[i] == inputs[i + 1]);
        }
        lemma_success_runs_on(after, rest);
    }
}

} // verus!

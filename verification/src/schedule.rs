//! Timing rules of the collecting server.
//!
//! The server polls the station every five seconds, on wall-clock instants
//! divisible by five seconds, and forwards a reading to PWSWeather at most
//! once a minute. Instants are nanoseconds since the Unix epoch.

use vstd::prelude::*;

verus! {

/// The polling period, in nanoseconds.
pub const POLL_PERIOD_NANOS: u128 = 5_000_000_000;

/// The least time between two successful PWSWeather updates, in nanoseconds.
pub const PWS_MIN_INTERVAL_NANOS: u128 = 60_000_000_000;

/// How long to sleep from `now` to the next instant divisible by the polling
/// period; a full period when `now` is such an instant already.
pub fn nanos_until_next_poll(now: u128) -> (wait: u64)
    ensures
        wait == POLL_PERIOD_NANOS - now % POLL_PERIOD_NANOS,
        0 < wait <= POLL_PERIOD_NANOS,
        (now + wait) % POLL_PERIOD_NANOS as int == 0,
{
    let wait: u128 = POLL_PERIOD_NANOS - now % POLL_PERIOD_NANOS;
    assert((now + wait) % 5_000_000_000int == 0) by {
        vstd::arithmetic::div_mod::lemma_fundamental_div_mod(now as int, 5_000_000_000int);
        vstd::arithmetic::div_mod::lemma_mod_multiples_basic(
            now as int / 5_000_000_000int + 1,
            5_000_000_000int,
        );
        assert(now + wait == (now as int / 5_000_000_000int + 1) * 5_000_000_000int) by (nonlinear_arith)
            requires
                now == 5_000_000_000int * (now as int / 5_000_000_000int) + now as int % 5_000_000_000int,
                wait == 5_000_000_000int - now as int % 5_000_000_000int,
        ;
    }
    wait as u64
}

/// Whether a PWSWeather answer with this HTTP status is a failure: a client
/// error (4xx) or a server error (5xx).
pub open spec fn is_failure_status(status: u16) -> bool {
    400 <= status < 600
}

/// Whether a PWSWeather answer with this HTTP status is a failure: a client
/// error (4xx) or a server error (5xx).
pub fn pws_status_is_failure(status: u16) -> (failed: bool)
    ensures
        failed == is_failure_status(status),
{
    (400 <= status && status < 500) || (500 <= status && status < 600)
}

/// When PWSWeather last accepted an update.
pub struct PwsSchedule {
    last_update: u128,
}

impl PwsSchedule {
    /// The instant of the last accepted update (the Unix epoch before the first one).
    pub closed spec fn last_update(&self) -> u128 {
        self.last_update
    }

    /// A schedule under which no update was accepted yet.
    pub fn new() -> (s: PwsSchedule)
        ensures
            s.last_update() == 0,
    {
        PwsSchedule { last_update: 0 }
    }

    /// The instant of the last accepted update.
    pub fn last_update_nanos(&self) -> (t: u128)
        ensures
            t == self.last_update(),
    {
        self.last_update
    }

    /// Whether an update is due at `now`: more than a minute passed since the
    /// last accepted one.
    pub fn is_due(&self, now: u128) -> (due: bool)
        requires
            now >= self.last_update(),
        ensures
            due == update_due(self.last_update(), now),
    {
        now - self.last_update > PWS_MIN_INTERVAL_NANOS
    }

    /// Records how an update ended: `Some(status)` for an answer, `None` when
    /// the request failed. An answer that is no failure, taken at `now`,
    /// becomes the last accepted update; anything else changes nothing.
    pub fn record_outcome(&mut self, answer: Option<u16>, now: u128)
        ensures
            final(self).last_update() == last_update_after(old(self).last_update(), answer, now),
    {
        match answer {
            Some(status) => {
                if !pws_status_is_failure(status) {
                    self.last_update = now;
                }
            },
            None => {},
        }
    }
}

/// The last accepted update after an update that ended with `answer` at `now`.
pub open spec fn last_update_after(last: u128, answer: Option<u16>, now: u128) -> u128 {
    match answer {
        Some(status) => if is_failure_status(status) {
            last
        } else {
            now
        },
        None => last,
    }
}

/// Whether an update is due at `now` when the last accepted one was at `last`.
pub open spec fn update_due(last: u128, now: u128) -> bool {
    now - last > PWS_MIN_INTERVAL_NANOS
}

/// PWSWeather is updated at most once a minute: after an update accepted at
/// `accepted`, no update is due at any instant up to a minute later.
pub proof fn lemma_accepted_update_waits_a_minute(
    last: u128,
    status: u16,
    accepted: u128,
    later: u128,
)
    requires
        !is_failure_status(status),
        accepted <= later <= accepted + PWS_MIN_INTERVAL_NANOS,
    ensures
        last_update_after(last, Some(status), accepted) == accepted,
        !update_due(last_update_after(last, Some(status), accepted), later),
{
}

/// A failed update is tried again: when an update is due and fails (an error
/// status or no answer), an update is still due at every later instant.
pub proof fn lemma_failed_update_stays_due(last: u128, answer: Option<u16>, now: u128, later: u128)
    requires
        update_due(last, now),
        now <= later,
        answer matches Some(status) ==> is_failure_status(status),
    ensures
        update_due(last_update_after(last, answer, now), later),
{
}

/// One pass of the server's loop, as the PWSWeather rule sees it: the instant
/// `now` at which it decided whether to update, the answer of the update if
/// it sent one (`Some(status)`, or `None` when the request failed), and the
/// instant `done` at which that update ended.
pub struct PwsIteration {
    pub now: u128,
    pub answer: Option<u16>,
    pub done: u128,
}

/// The last accepted update after the passes `iters`, starting from `last`.
pub open spec fn last_update_through(last: u128, iters: Seq<PwsIteration>) -> u128
    decreases iters.len(),
{
    if iters.len() == 0 {
        last
    } else {
        let before = last_update_through(last, iters.drop_last());
        let it = iters.last();
        if update_due(before, it.now) {
            last_update_after(before, it.answer, it.done)
        } else {
            before
        }
    }
}

/// Whether pass `i` of `iters` sends an update.
pub open spec fn sends_update(last: u128, iters: Seq<PwsIteration>, i: int) -> bool {
    update_due(last_update_through(last, iters.take(i)), iters[i].now)
}

/// Whether pass `i` of `iters` sent an update that PWSWeather accepted.
pub open spec fn update_accepted(last: u128, iters: Seq<PwsIteration>, i: int) -> bool {
    &&& sends_update(last, iters, i)
    &&& iters[i].answer matches Some(status) && !is_failure_status(status)
}

/// Whether the clock never goes back along the passes: the first pass comes
/// no earlier than `last`, each update ends no earlier than it started, and
/// each pass starts no earlier than the previous one ended.
pub open spec fn clock_monotonic(last: u128, iters: Seq<PwsIteration>) -> bool {
    &&& iters.len() > 0 ==> last <= iters[0].now
    &&& forall|i: int| 0 <= i < iters.len() ==> #[trigger] iters[i].now <= iters[i].done
    &&& forall|i: int| 0 <= i < iters.len() - 1 ==> #[trigger] iters[i].done <= iters[i + 1].now
}

proof fn lemma_take_step(iters: Seq<PwsIteration>, i: int)
    requires
        0 <= i < iters.len(),
    ensures
        iters.take(i + 1).drop_last() == iters.take(i),
        iters.take(i + 1).last() == iters[i],
{
    assert(iters.take(i + 1).drop_last() =~= iters.take(i));
}

/// Along passes on a clock that never goes back, the last accepted update is
/// never later than the start of the next pass, and it only moves forward.
proof fn lemma_last_update_bounded(last: u128, iters: Seq<PwsIteration>, i: int)
    requires
        clock_monotonic(last, iters),
        0 <= i <= iters.len(),
    ensures
        last <= last_update_through(last, iters.take(i)),
        i < iters.len() ==> last_update_through(last, iters.take(i)) <= iters[i].now,
        i > 0 ==> last_update_through(last, iters.take(i)) <= iters[i - 1].done,
    decreases i,
{
    if i == 0 {
        assert(iters.take(0) =~= Seq::<PwsIteration>::empty());
    } else {
        lemma_last_update_bounded(last, iters, i - 1);
        lemma_take_step(iters, i - 1);
        assert(iters[i - 1].now <= iters[i - 1].done);
        if i < iters.len() {
            assert(iters[i - 1].done <= iters[i].now);
        }
    }
}

/// The last accepted update only moves forward: it is no earlier after `j`
/// passes than after `i <= j` of them.
proof fn lemma_last_update_grows(last: u128, iters: Seq<PwsIteration>, i: int, j: int)
    requires
        clock_monotonic(last, iters),
        0 <= i <= j <= iters.len(),
    ensures
        last_update_through(last, iters.take(i)) <= last_update_through(last, iters.take(j)),
    decreases j - i,
{
    if i < j {
        lemma_last_update_grows(last, iters, i, j - 1);
        lemma_take_step(iters, j - 1);
        lemma_last_update_bounded(last, iters, j - 1);
    }
}

/// On a clock that never goes back, every pass may ask whether an update is
/// due: its instant is never before the last accepted update.
pub proof fn lemma_due_check_is_always_defined(last: u128, iters: Seq<PwsIteration>, i: int)
    requires
        clock_monotonic(last, iters),
        0 <= i < iters.len(),
    ensures
        last_update_through(last, iters.take(i)) <= iters[i].now,
{
    lemma_last_update_bounded(last, iters, i);
}

/// PWSWeather is updated at most once a minute over a whole run: after an
/// update accepted at the end of pass `i`, any later pass `j` that sends an
/// update starts more than a minute after it.
pub proof fn lemma_updates_a_minute_apart(last: u128, iters: Seq<PwsIteration>, i: int, j: int)
    requires
        clock_monotonic(last, iters),
        0 <= i < j < iters.len(),
        update_accepted(last, iters, i),
        sends_update(last, iters, j),
    ensures
        iters[j].now - iters[i].done > PWS_MIN_INTERVAL_NANOS,
{
    lemma_take_step(iters, i);
    assert(last_update_through(last, iters.take(i + 1)) == iters[i].done);
    lemma_last_update_grows(last, iters, i + 1, j);
}

/// A failed update is tried again on every pass until one is accepted: when
/// pass `i` sends an update and no pass from `i` to before `j` has one
/// accepted, pass `j` sends an update too.
pub proof fn lemma_failed_update_retried(last: u128, iters: Seq<PwsIteration>, i: int, j: int)
    requires
        clock_monotonic(last, iters),
        0 <= i < j < iters.len(),
        sends_update(last, iters, i),
        forall|k: int| i <= k < j ==> !#[trigger] update_accepted(last, iters, k),
    ensures
        sends_update(last, iters, j),
    decreases j - i,
{
    lemma_take_step(iters, j - 1);
    if i < j - 1 {
        lemma_failed_update_retried(last, iters, i, j - 1);
    }
    assert(!update_accepted(last, iters, j - 1));
    assert(last_update_through(last, iters.take(j)) == last_update_through(
        last,
        iters.take(j - 1),
    ));
    lemma_last_update_bounded(last, iters, j - 1);
    assert(iters[j - 1].now <= iters[j - 1].done);
    assert(iters[j - 1].done <= iters[j].now);
}

} // verus!

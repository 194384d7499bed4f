//! A fixed-window rate limiter. A window opens at the first call that
//! finds the previous one elapsed and lasts `window_secs`; within it at
//! most `limit` calls are admitted. Callers that share one limiter
//! serialise their calls to it (a lock), so every interleaving is some
//! sequence of calls.
use vstd::prelude::*;

verus! {

pub struct RateLimiter {
    limit: Option<u32>,
    window_secs: u64,
    window_start: u64,
    count: u32,
}

impl RateLimiter {
    /// Calls admitted per window; `None` admits every call.
    pub closed spec fn limit(&self) -> Option<u32> {
        self.limit
    }

    pub closed spec fn window_secs(&self) -> u64 {
        self.window_secs
    }

    /// When the current window opened.
    pub closed spec fn window_start(&self) -> u64 {
        self.window_start
    }

    /// Calls admitted in the current window.
    pub closed spec fn count(&self) -> u32 {
        self.count
    }

    /// No window holds more admitted calls than the limit.
    pub open spec fn wf(&self) -> bool {
        self.limit() matches Some(l) ==> self.count() <= l
    }

    /// The window has elapsed at time `now`.
    pub open spec fn elapsed_at(&self, now: u64) -> bool {
        now as int >= self.window_start() as int + self.window_secs() as int
    }

    /// Calls counted in the window that a call at `now` falls into, before
    /// that call.
    pub open spec fn base_count(&self, now: u64) -> u32 {
        if self.elapsed_at(now) {
            0
        } else {
            self.count()
        }
    }

    /// A call at `now` is admitted.
    pub open spec fn admits(&self, now: u64) -> bool {
        match self.limit() {
            None => true,
            Some(l) => self.base_count(now) < l,
        }
    }

    /// The limiter after a call at `now`.
    pub closed spec fn after(&self, now: u64) -> RateLimiter {
        let base = self.base_count(now);
        RateLimiter {
            limit: self.limit,
            window_secs: self.window_secs,
            window_start: if self.elapsed_at(now) { now } else { self.window_start },
            count: if self.limit is Some && self.admits(now) { (base + 1) as u32 } else { base },
        }
    }

    /// What a sequence of calls at `times`, in that order, is told.
    pub closed spec fn outcomes(&self, times: Seq<u64>) -> Seq<bool>
        decreases times.len(),
    {
        if times.len() == 0 {
            Seq::empty()
        } else {
            seq![self.admits(times[0])] + self.after(times[0]).outcomes(times.drop_first())
        }
    }

    pub fn new(limit: Option<u32>, window_secs: u64, now: u64) -> (r: Self)
        ensures
            r.wf(),
            r.limit() == limit,
            r.window_secs() == window_secs,
            r.window_start() == now,
            r.count() == 0,
    {
        RateLimiter { limit, window_secs, window_start: now, count: 0 }
    }

    /// Counts one call at time `now` and says whether it is admitted.
    pub fn try_acquire(&mut self, now: u64) -> (admitted: bool)
        requires
            old(self).wf(),
        ensures
            admitted == old(self).admits(now),
            *final(self) == old(self).after(now),
            final(self).wf(),
            final(self).limit() == old(self).limit(),
            final(self).window_secs() == old(self).window_secs(),
            final(self).window_start() == if old(self).elapsed_at(now) {
                now
            } else {
                old(self).window_start()
            },
            final(self).count() == if old(self).limit() is Some && admitted {
                old(self).base_count(now) + 1
            } else {
                old(self).base_count(now) as int
            },
    {
        if now as u128 >= self.window_start as u128 + self.window_secs as u128 {
            self.window_start = now;
            self.count = 0;
        }
        match self.limit {
            None => true,
            Some(l) => {
                if self.count < l {
                    self.count = self.count + 1;
                    true
                } else {
                    false
                }
            },
        }
    }

    /// Within one window, whatever the order of the calls: with `c` calls
    /// already admitted under a limit of `l`, the `i`-th further call is
    /// admitted exactly when `c + i < l`; so the call after the `l`-th is
    /// refused.
    pub proof fn lemma_window_admits_at_most_limit(self, times: Seq<u64>)
        requires
            self.wf(),
            self.limit() is Some,
            forall|i: int|
                0 <= i < times.len() ==> self.window_start() <= #[trigger] times[i]
                    && !self.elapsed_at(times[i]),
        ensures
            self.outcomes(times).len() == times.len(),
            forall|i: int|
                0 <= i < times.len() ==> #[trigger] self.outcomes(times)[i] == (self.count() + i
                    < self.limit()->Some_0),
        decreases times.len(),
    {
        if times.len() > 0 {
            let next = self.after(times[0]);
            let rest = times.drop_first();
            assert forall|i: int| 0 <= i < rest.len() implies next.window_start() <= #[trigger] rest[i]
                && !next.elapsed_at(rest[i]) by {
                assert(rest[i] == times[i + 1]);
            }
            next.lemma_window_admits_at_most_limit(rest);
            assert forall|i: int| 0 <= i < times.len() implies #[trigger] self.outcomes(times)[i] == (
            self.count() + i < self.limit()->Some_0) by {
                if i > 0 {
                    assert(self.outcomes(times)[i] == next.outcomes(rest)[i - 1]);
                }
            }
        }
    }
}

} // verus!

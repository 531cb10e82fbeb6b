//! When a stream is tried again: after a pause that doubles with each attempt, and not for ever.
use vstd::prelude::*;

verus! {

/// Failures in a row after which a stream is given up.
pub const MAX_RETRIES: u32 = 10;

/// Longest pause, in milliseconds.
pub const MAX_BACKOFF_MS: u64 = 30_000;

/// The attempts to keep a stream open.
pub struct Reconnect {
    initial_ms: u64,
    backoff_ms: u64,
    failures: u32,
}

/// What a [`Reconnect`] knows: the first pause, the next one, and the failures in a row.
pub struct Attempts {
    pub initial_ms: u64,
    pub backoff_ms: u64,
    pub failures: u32,
}

impl View for Reconnect {
    type V = Attempts;

    closed spec fn view(&self) -> Attempts {
        Attempts {
            initial_ms: self.initial_ms,
            backoff_ms: self.backoff_ms,
            failures: self.failures,
        }
    }
}

/// The pause after a pause of `backoff_ms`.
pub open spec fn longer(backoff_ms: u64) -> u64 {
    if 2 * backoff_ms < MAX_BACKOFF_MS {
        (2 * backoff_ms) as u64
    } else {
        MAX_BACKOFF_MS
    }
}

impl Attempts {
    /// The pauses are not above the longest one, and the failures in a row not above the limit.
    pub open spec fn valid(self) -> bool {
        &&& self.initial_ms <= MAX_BACKOFF_MS
        &&& self.backoff_ms <= MAX_BACKOFF_MS
        &&& self.failures <= MAX_RETRIES
    }

    /// Nothing has failed yet.
    pub open spec fn fresh(initial_ms: u64) -> Attempts {
        Attempts { initial_ms, backoff_ms: initial_ms, failures: 0 }
    }

    /// After one more failure in a row: the pause grows unless the stream is given up.
    pub open spec fn failed(self) -> Attempts {
        if self.failures + 1 >= MAX_RETRIES {
            Attempts { failures: MAX_RETRIES, ..self }
        } else {
            Attempts {
                failures: (self.failures + 1) as u32,
                backoff_ms: longer(self.backoff_ms),
                ..self
            }
        }
    }

    /// After `n` more failures in a row.
    pub open spec fn failed_times(self, n: nat) -> Attempts
        decreases n,
    {
        if n == 0 {
            self
        } else {
            self.failed_times((n - 1) as nat).failed()
        }
    }
}

impl Reconnect {
    #[verifier::type_invariant]
    spec fn bounded(self) -> bool {
        &&& self.initial_ms <= MAX_BACKOFF_MS
        &&& self.backoff_ms <= MAX_BACKOFF_MS
        &&& self.failures <= MAX_RETRIES
    }

    /// The attempts of a stream whose first pause is `initial_ms`.
    pub fn new(initial_ms: u64) -> (r: Reconnect)
        requires
            initial_ms <= MAX_BACKOFF_MS,
        ensures
            r@ == Attempts::fresh(initial_ms),
    {
        Reconnect { initial_ms, backoff_ms: initial_ms, failures: 0 }
    }

    /// The pause that the next attempt waits for, in milliseconds.
    pub fn backoff_ms(&self) -> (r: u64)
        ensures
            r == self@.backoff_ms,
            r <= MAX_BACKOFF_MS,
    {
        proof {
            use_type_invariant(self);
        }
        self.backoff_ms
    }

    /// How many attempts in a row have failed.
    pub fn consecutive_failures(&self) -> (r: u32)
        ensures
            r == self@.failures,
    {
        self.failures
    }

    /// The stream is open: the failures are forgotten.
    pub fn connected(&mut self)
        ensures
            final(self)@ == Attempts::fresh(old(self)@.initial_ms),
    {
        proof {
            use_type_invariant(&*self);
        }
        self.backoff_ms = self.initial_ms;
        self.failures = 0;
    }

    /// An open stream has ended; the result is the pause in milliseconds before the next
    /// attempt.
    pub fn ended(&mut self) -> (r: u64)
        ensures
            r == old(self)@.backoff_ms,
            final(self)@ == (Attempts {
                backoff_ms: longer(old(self)@.backoff_ms),
                ..old(self)@
            }),
    {
        proof {
            use_type_invariant(&*self);
        }
        let pause: u64 = self.backoff_ms;
        let doubled: u64 = pause * 2;
        self.backoff_ms = if doubled < MAX_BACKOFF_MS {
            doubled
        } else {
            MAX_BACKOFF_MS
        };
        pause
    }

    /// An attempt has failed; the result is the pause in milliseconds before the next one, or
    /// `None` where the stream is given up.
    pub fn failed(&mut self) -> (r: Option<u64>)
        ensures
            r == (if old(self)@.failures + 1 >= MAX_RETRIES {
                None
            } else {
                Some(old(self)@.backoff_ms)
            }),
            final(self)@ == old(self)@.failed(),
    {
        proof {
            use_type_invariant(&*self);
        }
        if self.failures + 1 >= MAX_RETRIES {
            self.failures = MAX_RETRIES;
            return None;
        }
        self.failures = self.failures + 1;
        Some(self.ended())
    }
}

/// `initial` doubled `n` times.
pub open spec fn doubled(initial: int, n: nat) -> int
    decreases n,
{
    if n == 0 {
        initial
    } else {
        2 * doubled(initial, (n - 1) as nat)
    }
}

/// Before the stream is given up, the pause after `n` failures in a row is the first one doubled
/// `n` times, but never above the longest; and the tenth failure in a row, no earlier one, gives
/// the stream up.
pub proof fn law_pauses_double_up_to_a_limit(initial_ms: u64, n: nat)
    requires
        initial_ms <= MAX_BACKOFF_MS,
    ensures
        ({
            let state = Attempts::fresh(initial_ms).failed_times(n);
            &&& state.valid()
            &&& state.initial_ms == initial_ms
            &&& state.failures == (if n < MAX_RETRIES {
                n
            } else {
                MAX_RETRIES as nat
            })
            &&& n < MAX_RETRIES ==> state.backoff_ms == (if doubled(initial_ms as int, n)
                < MAX_BACKOFF_MS {
                doubled(initial_ms as int, n)
            } else {
                MAX_BACKOFF_MS as int
            })
            &&& (state.failures + 1 >= MAX_RETRIES) == (n + 1 >= MAX_RETRIES)
        }),
    decreases n,
{
    if n > 0 {
        law_pauses_double_up_to_a_limit(initial_ms, (n - 1) as nat);
        lemma_doubled_not_negative(initial_ms as int, (n - 1) as nat);
    }
}

proof fn lemma_doubled_not_negative(initial: int, n: nat)
    requires
        initial >= 0,
    ensures
        doubled(initial, n) >= 0,
    decreases n,
{
    if n > 0 {
        lemma_doubled_not_negative(initial, (n - 1) as nat);
    }
}

/// A pause is followed by one twice as long, but not above thirty seconds.
pub proof fn law_the_next_pause_is_twice_as_long(backoff_ms: u64)
    ensures
        longer(backoff_ms) <= 30_000,
        backoff_ms <= 15_000 ==> longer(backoff_ms) == 2 * backoff_ms,
        backoff_ms >= 15_000 ==> longer(backoff_ms) == 30_000,
{
}

} // verus!

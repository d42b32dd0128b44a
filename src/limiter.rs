use vstd::prelude::*;

verus! {

/// One token, in the limiter's internal unit (a millionth of a token).
pub const TOKEN: u128 = 1000000;

/// Largest capacity or rate accepted, in thousandths of a token.
pub const MAX_MILLI: u128 = 9223372036854775807;

/// What a token bucket holds, in millionths of a token; `rate` is in
/// millionths of a token per millisecond, `last` is the time of the last
/// refill in milliseconds.
pub ghost struct LimiterState {
    pub capacity: int,
    pub tokens: int,
    pub rate: int,
    pub last: int,
}

impl LimiterState {
    pub open spec fn wf(self) -> bool {
        &&& 0 <= self.tokens <= self.capacity <= MAX_MILLI * 1000
        &&& 0 <= self.rate <= MAX_MILLI
        &&& 0 <= self.last <= u64::MAX
    }
}

/// The bucket right after creation: the capacity is at least one token, a
/// negative rate leaves it empty for good, and it starts full.
pub open spec fn initial_state(capacity_milli: int, rate_milli: int, now: int) -> LimiterState {
    let cap: int = if rate_milli < 0 {
        0
    } else if capacity_milli < 1000 {
        1000000
    } else {
        capacity_milli * 1000
    };
    LimiterState { capacity: cap, tokens: cap, rate: if rate_milli < 0 { 0 } else { rate_milli }, last: now }
}

/// Tokens earned since the last refill, capped at the capacity. A clock that
/// went back earns nothing.
pub open spec fn refill(s: LimiterState, now: int) -> LimiterState {
    let elapsed = if now >= s.last { now - s.last } else { 0 };
    let t = s.tokens + elapsed * s.rate;
    LimiterState { tokens: if t > s.capacity { s.capacity } else { t }, last: now, ..s }
}

/// One attempt at time `now`: refill, then take a whole token if there is one.
pub open spec fn take_spec(s: LimiterState, now: int) -> (LimiterState, bool) {
    let r = refill(s, now);
    if r.tokens < TOKEN {
        (r, false)
    } else {
        (LimiterState { tokens: r.tokens - TOKEN, ..r }, true)
    }
}

/// Attempts made at the given times, one after the other: the final bucket and
/// how many of them succeeded.
pub open spec fn run_takes(s: LimiterState, times: Seq<int>) -> (LimiterState, nat)
    decreases times.len(),
{
    if times.len() == 0 {
        (s, 0)
    } else {
        let (s1, ok) = take_spec(s, times[0]);
        let (s2, n) = run_takes(s1, times.drop_first());
        (s2, n + if ok { 1nat } else { 0nat })
    }
}

pub open spec fn nondecreasing(times: Seq<int>) -> bool {
    forall|i: int, j: int| 0 <= i <= j < times.len() ==> times[i] <= times[j]
}

/// Continuous-refill token bucket that gates restarts. Times are milliseconds
/// of a monotonic clock, handed in by the caller.
pub struct RateLimiter {
    capacity: u128,
    tokens: u128,
    rate: u128,
    last_millis: u64,
}

impl View for RateLimiter {
    type V = LimiterState;

    closed spec fn view(&self) -> LimiterState {
        LimiterState {
            capacity: self.capacity as int,
            tokens: self.tokens as int,
            rate: self.rate as int,
            last: self.last_millis as int,
        }
    }
}

impl RateLimiter {
    /// A full bucket of `capacity` thousandths of a token (at least one token),
    /// refilled at `tokens_per_sec` thousandths of a token per second; a
    /// negative rate means no token is ever available.
    pub fn new(capacity: i64, tokens_per_sec: i64, now_millis: u64) -> (r: Self)
        ensures
            r@ == initial_state(capacity as int, tokens_per_sec as int, now_millis as int),
            r@.wf(),
    {
        let cap: u128 = if tokens_per_sec < 0 {
            0
        } else if capacity < 1000 {
            1000000
        } else {
            capacity as u128 * 1000
        };
        let rate: u128 = if tokens_per_sec < 0 { 0 } else { tokens_per_sec as u128 };
        RateLimiter { capacity: cap, tokens: cap, rate, last_millis: now_millis }
    }

    /// Takes one token if one is available at `now_millis`.
    pub fn take(&mut self, now_millis: u64) -> (r: bool)
        requires
            old(self)@.wf(),
        ensures
            (final(self)@, r) == take_spec(old(self)@, now_millis as int),
            final(self)@.wf(),
    {
        self.add_tokens(now_millis);
        if self.tokens < TOKEN {
            false
        } else {
            self.tokens = self.tokens - TOKEN;
            true
        }
    }

    fn add_tokens(&mut self, now_millis: u64)
        requires
            old(self)@.wf(),
        ensures
            final(self)@ == refill(old(self)@, now_millis as int),
            final(self)@.wf(),
    {
        let elapsed: u64 = if now_millis >= self.last_millis { now_millis - self.last_millis } else { 0 };
        assert((elapsed as int) * (self.rate as int) <= (u64::MAX as int) * (MAX_MILLI as int))
            by (nonlinear_arith)
            requires
                elapsed <= u64::MAX,
                self.rate <= MAX_MILLI,
        ;
        let earned: u128 = elapsed as u128 * self.rate;
        let t: u128 = self.tokens + earned;
        self.tokens = if t > self.capacity { self.capacity } else { t };
        self.last_millis = now_millis;
    }
}

proof fn lemma_refill_bound(s: LimiterState, now: int)
    requires
        s.wf(),
        s.last <= now,
    ensures
        0 <= refill(s, now).tokens <= s.tokens + s.rate * (now - s.last),
        refill(s, now).tokens <= s.capacity,
{
    let elapsed = now - s.last;
    assert(elapsed * s.rate == s.rate * (now - s.last) && s.rate * (now - s.last) >= 0)
        by (nonlinear_arith)
        requires
            s.rate >= 0,
            elapsed == now - s.last,
            now - s.last >= 0,
    ;
}

proof fn lemma_window(s: LimiterState, times: Seq<int>)
    requires
        s.wf(),
        times.len() > 0,
        nondecreasing(times),
        s.last <= times[0],
        times.last() <= u64::MAX,
    ensures
        run_takes(s, times).1 * TOKEN + run_takes(s, times).0.tokens
            <= refill(s, times[0]).tokens + s.rate * (times.last() - times[0]),
        run_takes(s, times).0.tokens >= 0,
    decreases times.len(),
{
    let (s1, ok) = take_spec(s, times[0]);
    lemma_refill_bound(s, times[0]);
    assert(s1.tokens + (if ok { TOKEN as int } else { 0 }) == refill(s, times[0]).tokens);
    let rest = times.drop_first();
    let (s2, n) = run_takes(s1, rest);
    assert(run_takes(s, times).1 == n + if ok { 1nat } else { 0nat });
    assert(run_takes(s, times).0 == s2);
    if rest.len() == 0 {
        assert(times.last() == times[0]);
        assert(s.rate * (times.last() - times[0]) == 0) by (nonlinear_arith)
            requires
                times.last() == times[0],
        ;
    } else {
        assert(rest[0] == times[1]);
        assert(rest.last() == times.last());
        assert(nondecreasing(rest)) by {
            assert forall|i: int, j: int| 0 <= i <= j < rest.len() implies rest[i] <= rest[j] by {
                assert(rest[i] == times[i + 1]);
                assert(rest[j] == times[j + 1]);
            }
        }
        assert(times[0] <= times[1]);
        assert(s1.wf());
        lemma_window(s1, rest);
        lemma_refill_bound(s1, rest[0]);
        let d1 = rest[0] - times[0];
        let d2 = times.last() - rest[0];
        assert(s.rate * d1 + s.rate * d2 == s.rate * (times.last() - times[0])) by (nonlinear_arith)
            requires
                d1 + d2 == times.last() - times[0],
        ;
    }
}

/// Within any window, however the attempts are spread over it, the successful
/// takes are at most the capacity plus what the rate earns over the window's
/// length.
pub proof fn lemma_takes_within_window(s: LimiterState, times: Seq<int>)
    requires
        s.wf(),
        times.len() > 0,
        nondecreasing(times),
        s.last <= times[0],
        times.last() <= u64::MAX,
    ensures
        run_takes(s, times).1 * TOKEN <= s.capacity + s.rate * (times.last() - times[0]),
{
    lemma_window(s, times);
    lemma_refill_bound(s, times[0]);
}

/// A fresh bucket grants its first `k` takes at once, for every `k` up to the
/// whole number of tokens it holds.
pub proof fn lemma_initial_burst(capacity_milli: i64, rate_milli: i64, now: u64, k: nat)
    requires
        k * TOKEN <= initial_state(capacity_milli as int, rate_milli as int, now as int).capacity,
    ensures
        run_takes(
            initial_state(capacity_milli as int, rate_milli as int, now as int),
            Seq::new(k, |i: int| now as int),
        ).1 == k,
{
    let s = initial_state(capacity_milli as int, rate_milli as int, now as int);
    lemma_burst_from(s, now as int, k);
}

proof fn lemma_burst_from(s: LimiterState, now: int, k: nat)
    requires
        s.last == now,
        k * TOKEN <= s.tokens,
        s.tokens <= s.capacity,
    ensures
        run_takes(s, Seq::new(k, |i: int| now)).1 == k,
    decreases k,
{
    let times = Seq::new(k, |i: int| now);
    if k > 0 {
        let (s1, ok) = take_spec(s, now);
        assert(0 * s.rate == 0);
        assert(refill(s, now).tokens == s.tokens);
        assert(s.tokens >= TOKEN);
        assert(ok);
        assert(s1.tokens == s.tokens - TOKEN);
        assert(times.drop_first() =~= Seq::new((k - 1) as nat, |i: int| now));
        assert((k - 1) * TOKEN <= s1.tokens) by (nonlinear_arith)
            requires
                k * TOKEN <= s.tokens,
                s1.tokens == s.tokens - TOKEN,
                k >= 1,
        ;
        lemma_burst_from(s1, now, (k - 1) as nat);
    }
}

} // verus!

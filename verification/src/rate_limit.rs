//! Admission control: a leaky bucket per client, in front of every handler.
//!
//! Every client has a bucket that fills by one token's worth with each
//! admitted request and leaks with time. A request that would overfill the
//! bucket is rejected and told how long to wait. Time is a count of
//! nanoseconds since the process began; the caller reads the clock.

use crate::exception::RateLimitException;
use ratelimit_meter::algorithms::{LeakyBucket, NonConformance};
use ratelimit_meter::clock::FakeRelativeClock;
use ratelimit_meter::KeyedRateLimiter;
use std::num::NonZeroU32;
use std::time::Duration;
use vstd::prelude::*;

verus! {

/// The identity of a client on the network: its address as 128 bits, and
/// its port.
pub type ClientKey = (u128, u16);

/// Requests that the default policy admits at once.
pub const DEFAULT_CAPACITY: u32 = 2;

/// Nanoseconds in which a full bucket of the default policy drains: one
/// request's worth each second.
pub const DEFAULT_PERIOD: u64 = 2_000_000_000;

/// The state of one client's bucket, in nanoseconds: how much of the period
/// is used up, and when that was last written.
pub struct Bucket {
    pub level: nat,
    pub last: nat,
}

/// What is left in a bucket at the time `at`: it leaks one nanosecond's
/// worth each nanosecond since it was written, down to nothing. A client
/// that was never seen has an empty bucket.
pub open spec fn level_at(bucket: Option<Bucket>, at: nat) -> nat {
    match bucket {
        None => 0,
        Some(b) => if at <= b.last {
            b.level
        } else if at - b.last >= b.level {
            0
        } else {
            (b.level - (at - b.last)) as nat
        },
    }
}

/// The time that a bucket goes by at `at`: never before its last writing.
pub open spec fn clock_at(bucket: Option<Bucket>, at: nat) -> nat {
    match bucket {
        None => at,
        Some(b) => if at <= b.last {
            b.last
        } else {
            at
        },
    }
}

/// Whether a request at `at` fits: what is left in the bucket, and one
/// token's worth more, must not exceed the period.
pub open spec fn admits(bucket: Option<Bucket>, at: nat, full: nat, interval: nat) -> bool {
    interval + level_at(bucket, at) <= full
}

/// Nanoseconds from `at` until a rejected request would fit.
pub open spec fn wait_nanos(bucket: Option<Bucket>, at: nat, full: nat, interval: nat) -> int {
    (clock_at(bucket, at) - at) + (interval + level_at(bucket, at) - full)
}

/// The bucket after a request at `at`: an admitted request adds one
/// token's worth and writes the time, a rejected one changes nothing.
pub open spec fn bucket_after(bucket: Option<Bucket>, at: nat, full: nat, interval: nat) -> Option<
    Bucket,
> {
    if admits(bucket, at, full, interval) {
        Some(Bucket { level: level_at(bucket, at) + interval, last: at })
    } else {
        bucket
    }
}

/// All buckets after a request of `key` at `at`.
pub open spec fn buckets_after(
    all: Map<ClientKey, Bucket>,
    key: ClientKey,
    at: nat,
    full: nat,
    interval: nat,
) -> Map<ClientKey, Bucket> {
    match bucket_after(all.get(key), at, full, interval) {
        Some(b) => all.insert(key, b),
        None => all,
    }
}

/// Whole milliseconds from `at` until a rejected request would fit; the
/// largest number that can be told, should the wait be longer than that.
pub open spec fn wait_millis(bucket: Option<Bucket>, at: nat, full: nat, interval: nat) -> int {
    let millis = wait_nanos(bucket, at, full, interval) / 1_000_000;
    if millis > u64::MAX {
        u64::MAX as int
    } else {
        millis
    }
}

/// Whether `decision` answers a request at `at` rightly: admitted exactly
/// when the request fits, and else rejected with the milliseconds to wait.
pub open spec fn answers(
    decision: Result<(), u64>,
    bucket: Option<Bucket>,
    at: nat,
    full: nat,
    interval: nat,
) -> bool {
    match decision {
        Ok(()) => admits(bucket, at, full, interval),
        Err(wait) => !admits(bucket, at, full, interval) && wait == wait_millis(
            bucket,
            at,
            full,
            interval,
        ),
    }
}

/// Whether `decision` is the limiter's answer to a request at `at`:
/// admitted exactly when the request fits, and else rejected with the
/// nanoseconds to wait.
pub open spec fn answers_in_nanos(
    decision: Result<(), u128>,
    bucket: Option<Bucket>,
    at: nat,
    full: nat,
    interval: nat,
) -> bool {
    match decision {
        Ok(()) => admits(bucket, at, full, interval),
        Err(wait) => !admits(bucket, at, full, interval) && wait == wait_nanos(
            bucket,
            at,
            full,
            interval,
        ),
    }
}

/// The buckets before any client was seen: none.
pub open spec fn no_buckets() -> Map<ClientKey, Bucket> {
    Map::empty()
}

/// A decision with the wait as a bare number.
pub open spec fn wait_of(decision: Result<(), RateLimitException>) -> Result<(), u64> {
    match decision {
        Ok(()) => Ok(()),
        Err(e) => Err(e.wait_time_millis),
    }
}

/// The keyed rate limiter, leaky buckets on a clock that is told the time.
/// Its buckets are read through `levels`, its policy through `full_nanos`
/// and `interval_nanos`.
#[verifier::external_body]
pub struct Buckets {
    limiter: KeyedRateLimiter<ClientKey, LeakyBucket<Duration>, FakeRelativeClock>,
}

/// The bucket of every client that the limiter has seen.
pub uninterp spec fn levels(buckets: Buckets) -> Map<ClientKey, Bucket>;

/// The period of the limiter's policy, in nanoseconds.
pub uninterp spec fn full_nanos(buckets: Buckets) -> nat;

/// One token's worth of the period, in nanoseconds.
pub uninterp spec fn interval_nanos(buckets: Buckets) -> nat;

/// `KeyedRateLimiter::new` with the capacity and the period. The limiter
/// starts without any bucket. One token's worth is the period divided by
/// the capacity, rounded down to the nanosecond.
#[verifier::external_body]
fn new_buckets(capacity: u32, period: u64) -> (buckets: Buckets)
    requires
        capacity > 0,
    ensures
        levels(buckets) == no_buckets(),
        full_nanos(buckets) == period,
        interval_nanos(buckets) == period as nat / capacity as nat,
{
    Buckets {
        limiter: KeyedRateLimiter::new(
            NonZeroU32::new(capacity).unwrap(),
            Duration::from_nanos(period),
        ),
    }
}

/// `KeyedRateLimiter::check_at` with the time as a span since the process
/// began, and for a rejection `wait_time_from` the same time, in
/// nanoseconds. The limiter drains the client's bucket by the time that
/// has passed, admits the request if one more token fits and then adds it
/// and writes the time; else it changes nothing and tells the wait. No
/// other client's bucket is touched, and the policy stays as it is.
#[verifier::external_body]
fn check_at(buckets: &mut Buckets, key: ClientKey, at: u64) -> (decision: Result<(), u128>)
    ensures
        levels(*final(buckets)) == buckets_after(
            levels(*old(buckets)),
            key,
            at as nat,
            full_nanos(*old(buckets)),
            interval_nanos(*old(buckets)),
        ),
        full_nanos(*final(buckets)) == full_nanos(*old(buckets)),
        interval_nanos(*final(buckets)) == interval_nanos(*old(buckets)),
        answers_in_nanos(
            decision,
            levels(*old(buckets)).get(key),
            at as nat,
            full_nanos(*old(buckets)),
            interval_nanos(*old(buckets)),
        ),
{
    let at = Duration::from_nanos(at);
    match buckets.limiter.check_at(key, at) {
        Ok(()) => Ok(()),
        Err(negative) => Err(negative.wait_time_from(at).as_nanos()),
    }
}

/// The admission controller: one leaky bucket per client under one policy.
pub struct AdmissionController {
    buckets: Buckets,
    capacity: u32,
    period: u64,
}

impl AdmissionController {
    /// The bucket of every client seen so far.
    pub closed spec fn view(&self) -> Map<ClientKey, Bucket> {
        levels(self.buckets)
    }

    /// Requests that a client may make at once.
    pub closed spec fn capacity(&self) -> nat {
        self.capacity as nat
    }

    /// Nanoseconds in which a full bucket drains.
    pub closed spec fn period(&self) -> nat {
        self.period as nat
    }

    /// One token's worth of the period.
    pub open spec fn interval(&self) -> nat {
        self.period() / self.capacity()
    }

    /// The controller's fields agree with the limiter they describe.
    pub closed spec fn wf(&self) -> bool {
        &&& self.capacity > 0
        &&& full_nanos(self.buckets) == self.period
        &&& interval_nanos(self.buckets) == self.period as nat / self.capacity as nat
    }

    /// A controller that admits `capacity` requests per `period`
    /// nanoseconds from each client. No client is known to it yet.
    pub fn new(capacity: u32, period: u64) -> (controller: AdmissionController)
        requires
            capacity > 0,
        ensures
            controller.wf(),
            controller@ == no_buckets(),
            controller.capacity() == capacity,
            controller.period() == period,
    {
        AdmissionController { buckets: new_buckets(capacity, period), capacity, period }
    }

    /// Decides on a request of the client `key` at the time `now`, in
    /// nanoseconds since the process began. A client never seen before has
    /// an empty bucket. The request is admitted if one more token fits
    /// into what is left in the client's bucket; else it is rejected with
    /// the milliseconds until it would fit. Only this client's bucket
    /// changes, and only when the request is admitted.
    pub fn check(&mut self, key: ClientKey, now: u64) -> (decision: Result<(), RateLimitException>)
        requires
            old(self).wf(),
        ensures
            final(self).wf(),
            final(self).capacity() == old(self).capacity(),
            final(self).period() == old(self).period(),
            final(self)@ == buckets_after(
                old(self)@,
                key,
                now as nat,
                old(self).period(),
                old(self).interval(),
            ),
            answers(
                wait_of(decision),
                old(self)@.get(key),
                now as nat,
                old(self).period(),
                old(self).interval(),
            ),
    {
        match check_at(&mut self.buckets, key, now) {
            Ok(()) => Ok(()),
            Err(wait) => {
                let millis = wait / 1_000_000;
                let told = if millis > u64::MAX as u128 {
                    u64::MAX
                } else {
                    millis as u64
                };
                Err(RateLimitException { wait_time_millis: told })
            },
        }
    }
}

/// All buckets after the client `key` has made a request at each of the
/// times in `times`, in that order.
pub open spec fn buckets_after_all(
    all: Map<ClientKey, Bucket>,
    key: ClientKey,
    times: Seq<nat>,
    full: nat,
    interval: nat,
) -> Map<ClientKey, Bucket>
    decreases times.len(),
{
    if times.len() == 0 {
        all
    } else {
        buckets_after(
            buckets_after_all(all, key, times.drop_last(), full, interval),
            key,
            times.last(),
            full,
            interval,
        )
    }
}

/// Clients do not affect each other: whatever requests one client makes,
/// and whenever, another client's bucket stays as it was, and so does the
/// answer that the other client gets at any time.
pub proof fn lemma_clients_are_isolated(
    all: Map<ClientKey, Bucket>,
    busy: ClientKey,
    other: ClientKey,
    times: Seq<nat>,
    at: nat,
    full: nat,
    interval: nat,
)
    requires
        busy != other,
    ensures
        buckets_after_all(all, busy, times, full, interval).get(other) == all.get(other),
        admits(buckets_after_all(all, busy, times, full, interval).get(other), at, full, interval)
            == admits(all.get(other), at, full, interval),
        wait_millis(
            buckets_after_all(all, busy, times, full, interval).get(other),
            at,
            full,
            interval,
        ) == wait_millis(all.get(other), at, full, interval),
    decreases times.len(),
{
    if times.len() > 0 {
        lemma_clients_are_isolated(all, busy, other, times.drop_last(), at, full, interval);
    }
}

/// How many of `n` requests made at the same time `at` are admitted,
/// starting from `bucket`.
pub open spec fn admitted_at_once(
    bucket: Option<Bucket>,
    at: nat,
    n: nat,
    full: nat,
    interval: nat,
) -> nat
    decreases n,
{
    if n == 0 {
        0
    } else if admits(bucket, at, full, interval) {
        1 + admitted_at_once(
            bucket_after(bucket, at, full, interval),
            at,
            (n - 1) as nat,
            full,
            interval,
        )
    } else {
        admitted_at_once(bucket, at, (n - 1) as nat, full, interval)
    }
}

/// Whether a policy keeps its word: one token's worth of the period is
/// more than what the division by the capacity leaves over. A period of
/// three nanoseconds for two requests does not: three tokens fit into it.
pub open spec fn policy_is_exact(capacity: nat, full: nat) -> bool {
    capacity > 0 && full / capacity > full % capacity
}

/// With `used` tokens in a bucket written at `at`, one more fits exactly
/// when fewer than the capacity are in it.
proof fn lemma_fits_below_capacity(used: nat, capacity: nat, full: nat)
    requires
        policy_is_exact(capacity, full),
    ensures
        (used + 1) * (full / capacity) <= full <==> used < capacity,
{
    let interval = full / capacity;
    let rest = full % capacity;
    assert(full == capacity * interval + rest) by {
        vstd::arithmetic::div_mod::lemma_fundamental_div_mod(full as int, capacity as int);
    }
    if used < capacity {
        assert((used + 1) * interval <= capacity * interval) by (nonlinear_arith)
            requires
                used + 1 <= capacity,
                interval >= 0,
        ;
    } else {
        assert((used + 1) * interval >= (capacity + 1) * interval) by (nonlinear_arith)
            requires
                used + 1 >= capacity + 1,
                interval >= 0,
        ;
        assert((capacity + 1) * interval == capacity * interval + interval)
            by (nonlinear_arith);
    }
}

/// Of `n` requests at one time, a bucket that holds `used` tokens written
/// at that time admits as many as still fit below the capacity.
proof fn lemma_admitted_from(used: nat, at: nat, n: nat, capacity: nat, full: nat)
    requires
        policy_is_exact(capacity, full),
        used <= capacity,
    ensures
        admitted_at_once(
            Some(Bucket { level: used * (full / capacity), last: at }),
            at,
            n,
            full,
            full / capacity,
        ) == if n <= capacity - used {
            n
        } else {
            (capacity - used) as nat
        },
    decreases n,
{
    let interval = full / capacity;
    let bucket = Some(Bucket { level: used * interval, last: at });
    if n > 0 {
        lemma_fits_below_capacity(used, capacity, full);
        assert((used + 1) * interval == used * interval + interval) by (nonlinear_arith);
        if used < capacity {
            assert(admits(bucket, at, full, interval));
            assert(bucket_after(bucket, at, full, interval) == Some(
                Bucket { level: (used + 1) * interval, last: at },
            ));
            lemma_admitted_from(used + 1, at, (n - 1) as nat, capacity, full);
        } else {
            assert(!admits(bucket, at, full, interval));
            lemma_admitted_from(used, at, (n - 1) as nat, capacity, full);
        }
    }
}

/// However many requests a client that was never seen makes at one time,
/// no more than the capacity are admitted: the first ones, as many as the
/// capacity, and none after them.
pub proof fn lemma_burst_admits_capacity(at: nat, n: nat, capacity: nat, full: nat)
    requires
        policy_is_exact(capacity, full),
    ensures
        admitted_at_once(None, at, n, full, full / capacity) <= capacity,
        admitted_at_once(None, at, n, full, full / capacity) == if n <= capacity {
            n
        } else {
            capacity
        },
{
    let interval = full / capacity;
    if n > 0 {
        lemma_fits_below_capacity(0, capacity, full);
        assert(admits(None, at, full, interval));
        assert(bucket_after(None, at, full, interval) == Some(
            Bucket { level: 1 * interval, last: at },
        )) by {
            assert(1 * interval == interval) by (nonlinear_arith);
        }
        lemma_admitted_from(1, at, (n - 1) as nat, capacity, full);
    }
}

/// The default policy, two requests at once and one more each second: a
/// client never seen before is admitted twice at once, whenever that is; a
/// third request at that time is told to wait 1000 milliseconds; a request
/// a second later is admitted again.
pub proof fn lemma_default_policy(at: nat)
    ensures
        admits(None, at, 2_000_000_000, 1_000_000_000),
        admits(
            bucket_after(None, at, 2_000_000_000, 1_000_000_000),
            at,
            2_000_000_000,
            1_000_000_000,
        ),
        bucket_after(
            bucket_after(None, at, 2_000_000_000, 1_000_000_000),
            at,
            2_000_000_000,
            1_000_000_000,
        ) == Some(Bucket { level: 2_000_000_000, last: at }),
        !admits(
            Some(Bucket { level: 2_000_000_000, last: at }),
            at,
            2_000_000_000,
            1_000_000_000,
        ),
        wait_millis(
            Some(Bucket { level: 2_000_000_000, last: at }),
            at,
            2_000_000_000,
            1_000_000_000,
        ) == 1000,
        admits(
            Some(Bucket { level: 2_000_000_000, last: at }),
            at + 1_000_000_000,
            2_000_000_000,
            1_000_000_000,
        ),
{
}

/// The controller of the default policy: two requests at once, and one
/// more each second.
pub fn leaky_bucket() -> (controller: AdmissionController)
    ensures
        controller.wf(),
        controller@ == no_buckets(),
        controller.capacity() == 2,
        controller.period() == 2_000_000_000,
        controller.interval() == 1_000_000_000,
{
    AdmissionController::new(DEFAULT_CAPACITY, DEFAULT_PERIOD)
}

} // verus!

//! The token-bucket admission gate.
//!
//! The bucket itself is `ratelimit`'s lock-free `Ratelimiter`; this module
//! validates its configuration, so that no nonsensical bucket (one that would
//! admit everything, or nothing) is ever built, and turns its answer into an
//! [`Admission`].

use crate::retry::Admission;
use vstd::prelude::*;

verus! {

/// The bucket of `ratelimit`, held opaquely: its generic clock parameter is
/// bound by a trait of that crate, so the type cannot be declared directly.
#[derive(Debug)]
#[verifier::external_body]
pub struct Bucket {
    inner: ratelimit::Ratelimiter,
}

/// The capacity that a bucket was built with.
pub uninterp spec fn bucket_capacity(b: Bucket) -> u64;

/// The refill rate that a bucket was built with (0 would mean unlimited).
pub uninterp spec fn bucket_rate(b: Bucket) -> u64;

/// The whole tokens that a bucket holds.
pub uninterp spec fn bucket_tokens(b: Bucket) -> u64;

/// Parameters of a token bucket.
#[derive(Clone, Copy, Debug, PartialEq, Eq, Structural)]
pub struct LimiterConfig {
    /// Tokens added per refill interval.
    pub tokens_per_refill: u64,
    /// Length of the refill interval, in seconds.
    pub refill_interval_secs: u64,
    /// Capacity of the bucket.
    pub max_tokens: u64,
    /// Tokens available when the bucket is built.
    pub initial_tokens: u64,
}

/// Why a bucket configuration is refused.
#[derive(Clone, Copy, Debug, PartialEq, Eq, Structural)]
pub enum ConfigError {
    ZeroRefillTokens,
    ZeroRefillInterval,
    ZeroCapacity,
    InitialAboveCapacity,
}

/// The first problem of a configuration, if it has one.
pub open spec fn config_problem(c: LimiterConfig) -> Option<ConfigError> {
    if c.tokens_per_refill == 0 {
        Some(ConfigError::ZeroRefillTokens)
    } else if c.refill_interval_secs == 0 {
        Some(ConfigError::ZeroRefillInterval)
    } else if c.max_tokens == 0 {
        Some(ConfigError::ZeroCapacity)
    } else if c.initial_tokens > c.max_tokens {
        Some(ConfigError::InitialAboveCapacity)
    } else {
        None
    }
}

impl LimiterConfig {
    /// Checks the configuration: refill tokens, interval and capacity must be
    /// positive and the initial tokens must fit in the bucket.
    pub fn validate(&self) -> (r: Result<(), ConfigError>)
        ensures
            r is Ok <==> config_problem(*self) is None,
            r is Err ==> config_problem(*self) == Some(r->Err_0),
    {
        if self.tokens_per_refill == 0 {
            Err(ConfigError::ZeroRefillTokens)
        } else if self.refill_interval_secs == 0 {
            Err(ConfigError::ZeroRefillInterval)
        } else if self.max_tokens == 0 {
            Err(ConfigError::ZeroCapacity)
        } else if self.initial_tokens > self.max_tokens {
            Err(ConfigError::InitialAboveCapacity)
        } else {
            Ok(())
        }
    }
}

/// Relies on ratelimit's `Ratelimiter::builder(rate)`, `Builder::period`,
/// `Builder::max_tokens`, `Builder::initial_available` and `Builder::build`:
/// with the capacity set explicitly, `build` fails exactly when the period is
/// zero, when the capacity is zero while the rate is not, or when the initial
/// tokens exceed the capacity. A new bucket holds its initial tokens, counted
/// internally in millionths of a token with saturation, so never more than its
/// capacity and exactly the initial tokens where that count does not saturate.
#[verifier::external_body]
fn build_bucket(rate: u64, period_secs: u64, max_tokens: u64, initial: u64) -> (r: Option<Bucket>)
    ensures
        r is Some <==> (period_secs > 0 && !(max_tokens == 0 && rate != 0) && initial <= max_tokens),
        r is Some ==> bucket_capacity(r->Some_0) == max_tokens,
        r is Some ==> bucket_rate(r->Some_0) == rate,
        r is Some ==> bucket_tokens(r->Some_0) <= initial,
        r is Some && initial * 1_000_000 <= u64::MAX ==> bucket_tokens(r->Some_0) == initial,
{
    ratelimit::Ratelimiter::builder(rate)
        .period(std::time::Duration::from_secs(period_secs))
        .max_tokens(max_tokens)
        .initial_available(initial)
        .build()
        .ok()
        .map(|inner| Bucket { inner })
}

/// Relies on ratelimit's `Ratelimiter::try_wait`, which never blocks nor
/// panics and leaves rate and capacity alone. It first refills for the time
/// elapsed, which only adds tokens and never beyond the capacity; it then
/// fails exactly when less than one whole token is held, and otherwise takes
/// one token (none where the rate is 0). How many tokens the refill adds
/// depends on the clock.
#[verifier::external_body]
fn take_token(bucket: &mut Bucket) -> (r: bool)
    ensures
        bucket_capacity(*final(bucket)) == bucket_capacity(*old(bucket)),
        bucket_rate(*final(bucket)) == bucket_rate(*old(bucket)),
        bucket_tokens(*final(bucket)) <= bucket_capacity(*final(bucket)),
        bucket_tokens(*old(bucket)) >= 1 ==> r,
        !r ==> bucket_tokens(*final(bucket)) == 0,
        r && bucket_rate(*old(bucket)) != 0 ==> bucket_tokens(*final(bucket)) < bucket_capacity(
            *final(bucket),
        ),
    no_unwind
{
    bucket.inner.try_wait().is_ok()
}

/// Relies on ratelimit's `Ratelimiter::available`: the whole tokens held,
/// read without refilling.
#[verifier::external_body]
fn tokens_held(bucket: &Bucket) -> (r: u64)
    ensures
        r == bucket_tokens(*bucket),
{
    bucket.inner.available()
}

/// A token bucket that admits one request per token.
#[derive(Debug)]
pub struct Limiter {
    config: LimiterConfig,
    bucket: Bucket,
}

impl Limiter {
    /// The bucket was built with the configured capacity and rate, and
    /// holds no more tokens than its capacity.
    #[verifier::type_invariant]
    spec fn inv(&self) -> bool {
        &&& bucket_capacity(self.bucket) == self.config.max_tokens
        &&& bucket_rate(self.bucket) == self.config.tokens_per_refill
        &&& self.config.tokens_per_refill != 0
        &&& bucket_tokens(self.bucket) <= self.config.max_tokens
    }

    /// The whole tokens the bucket holds.
    pub closed spec fn spec_tokens(&self) -> u64 {
        bucket_tokens(self.bucket)
    }

    /// The configuration the bucket was built from.
    pub closed spec fn spec_config(&self) -> LimiterConfig {
        self.config
    }

    /// Builds a bucket, failing fast on a configuration that
    /// [`LimiterConfig::validate`] refuses.
    pub fn new(config: LimiterConfig) -> (r: Result<Limiter, ConfigError>)
        ensures
            r is Ok <==> config_problem(config) is None,
            r is Ok ==> r->Ok_0.spec_config() == config,
            r is Ok ==> r->Ok_0.spec_tokens() <= config.initial_tokens,
            r is Ok && config.initial_tokens * 1_000_000 <= u64::MAX ==> r->Ok_0.spec_tokens()
                == config.initial_tokens,
            r is Err ==> config_problem(config) == Some(r->Err_0),
    {
        match config.validate() {
            Err(e) => Err(e),
            Ok(()) => {
                match build_bucket(
                    config.tokens_per_refill,
                    config.refill_interval_secs,
                    config.max_tokens,
                    config.initial_tokens,
                ) {
                    Some(bucket) => Ok(Limiter { config, bucket }),
                    None => {
                        // unreachable: `build_bucket` accepts every validated configuration
                        assert(false);
                        Err(ConfigError::ZeroCapacity)
                    },
                }
            },
        }
    }

    /// The configuration the bucket was built from.
    pub fn config(&self) -> (c: LimiterConfig)
        ensures
            c == self.spec_config(),
    {
        self.config
    }

    /// The whole tokens held since the last admission request: never more
    /// than the configured capacity.
    pub fn available(&self) -> (n: u64)
        ensures
            n == self.spec_tokens(),
            n <= self.spec_config().max_tokens,
    {
        proof {
            use_type_invariant(self);
        }
        tokens_held(&self.bucket)
    }

    /// Asks for admission of one request. The bucket first refills for the
    /// time elapsed; a request is admitted whenever a whole token is then
    /// held, and takes one. A denial leaves the bucket empty. Tokens never
    /// exceed the capacity. Never blocks; backing off after `Denied` is the
    /// caller's business.
    pub fn try_acquire(&mut self) -> (a: Admission)
        ensures
            final(self).spec_config() == old(self).spec_config(),
            old(self).spec_tokens() >= 1 ==> a == Admission::Admitted,
            a == Admission::Denied ==> final(self).spec_tokens() == 0,
            a == Admission::Admitted ==> final(self).spec_tokens()
                < final(self).spec_config().max_tokens,
            final(self).spec_tokens() <= final(self).spec_config().max_tokens,
    {
        proof {
            use_type_invariant(&*self);
        }
        let taken = take_token(&mut self.bucket);
        if taken {
            Admission::Admitted
        } else {
            Admission::Denied
        }
    }
}

} // verus!

//! Rate limiting of external API calls: the settings of each limiter and the
//! wait that keeps calls apart. The semaphore and the clock are the caller's.

use vstd::prelude::*;
use crate::domain::entities::ConcurrencyConfig;
use crate::text::to_owned_string;

verus! {

/// Fixed interval between TikHub calls, in milliseconds.
pub const TIKHUB_MIN_INTERVAL_MS: u64 = 500;

/// The settings of a rate limiter: how many calls may run at once, the
/// minimum interval between two calls (0 disables it) and a name for logs.
#[derive(Debug, Clone)]
pub struct RateLimiter {
    pub concurrency: usize,
    pub min_interval_ms: u64,
    pub name: String,
}

/// How long a call waits, given the milliseconds since the previous one.
pub open spec fn interval_wait(min_interval_ms: u64, elapsed_ms: u64) -> u64 {
    if min_interval_ms > 0 && elapsed_ms < min_interval_ms {
        (min_interval_ms - elapsed_ms) as u64
    } else {
        0
    }
}

impl RateLimiter {
    /// A limiter named `RateLimiter`.
    pub fn new(concurrency: usize, min_interval_ms: u64) -> (r: RateLimiter)
        ensures
            r.concurrency == concurrency,
            r.min_interval_ms == min_interval_ms,
            r.name@ == "RateLimiter"@,
    {
        RateLimiter { concurrency, min_interval_ms, name: to_owned_string("RateLimiter") }
    }

    /// Renames the limiter.
    pub fn with_name(self, name: &str) -> (r: RateLimiter)
        ensures
            r.concurrency == self.concurrency,
            r.min_interval_ms == self.min_interval_ms,
            r.name@ == name@,
    {
        RateLimiter { name: to_owned_string(name), ..self }
    }

    /// The AI limiter's defaults: 20 calls at once, 50 ms apart.
    pub fn ai_default() -> (r: RateLimiter)
        ensures
            r.concurrency == 20,
            r.min_interval_ms == 50,
            r.name@ == "AI"@,
    {
        Self::new(20, 50).with_name("AI")
    }

    /// An AI limiter with these settings.
    pub fn ai_from_config(concurrency: usize, min_interval_ms: u64) -> (r: RateLimiter)
        ensures
            r.concurrency == concurrency,
            r.min_interval_ms == min_interval_ms,
            r.name@ == "AI"@,
    {
        Self::new(concurrency, min_interval_ms).with_name("AI")
    }

    /// The TikHub limiter's defaults: 3 calls at once, 500 ms apart.
    pub fn tikhub_default() -> (r: RateLimiter)
        ensures
            r.concurrency == 3,
            r.min_interval_ms == 500,
            r.name@ == "TikHub"@,
    {
        Self::new(3, 500).with_name("TikHub")
    }

    /// A TikHub limiter with these settings.
    pub fn tikhub_from_config(concurrency: usize, min_interval_ms: u64) -> (r: RateLimiter)
        ensures
            r.concurrency == concurrency,
            r.min_interval_ms == min_interval_ms,
            r.name@ == "TikHub"@,
    {
        Self::new(concurrency, min_interval_ms).with_name("TikHub")
    }

    /// How long a call that holds a permit waits before it starts, given the
    /// milliseconds since the previous call started.
    pub fn wait_before_call(&self, elapsed_ms: u64) -> (r: u64)
        ensures
            r == interval_wait(self.min_interval_ms, elapsed_ms),
    {
        if self.min_interval_ms > 0 && elapsed_ms < self.min_interval_ms {
            self.min_interval_ms - elapsed_ms
        } else {
            0
        }
    }
}

/// The limiters shared by all tasks.
#[derive(Debug, Clone)]
pub struct GlobalRateLimiters {
    pub ai: RateLimiter,
    pub tikhub: RateLimiter,
}

impl GlobalRateLimiters {
    /// The default AI and TikHub limiters.
    pub fn new() -> (r: GlobalRateLimiters)
        ensures
            r.ai.concurrency == 20 && r.ai.min_interval_ms == 50 && r.ai.name@ == "AI"@,
            r.tikhub.concurrency == 3 && r.tikhub.min_interval_ms == 500 && r.tikhub.name@
                == "TikHub"@,
    {
        GlobalRateLimiters { ai: RateLimiter::ai_default(), tikhub: RateLimiter::tikhub_default() }
    }

    /// Limiters from a concurrency configuration: the AI limiter takes its
    /// concurrency and interval from it, the TikHub limiter its concurrency
    /// with the fixed TikHub interval.
    pub fn from_config(config: &ConcurrencyConfig) -> (r: GlobalRateLimiters)
        ensures
            r.ai.concurrency == config.ai_concurrency,
            r.ai.min_interval_ms == config.ai_min_interval_ms,
            r.ai.name@ == "AI"@,
            r.tikhub.concurrency == config.tikhub_concurrency,
            r.tikhub.min_interval_ms == TIKHUB_MIN_INTERVAL_MS,
            r.tikhub.name@ == "TikHub"@,
    {
        GlobalRateLimiters {
            ai: RateLimiter::ai_from_config(config.ai_concurrency, config.ai_min_interval_ms),
            tikhub: RateLimiter::tikhub_from_config(config.tikhub_concurrency, TIKHUB_MIN_INTERVAL_MS),
        }
    }
}

impl Default for GlobalRateLimiters {
    fn default() -> (r: GlobalRateLimiters)
        ensures
            r.ai.concurrency == 20 && r.ai.min_interval_ms == 50 && r.ai.name@ == "AI"@,
            r.tikhub.concurrency == 3 && r.tikhub.min_interval_ms == 500 && r.tikhub.name@
                == "TikHub"@,
    {
        Self::new()
    }
}

/// Once a call waited, the next one starts at least the minimum interval
/// after the previous one.
pub proof fn lemma_interval_respected(min_interval_ms: u64, elapsed_ms: u64)
    ensures
        min_interval_ms > 0 ==> elapsed_ms + interval_wait(min_interval_ms, elapsed_ms) >= min_interval_ms,
        interval_wait(min_interval_ms, elapsed_ms) <= min_interval_ms,
{
}

} // verus!

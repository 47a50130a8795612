//! Retry policy for operations that may fail with a transient conflict.
use vstd::prelude::*;

verus! {

/// The failure of one attempt: a transient failure may be retried, a
/// permanent one may not.
#[derive(Debug)]
pub enum BackoffError<E> {
    Transient(E),
    Permanent(E),
}

impl<E> BackoffError<E> {
    /// The error carried by the failure.
    pub open spec fn spec_inner(self) -> E {
        match self {
            BackoffError::Transient(e) => e,
            BackoffError::Permanent(e) => e,
        }
    }

    /// The error carried by the failure.
    pub fn into_inner(self) -> (e: E)
        ensures
            e == self.spec_inner(),
    {
        match self {
            BackoffError::Transient(e) => e,
            BackoffError::Permanent(e) => e,
        }
    }
}

/// `base * 2^n`, saturated at `u64::MAX`.
pub open spec fn spec_exponential_delay(base: nat, n: nat) -> nat
    decreases n,
{
    if n == 0 {
        if base > u64::MAX {
            u64::MAX as nat
        } else {
            base
        }
    } else {
        let d = spec_exponential_delay(base, (n - 1) as nat);
        if 2 * d > u64::MAX {
            u64::MAX as nat
        } else {
            2 * d
        }
    }
}

/// What to do after an attempt.
#[derive(Debug)]
pub enum BackoffStep<T, E> {
    /// Stop with this result.
    Done(Result<T, E>),
    /// Wait `delay_micros` and run attempt number `attempt`.
    Retry { attempt: u32, delay_micros: u64 },
}

/// Exponential backoff: a transient failure is retried up to `max_retry`
/// times, waiting `base_delay_micros * 2^n` before retry `n + 1`.
#[derive(Clone, Copy, Debug)]
pub struct Exponential {
    pub max_retry: u32,
    pub base_delay_micros: u64,
}

impl Exponential {
    pub fn new(max_retry: u32, base_delay_micros: u64) -> (r: Exponential)
        ensures
            r.max_retry == max_retry,
            r.base_delay_micros == base_delay_micros,
    {
        Exponential { max_retry, base_delay_micros }
    }

    /// The delay before retry number `n + 1`.
    pub fn delay(&self, n: u32) -> (d: u64)
        ensures
            d == spec_exponential_delay(self.base_delay_micros as nat, n as nat),
    {
        let mut d: u64 = self.base_delay_micros;
        let mut k: u32 = 0;
        while k < n
            invariant
                k <= n,
                d == spec_exponential_delay(self.base_delay_micros as nat, k as nat),
            decreases n - k,
        {
            if d > u64::MAX / 2 {
                d = u64::MAX;
            } else {
                d = 2 * d;
            }
            k = k + 1;
        }
        d
    }

    /// The step after attempt number `attempt` (counted from 0) ended with
    /// `outcome`.
    pub fn step<T, E>(&self, attempt: u32, outcome: Result<T, BackoffError<E>>) -> (s: BackoffStep<T, E>)
        ensures
            match outcome {
                Ok(v) => s == BackoffStep::<T, E>::Done(Ok(v)),
                Err(BackoffError::Permanent(e)) => s == BackoffStep::<T, E>::Done(Err(e)),
                Err(BackoffError::Transient(e)) => if attempt < self.max_retry {
                    s == BackoffStep::<T, E>::Retry {
                        attempt: (attempt + 1) as u32,
                        delay_micros: spec_exponential_delay(self.base_delay_micros as nat, attempt as nat) as u64,
                    }
                } else {
                    s == BackoffStep::<T, E>::Done(Err(e))
                },
            },
    {
        match outcome {
            Ok(v) => BackoffStep::Done(Ok(v)),
            Err(BackoffError::Permanent(e)) => BackoffStep::Done(Err(e)),
            Err(BackoffError::Transient(e)) => {
                if attempt < self.max_retry {
                    let d = self.delay(attempt);
                    BackoffStep::Retry { attempt: attempt + 1, delay_micros: d }
                } else {
                    BackoffStep::Done(Err(e))
                }
            },
        }
    }
}

} // verus!

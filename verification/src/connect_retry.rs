//! The decisions of the database connection loop: how many attempts are
//! made, how long to wait between them, and what is logged.
//!
//! Up to `max_retries` attempts are made. After a failed attempt that is not
//! the last, the loop waits and tries again, the wait starting at the
//! configured initial delay and doubling after each retry (exponential
//! backoff). After the last failed attempt it gives up.

use vstd::prelude::*;

use crate::log_record::{LogLevel, LogRecord};
use crate::text::{decimal, decimal_string};

verus! {

/// The wait before the retry that follows failed attempt number `k + 1`:
/// the initial delay, doubled `k` times.
pub open spec fn backoff_delay(init_delay: nat, k: nat) -> nat
    decreases k,
{
    if k == 0 {
        init_delay
    } else {
        2 * backoff_delay(init_delay, (k - 1) as nat)
    }
}

/// What the connection loop does after a failed attempt.
#[derive(Clone, Copy, Debug, PartialEq, Eq, Structural)]
pub enum ConnectStep {
    /// That was the last attempt: stop without a pool.
    GiveUp,
    /// Wait this many seconds, then try again.
    RetryAfter(u64),
}

/// The state of the connection loop.
#[derive(Clone, Copy, Debug)]
pub struct ConnectRetry {
    max_retries: u8,
    init_delay: u64,
    attempts: u8,
    backoff: u64,
}

/// The line logged after failed attempt `n` of `max`.
pub open spec fn attempt_failed_message(n: nat, max: nat, err: Seq<char>) -> Seq<char> {
    "failed to connect to database (attempt "@ + decimal(n) + "/"@ + decimal(max) + "): "@ + err
}

/// The line logged before waiting `secs` seconds.
pub open spec fn retrying_message(secs: nat) -> Seq<char> {
    "database retrying connection in "@ + decimal(secs) + " seconds"@
}

impl ConnectRetry {
    /// The configured number of attempts.
    pub closed spec fn spec_max_retries(&self) -> nat {
        self.max_retries as nat
    }

    /// The configured initial delay in seconds.
    pub closed spec fn spec_init_delay(&self) -> nat {
        self.init_delay as nat
    }

    /// The number of failed attempts so far.
    pub closed spec fn spec_attempts(&self) -> nat {
        self.attempts as nat
    }

    /// The wait before the next retry, in seconds.
    pub closed spec fn spec_backoff(&self) -> nat {
        self.backoff as nat
    }

    /// The state is consistent: no more failures than attempts allowed, and
    /// while attempts remain, the pending wait is the initial delay doubled
    /// once per failure.
    pub open spec fn wf(&self) -> bool {
        &&& self.spec_attempts() <= self.spec_max_retries()
        &&& self.spec_attempts() < self.spec_max_retries() ==> self.spec_backoff()
            == backoff_delay(self.spec_init_delay(), self.spec_attempts())
    }

    /// The loop before any attempt.
    pub fn new(max_retries: u8, init_delay: u64) -> (r: Self)
        ensures
            r.wf(),
            r.spec_max_retries() == max_retries,
            r.spec_init_delay() == init_delay,
            r.spec_attempts() == 0,
    {
        ConnectRetry { max_retries, init_delay, attempts: 0, backoff: init_delay }
    }

    /// Whether another attempt is to be made. With no attempts allowed at
    /// all, none is made.
    pub fn may_attempt(&self) -> (r: bool)
        ensures
            r == (self.spec_attempts() < self.spec_max_retries()),
    {
        self.attempts < self.max_retries
    }

    /// Whether doubling the wait after the next failure would overflow.
    pub fn next_backoff_overflows(&self) -> (r: bool)
        requires
            self.wf(),
            self.spec_attempts() < self.spec_max_retries(),
        ensures
            r == (backoff_delay(self.spec_init_delay(), self.spec_attempts()) * 2 > u64::MAX),
    {
        self.backoff > u64::MAX / 2
    }

    /// The wait before the next retry, in seconds.
    pub fn current_backoff(&self) -> (r: u64)
        ensures
            r == self.spec_backoff(),
    {
        self.backoff
    }

    /// The lines logged when an attempt that is not the last fails, with
    /// reason `err`, without recording the failure: the failure and the
    /// wait before the retry. These are the lines `on_failure` logs in that
    /// case.
    pub fn retry_report(&self, err: &str) -> (r: Vec<LogRecord>)
        requires
            self.wf(),
            self.spec_attempts() + 1 < self.spec_max_retries(),
        ensures
            r@.len() == 2,
            r@[0]@ == (
                LogLevel::Warn,
                attempt_failed_message(self.spec_attempts() + 1, self.spec_max_retries(), err@),
            ),
            r@[1]@ == (
                LogLevel::Warn,
                retrying_message(backoff_delay(self.spec_init_delay(), self.spec_attempts())),
            ),
    {
        let mut records: Vec<LogRecord> = Vec::new();
        let n = decimal_string((self.attempts + 1) as u64);
        let max = decimal_string(self.max_retries as u64);
        let msg = String::from_str("failed to connect to database (attempt ").concat(
            n.as_str(),
        ).concat("/").concat(max.as_str()).concat("): ").concat(err);
        records.push(LogRecord::new(LogLevel::Warn, msg));
        let secs = decimal_string(self.backoff);
        let msg = String::from_str("database retrying connection in ").concat(secs.as_str()).concat(
            " seconds",
        );
        records.push(LogRecord::new(LogLevel::Warn, msg));
        records
    }

    /// What is logged when an attempt succeeds.
    pub fn on_success(&self) -> (r: LogRecord)
        ensures
            r@ == (LogLevel::Info, "database pool created successfully"@),
    {
        LogRecord::new(LogLevel::Info, String::from_str("database pool created successfully"))
    }

    /// Records a failed attempt, with its reason `err`: gives up after the
    /// last allowed attempt, and otherwise waits the current backoff and
    /// doubles it for the next time.
    pub fn on_failure(&mut self, err: &str) -> (r: (ConnectStep, Vec<LogRecord>))
        requires
            old(self).wf(),
            old(self).spec_attempts() < old(self).spec_max_retries(),
            old(self).spec_attempts() + 1 < old(self).spec_max_retries() ==> backoff_delay(
                old(self).spec_init_delay(),
                old(self).spec_attempts(),
            ) * 2 <= u64::MAX,
        ensures
            final(self).wf(),
            final(self).spec_max_retries() == old(self).spec_max_retries(),
            final(self).spec_init_delay() == old(self).spec_init_delay(),
            final(self).spec_attempts() == old(self).spec_attempts() + 1,
            r.1@.len() == 2,
            r.1@[0]@ == (
                LogLevel::Warn,
                attempt_failed_message(
                    final(self).spec_attempts(),
                    final(self).spec_max_retries(),
                    err@,
                ),
            ),
            if final(self).spec_attempts() == final(self).spec_max_retries() {
                &&& r.0 == ConnectStep::GiveUp
                &&& r.1@[1]@ == (
                    LogLevel::Error,
                    "database connection retries exhausted all attempts"@,
                )
            } else {
                &&& r.0 == ConnectStep::RetryAfter(
                    backoff_delay(old(self).spec_init_delay(), old(self).spec_attempts()) as u64,
                )
                &&& r.1@[1]@ == (
                    LogLevel::Warn,
                    retrying_message(
                        backoff_delay(old(self).spec_init_delay(), old(self).spec_attempts()),
                    ),
                )
            },
    {
        self.attempts = self.attempts + 1;
        let mut records: Vec<LogRecord> = Vec::new();
        let n = decimal_string(self.attempts as u64);
        let max = decimal_string(self.max_retries as u64);
        let msg = String::from_str("failed to connect to database (attempt ").concat(
            n.as_str(),
        ).concat("/").concat(max.as_str()).concat("): ").concat(err);
        records.push(LogRecord::new(LogLevel::Warn, msg));
        if self.attempts == self.max_retries {
            records.push(
                LogRecord::new(
                    LogLevel::Error,
                    String::from_str("database connection retries exhausted all attempts"),
                ),
            );
            (ConnectStep::GiveUp, records)
        } else {
            let wait = self.backoff;
            let secs = decimal_string(wait);
            let msg = String::from_str("database retrying connection in ").concat(
                secs.as_str(),
            ).concat(" seconds");
            records.push(LogRecord::new(LogLevel::Warn, msg));
            self.backoff = wait * 2;
            (ConnectStep::RetryAfter(wait), records)
        }
    }
}

/// The waits between attempts grow exponentially: the one after failed
/// attempt `k + 1` is the initial delay times `2^k`.
pub proof fn lemma_backoff_doubles(init_delay: nat, k: nat)
    ensures
        backoff_delay(init_delay, k + 1) == 2 * backoff_delay(init_delay, k),
        backoff_delay(init_delay, k) == init_delay * vstd::arithmetic::power2::pow2(k),
    decreases k,
{
    vstd::arithmetic::power2::lemma_pow2_unfold(k + 1);
    if k > 0 {
        lemma_backoff_doubles(init_delay, (k - 1) as nat);
        vstd::arithmetic::power2::lemma_pow2_unfold(k);
        assert(init_delay * (2 * vstd::arithmetic::power2::pow2((k - 1) as nat)) == 2 * (init_delay
            * vstd::arithmetic::power2::pow2((k - 1) as nat))) by (nonlinear_arith);
    } else {
        vstd::arithmetic::power2::lemma2_to64();
    }
}

} // verus!

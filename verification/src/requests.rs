//! The timing ledger of one request.

use vstd::prelude::*;

verus! {

/// The named phases of a request whose elapsed time is kept.
#[derive(Clone, Copy, Debug, PartialEq, Eq, Structural)]
pub enum RequestIntervalKind {
    HandleRequest,
    PostgresBeginTransaction,
    ProcessRequest,
    PostgresCommitTransaction,
}

/// Elapsed nanoseconds for each phase of one request. Zero means that the
/// phase did not occur.
#[derive(Clone, Copy, Debug, PartialEq, Eq, Structural)]
pub struct RequestTracker {
    pub handle_request: i64,
    pub postgres_begin_transaction: i64,
    pub process_request: i64,
    pub postgres_commit_transaction: i64,
}

/// The sum of `a` and `b`, held at the ends of the range of `i64`.
pub open spec fn saturating_sum(a: int, b: int) -> int {
    if a + b > i64::MAX {
        i64::MAX as int
    } else if a + b < i64::MIN {
        i64::MIN as int
    } else {
        a + b
    }
}

impl RequestTracker {
    /// The nanoseconds on the ledger for `kind`.
    pub open spec fn elapsed(self, kind: RequestIntervalKind) -> int {
        match kind {
            RequestIntervalKind::HandleRequest => self.handle_request as int,
            RequestIntervalKind::PostgresBeginTransaction => self.postgres_begin_transaction as int,
            RequestIntervalKind::ProcessRequest => self.process_request as int,
            RequestIntervalKind::PostgresCommitTransaction => self.postgres_commit_transaction as int,
        }
    }

    /// A ledger on which no phase has occurred.
    pub fn new() -> (t: RequestTracker)
        ensures
            forall|kind: RequestIntervalKind| t.elapsed(kind) == 0,
    {
        RequestTracker {
            handle_request: 0,
            postgres_begin_transaction: 0,
            process_request: 0,
            postgres_commit_transaction: 0,
        }
    }

    /// Adds `nanos` to the time kept for `kind`; the other phases stay.
    pub fn record_duration(&mut self, kind: RequestIntervalKind, nanos: i64)
        ensures
            final(self).elapsed(kind) == saturating_sum(old(self).elapsed(kind), nanos as int),
            forall|other: RequestIntervalKind|
                other != kind ==> final(self).elapsed(other) == old(self).elapsed(other),
    {
        match kind {
            RequestIntervalKind::HandleRequest => {
                self.handle_request = saturating(self.handle_request, nanos);
            },
            RequestIntervalKind::PostgresBeginTransaction => {
                self.postgres_begin_transaction = saturating(self.postgres_begin_transaction, nanos);
            },
            RequestIntervalKind::ProcessRequest => {
                self.process_request = saturating(self.process_request, nanos);
            },
            RequestIntervalKind::PostgresCommitTransaction => {
                self.postgres_commit_transaction = saturating(
                    self.postgres_commit_transaction,
                    nanos,
                );
            },
        }
    }

    /// The nanoseconds kept for `kind`.
    pub fn get_interval_elapsed_time(&self, kind: RequestIntervalKind) -> (ns: i64)
        ensures
            ns == self.elapsed(kind),
    {
        match kind {
            RequestIntervalKind::HandleRequest => self.handle_request,
            RequestIntervalKind::PostgresBeginTransaction => self.postgres_begin_transaction,
            RequestIntervalKind::ProcessRequest => self.process_request,
            RequestIntervalKind::PostgresCommitTransaction => self.postgres_commit_transaction,
        }
    }
}

fn saturating(a: i64, b: i64) -> (r: i64)
    ensures
        r == saturating_sum(a as int, b as int),
{
    let wide: i128 = a as i128 + b as i128;
    if wide > i64::MAX as i128 {
        i64::MAX
    } else if wide < i64::MIN as i128 {
        i64::MIN
    } else {
        wide as i64
    }
}

} // verus!

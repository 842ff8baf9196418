//! Retrying a failed probe.
//!
//! A probe makes a first attempt; while the last attempt failed and retries are
//! left, it waits [`RETRY_BACKOFF_MS`] and tries again. The first success is
//! reported as it is; when every attempt failed, the last failure is reported with
//! a message that names the number of retries and keeps the earlier messages.
//! Every report carries the number of attempts made and the time spent overall.
//!
//! The caller runs the attempts and reads the clock; these functions decide.

use vstd::prelude::*;

use crate::model::{PingRecord, PingResult};
use crate::text::{decimal, decimal_text, occurs_at, opt_view, push_text};

verus! {

broadcast use vstd::string::group_string_axioms;

/// The wait before each retry, in milliseconds.
pub const RETRY_BACKOFF_MS: u64 = 200;

/// A probe that failed so far and will be retried.
pub struct RetryState {
    retry_count: u32,
    retries_done: u32,
    last: PingResult,
}

impl RetryState {
    /// Retries allowed in all.
    pub closed spec fn spec_retry_count(&self) -> u32 {
        self.retry_count
    }

    /// Retries made so far.
    pub closed spec fn spec_retries_done(&self) -> u32 {
        self.retries_done
    }

    /// The record of the last attempt.
    pub closed spec fn spec_last(&self) -> PingRecord {
        self.last@
    }

    #[verifier::type_invariant]
    closed spec fn retries_left(&self) -> bool {
        &&& self.retries_done < self.retry_count
        &&& !self.last.ok
    }

    /// Retries made so far.
    pub fn retries_done(&self) -> (r: u32)
        ensures
            r == self.spec_retries_done(),
    {
        self.retries_done
    }

    /// Retries allowed in all.
    pub fn retry_count(&self) -> (r: u32)
        ensures
            r == self.spec_retry_count(),
    {
        self.retry_count
    }
}

/// What the probe does next.
pub enum RetryStep {
    /// The probe is over, with this report.
    Done(PingResult),
    /// Wait [`RETRY_BACKOFF_MS`], attempt again, and report it with [`after_retry`].
    Backoff(RetryState),
    /// No retry is left: read the clock and report with [`retries_exhausted`].
    Exhausted(PingResult),
}

/// The mathematical content of a [`RetryStep`].
pub enum StepRecord {
    Done(PingRecord),
    Backoff { retry_count: u32, retries_done: u32, last: PingRecord },
    Exhausted(PingRecord),
}

impl View for RetryStep {
    type V = StepRecord;

    open spec fn view(&self) -> StepRecord {
        match self {
            RetryStep::Done(r) => StepRecord::Done(r@),
            RetryStep::Backoff(s) => StepRecord::Backoff {
                retry_count: s.spec_retry_count(),
                retries_done: s.spec_retries_done(),
                last: s.spec_last(),
            },
            RetryStep::Exhausted(r) => StepRecord::Exhausted(r@),
        }
    }
}

/// `r` as the `n`-th attempt, with the overall time `overall_ms`.
pub open spec fn stamped(r: PingRecord, n: u32, overall_ms: u64) -> PingRecord {
    PingRecord { attempts: n, overall_ms: Some(overall_ms), ..r }
}

/// The error text of a record, empty when there is none.
pub open spec fn error_text(r: PingRecord) -> Seq<char> {
    match r.error {
        Some(e) => e,
        None => Seq::empty(),
    }
}

/// The message of the failure after `n` retries: the newest error, then the
/// message before it.
pub open spec fn retry_failed_message(n: u32, current: Seq<char>, previous: Seq<char>) -> Seq<char> {
    "重试"@ + decimal(n as nat) + "次仍失败："@ + current + " (初次: "@ + previous + ")"@
}

/// What follows the first attempt, which gave `r` after `overall_ms`.
pub open spec fn after_first_of(r: PingRecord, overall_ms: u64, retry_count: u32) -> StepRecord {
    let r1 = stamped(r, 1, overall_ms);
    if r1.ok || retry_count == 0 {
        StepRecord::Done(r1)
    } else {
        StepRecord::Backoff { retry_count, retries_done: 0, last: r1 }
    }
}

/// What follows a retry that gave `r` after `overall_ms`, when `done` retries were
/// made before it and the last attempt gave `last`.
pub open spec fn after_retry_of(
    retry_count: u32,
    done: u32,
    last: PingRecord,
    r: PingRecord,
    overall_ms: u64,
) -> StepRecord {
    let n = (done + 1) as u32;
    let r1 = stamped(r, (n + 1) as u32, overall_ms);
    if r1.ok {
        StepRecord::Done(r1)
    } else {
        let failed = PingRecord {
            error: Some(retry_failed_message(n, error_text(r), error_text(last))),
            ..r1
        };
        if n < retry_count {
            StepRecord::Backoff { retry_count, retries_done: n, last: failed }
        } else {
            StepRecord::Exhausted(failed)
        }
    }
}

/// Decides after the first attempt, which gave `r` after `overall_ms` (counted from
/// the start of the probe), with `retry_count` retries allowed.
pub fn after_first_attempt(r: PingResult, overall_ms: u64, retry_count: u32) -> (s: RetryStep)
    ensures
        s@ == after_first_of(r@, overall_ms, retry_count),
{
    let mut r = r;
    r.attempts = 1;
    r.overall_ms = Some(overall_ms);
    if r.ok || retry_count == 0 {
        RetryStep::Done(r)
    } else {
        RetryStep::Backoff(RetryState { retry_count, retries_done: 0, last: r })
    }
}

/// Decides after a retry of `state`, which gave `r` after `overall_ms` (counted from
/// the start of the probe).
pub fn after_retry(state: RetryState, r: PingResult, overall_ms: u64) -> (s: RetryStep)
    requires
        state.spec_retries_done() < u32::MAX - 1,
    ensures
        s@ == after_retry_of(
            state.spec_retry_count(),
            state.spec_retries_done(),
            state.spec_last(),
            r@,
            overall_ms,
        ),
{
    proof {
        use_type_invariant(&state);
    }
    let RetryState { retry_count, retries_done, last } = state;
    let n = retries_done + 1;
    let mut r = r;
    r.attempts = n + 1;
    r.overall_ms = Some(overall_ms);
    if r.ok {
        return RetryStep::Done(r);
    }
    let mut e = String::new();
    push_text(&mut e, "重试");
    let count = decimal_text(n as u64);
    push_text(&mut e, count.as_str());
    push_text(&mut e, "次仍失败：");
    match &r.error {
        Some(cur) => push_text(&mut e, cur.as_str()),
        None => {},
    }
    push_text(&mut e, " (初次: ");
    match &last.error {
        Some(prev) => push_text(&mut e, prev.as_str()),
        None => {},
    }
    push_text(&mut e, ")");
    proof {
        assert(opt_view(Some(e)) == Some(retry_failed_message(n, error_text(r@), error_text(last@))));
    }
    r.error = Some(e);
    if n < retry_count {
        RetryStep::Backoff(RetryState { retry_count, retries_done: n, last: r })
    } else {
        RetryStep::Exhausted(r)
    }
}

/// `r` with the overall time `overall_ms`.
pub open spec fn with_overall(r: PingRecord, overall_ms: u64) -> PingRecord {
    PingRecord { overall_ms: Some(overall_ms), ..r }
}

/// The report of a probe whose retries ran out, with the overall time `overall_ms`.
pub fn retries_exhausted(last: PingResult, overall_ms: u64) -> (r: PingResult)
    ensures
        r@ == with_overall(last@, overall_ms),
{
    let mut last = last;
    last.overall_ms = Some(overall_ms);
    last
}

// ---------------------------------------------------------------------------
// The whole probe
// ---------------------------------------------------------------------------

/// The report reached from `step` when the following attempts give `outcomes` (each
/// a record and the overall time after it) and the clock reads `finish_ms` when the
/// retries run out; `None` when `outcomes` runs out first.
pub open spec fn drive(step: StepRecord, outcomes: Seq<(PingRecord, u64)>, finish_ms: u64) -> Option<
    PingRecord,
>
    decreases outcomes.len(),
{
    match step {
        StepRecord::Done(r) => Some(r),
        StepRecord::Exhausted(r) => Some(with_overall(r, finish_ms)),
        StepRecord::Backoff { retry_count, retries_done, last } => {
            if outcomes.len() == 0 {
                None
            } else {
                drive(
                    after_retry_of(retry_count, retries_done, last, outcomes[0].0, outcomes[0].1),
                    outcomes.drop_first(),
                    finish_ms,
                )
            }
        },
    }
}

/// The report of a probe whose first attempt gives `first` and whose retries give
/// `retries`, with `retry_count` retries allowed.
pub open spec fn probe_report(
    first: (PingRecord, u64),
    retries: Seq<(PingRecord, u64)>,
    retry_count: u32,
    finish_ms: u64,
) -> Option<PingRecord> {
    drive(after_first_of(first.0, first.1, retry_count), retries, finish_ms)
}

proof fn lemma_drive_all_failed(
    retry_count: u32,
    done: u32,
    last: PingRecord,
    outcomes: Seq<(PingRecord, u64)>,
    finish_ms: u64,
)
    requires
        done < retry_count < u32::MAX,
        outcomes.len() >= retry_count - done,
        forall|i: int| 0 <= i < outcomes.len() ==> !(#[trigger] outcomes[i]).0.ok,
    ensures
        drive(StepRecord::Backoff { retry_count, retries_done: done, last }, outcomes, finish_ms)
            matches Some(r) && r.attempts == retry_count + 1 && !r.ok && r.overall_ms == Some(
            finish_ms,
        ) && exists|prev: Seq<char>|
            r.error == Some(
                #[trigger] retry_failed_message(
                    retry_count,
                    error_text(outcomes[retry_count - done - 1].0),
                    prev,
                ),
            ),
    decreases outcomes.len(),
{
    let next = after_retry_of(retry_count, done, last, outcomes[0].0, outcomes[0].1);
    assert(!outcomes[0].0.ok);
    let n = (done + 1) as u32;
    assert(drive(StepRecord::Backoff { retry_count, retries_done: done, last }, outcomes, finish_ms)
        == drive(next, outcomes.drop_first(), finish_ms));
    if n < retry_count {
        assert(next == StepRecord::Backoff { retry_count, retries_done: n, last: next->last });
        let rest = outcomes.drop_first();
        assert forall|i: int| 0 <= i < rest.len() implies !(#[trigger] rest[i]).0.ok by {
            assert(rest[i] == outcomes[i + 1]);
        }
        lemma_drive_all_failed(retry_count, n, next->last, rest, finish_ms);
        assert(rest[retry_count - n - 1] == outcomes[retry_count - done - 1]);
    } else {
        assert(retry_count - done - 1 == 0);
        let r = next->Exhausted_0;
        assert(next == StepRecord::Exhausted(r));
        assert(drive(next, outcomes.drop_first(), finish_ms) == Some(with_overall(r, finish_ms)));
        assert(r.error == Some(
            retry_failed_message(retry_count, error_text(outcomes[0].0), error_text(last)),
        ));
    }
}

proof fn lemma_drive_first_success(
    retry_count: u32,
    done: u32,
    last: PingRecord,
    outcomes: Seq<(PingRecord, u64)>,
    finish_ms: u64,
    k: int,
)
    requires
        done < retry_count < u32::MAX,
        0 <= k < outcomes.len(),
        k < retry_count - done,
        outcomes[k].0.ok,
        forall|i: int| 0 <= i < k ==> !(#[trigger] outcomes[i]).0.ok,
    ensures
        drive(StepRecord::Backoff { retry_count, retries_done: done, last }, outcomes, finish_ms)
            == Some(stamped(outcomes[k].0, (done + k + 2) as u32, outcomes[k].1)),
    decreases outcomes.len(),
{
    let next = after_retry_of(retry_count, done, last, outcomes[0].0, outcomes[0].1);
    assert(drive(StepRecord::Backoff { retry_count, retries_done: done, last }, outcomes, finish_ms)
        == drive(next, outcomes.drop_first(), finish_ms));
    if k > 0 {
        let n = (done + 1) as u32;
        assert(next == StepRecord::Backoff { retry_count, retries_done: n, last: next->last });
        assert(!outcomes[0].0.ok);
        let rest = outcomes.drop_first();
        assert forall|i: int| 0 <= i < k - 1 implies !(#[trigger] rest[i]).0.ok by {
            assert(rest[i] == outcomes[i + 1]);
        }
        assert(rest[k - 1] == outcomes[k]);
        lemma_drive_first_success(retry_count, n, next->last, rest, finish_ms, k - 1);
    }
}

/// A probe whose attempts all fail makes exactly `retry_count + 1` attempts, and its
/// report names the number of retries and the newest error, followed by the earlier
/// messages.
pub proof fn probe_fails_after_all_retries(
    first: (PingRecord, u64),
    retries: Seq<(PingRecord, u64)>,
    retry_count: u32,
    finish_ms: u64,
)
    requires
        retry_count < u32::MAX,
        !first.0.ok,
        retries.len() >= retry_count,
        forall|i: int| 0 <= i < retries.len() ==> !(#[trigger] retries[i]).0.ok,
    ensures
        probe_report(first, retries, retry_count, finish_ms) matches Some(r) && r.attempts
            == retry_count + 1 && !r.ok,
        retry_count == 0 ==> probe_report(first, retries, retry_count, finish_ms) == Some(
            stamped(first.0, 1, first.1),
        ),
        retry_count > 0 ==> (probe_report(first, retries, retry_count, finish_ms) matches Some(r)
            && r.overall_ms == Some(finish_ms) && exists|prev: Seq<char>|
            r.error == Some(
                #[trigger] retry_failed_message(
                    retry_count,
                    error_text(retries[retry_count - 1].0),
                    prev,
                ),
            )),
{
    if retry_count > 0 {
        lemma_drive_all_failed(retry_count, 0, stamped(first.0, 1, first.1), retries, finish_ms);
    }
}

/// A probe reports its first successful attempt as it is, numbered by its position,
/// when that attempt is within the retries allowed.
pub proof fn probe_reports_first_success(
    first: (PingRecord, u64),
    retries: Seq<(PingRecord, u64)>,
    retry_count: u32,
    finish_ms: u64,
    k: int,
)
    requires
        retry_count < u32::MAX,
        0 <= k < retries.len(),
        k < retry_count,
        !first.0.ok,
        retries[k].0.ok,
        forall|i: int| 0 <= i < k ==> !(#[trigger] retries[i]).0.ok,
    ensures
        probe_report(first, retries, retry_count, finish_ms) == Some(
            stamped(retries[k].0, (k + 2) as u32, retries[k].1),
        ),
{
    lemma_drive_first_success(retry_count, 0, stamped(first.0, 1, first.1), retries, finish_ms, k);
}

/// A successful first attempt ends the probe at once.
pub proof fn probe_first_success_is_final(
    first: (PingRecord, u64),
    retries: Seq<(PingRecord, u64)>,
    retry_count: u32,
    finish_ms: u64,
)
    requires
        first.0.ok,
    ensures
        probe_report(first, retries, retry_count, finish_ms) == Some(stamped(first.0, 1, first.1)),
{
}

proof fn lemma_drive_attempts_bounded(
    retry_count: u32,
    done: u32,
    last: PingRecord,
    outcomes: Seq<(PingRecord, u64)>,
    finish_ms: u64,
)
    requires
        done < retry_count < u32::MAX,
    ensures
        drive(StepRecord::Backoff { retry_count, retries_done: done, last }, outcomes, finish_ms)
            matches Some(r) ==> done + 2 <= r.attempts <= retry_count + 1,
    decreases outcomes.len(),
{
    if outcomes.len() > 0 {
        let next = after_retry_of(retry_count, done, last, outcomes[0].0, outcomes[0].1);
        let n = (done + 1) as u32;
        assert(drive(StepRecord::Backoff { retry_count, retries_done: done, last }, outcomes, finish_ms)
            == drive(next, outcomes.drop_first(), finish_ms));
        if !outcomes[0].0.ok && n < retry_count {
            assert(next == StepRecord::Backoff { retry_count, retries_done: n, last: next->last });
            lemma_drive_attempts_bounded(retry_count, n, next->last, outcomes.drop_first(), finish_ms);
        }
    }
}

/// A probe makes at least one and at most `retry_count + 1` attempts.
pub proof fn probe_attempts_bounded(
    first: (PingRecord, u64),
    retries: Seq<(PingRecord, u64)>,
    retry_count: u32,
    finish_ms: u64,
)
    requires
        retry_count < u32::MAX,
    ensures
        probe_report(first, retries, retry_count, finish_ms) matches Some(r) ==> 1 <= r.attempts
            <= retry_count + 1,
{
    if !first.0.ok && retry_count > 0 {
        lemma_drive_attempts_bounded(
            retry_count,
            0,
            stamped(first.0, 1, first.1),
            retries,
            finish_ms,
        );
    }
}

/// `t` occurs somewhere in `s`.
pub open spec fn occurs_in(t: Seq<char>, s: Seq<char>) -> bool {
    exists|i: int| #[trigger] occurs_at(s, t, i)
}

proof fn lemma_occurs_in_self(s: Seq<char>)
    ensures
        occurs_in(s, s),
{
    assert(s.subrange(0, s.len() as int) =~= s);
    assert(occurs_at(s, s, 0));
}

proof fn lemma_occurs_trans(x: Seq<char>, y: Seq<char>, z: Seq<char>)
    requires
        occurs_in(x, y),
        occurs_in(y, z),
    ensures
        occurs_in(x, z),
{
    let i = choose|i: int| occurs_at(y, x, i);
    let j = choose|j: int| occurs_at(z, y, j);
    assert(z.subrange(i + j, i + j + x.len()) =~= y.subrange(i, i + x.len()));
    assert(occurs_at(z, x, i + j));
}

proof fn lemma_message_keeps_errors(n: u32, current: Seq<char>, previous: Seq<char>)
    ensures
        occurs_in(current, retry_failed_message(n, current, previous)),
        occurs_in(previous, retry_failed_message(n, current, previous)),
{
    let head = "重试"@ + decimal(n as nat) + "次仍失败："@;
    let m = retry_failed_message(n, current, previous);
    assert(m == head + current + " (初次: "@ + previous + ")"@);
    assert(m.subrange(head.len() as int, (head.len() + current.len()) as int) =~= current);
    assert(occurs_at(m, current, head.len() as int));
    let k: int = (head.len() + current.len() + " (初次: "@.len()) as int;
    assert(m.subrange(k, k + previous.len()) =~= previous);
    assert(occurs_at(m, previous, k));
}

proof fn lemma_drive_keeps_errors(
    retry_count: u32,
    done: u32,
    last: PingRecord,
    outcomes: Seq<(PingRecord, u64)>,
    finish_ms: u64,
)
    requires
        done < retry_count < u32::MAX,
        outcomes.len() >= retry_count - done,
        forall|i: int| 0 <= i < outcomes.len() ==> !(#[trigger] outcomes[i]).0.ok,
    ensures
        drive(StepRecord::Backoff { retry_count, retries_done: done, last }, outcomes, finish_ms)
            matches Some(r) && occurs_in(error_text(last), error_text(r)) && forall|i: int|
            0 <= i < retry_count - done ==> occurs_in(
                error_text(#[trigger] outcomes[i].0),
                error_text(r),
            ),
    decreases outcomes.len(),
{
    let next = after_retry_of(retry_count, done, last, outcomes[0].0, outcomes[0].1);
    assert(!outcomes[0].0.ok);
    let n = (done + 1) as u32;
    let msg = retry_failed_message(n, error_text(outcomes[0].0), error_text(last));
    lemma_message_keeps_errors(n, error_text(outcomes[0].0), error_text(last));
    assert(drive(StepRecord::Backoff { retry_count, retries_done: done, last }, outcomes, finish_ms)
        == drive(next, outcomes.drop_first(), finish_ms));
    if n < retry_count {
        assert(next == StepRecord::Backoff { retry_count, retries_done: n, last: next->last });
        assert(error_text(next->last) == msg);
        let rest = outcomes.drop_first();
        assert forall|i: int| 0 <= i < rest.len() implies !(#[trigger] rest[i]).0.ok by {
            assert(rest[i] == outcomes[i + 1]);
        }
        lemma_drive_keeps_errors(retry_count, n, next->last, rest, finish_ms);
        let r = drive(next, rest, finish_ms).unwrap();
        lemma_occurs_trans(error_text(last), msg, error_text(r));
        lemma_occurs_trans(error_text(outcomes[0].0), msg, error_text(r));
        assert forall|i: int| 0 <= i < retry_count - done implies occurs_in(
            error_text(#[trigger] outcomes[i].0),
            error_text(r),
        ) by {
            if i > 0 {
                assert(rest[i - 1] == outcomes[i]);
            }
        }
    } else {
        let r = next->Exhausted_0;
        assert(next == StepRecord::Exhausted(r));
        assert(error_text(with_overall(r, finish_ms)) == msg);
    }
}

/// A probe whose attempts all fail keeps, in its report, the error of every attempt.
pub proof fn probe_keeps_every_error(
    first: (PingRecord, u64),
    retries: Seq<(PingRecord, u64)>,
    retry_count: u32,
    finish_ms: u64,
)
    requires
        retry_count < u32::MAX,
        !first.0.ok,
        retries.len() >= retry_count,
        forall|i: int| 0 <= i < retries.len() ==> !(#[trigger] retries[i]).0.ok,
    ensures
        probe_report(first, retries, retry_count, finish_ms) matches Some(r) && occurs_in(
            error_text(first.0),
            error_text(r),
        ) && forall|i: int|
            0 <= i < retry_count ==> occurs_in(error_text(#[trigger] retries[i].0), error_text(r)),
{
    if retry_count > 0 {
        lemma_drive_keeps_errors(retry_count, 0, stamped(first.0, 1, first.1), retries, finish_ms);
    } else {
        lemma_occurs_in_self(error_text(first.0));
    }
}

} // verus!

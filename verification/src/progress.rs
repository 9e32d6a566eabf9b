//! The shared progress counter: how many bytes of one transfer have been
//! handed over so far.
//!
//! The transfer is the only writer and the renderer the only reader. The
//! counter never goes back and never passes the size of the file, whatever is
//! reported to it.

use vstd::prelude::*;

verus! {

/// A progress counter as contracts see it.
pub struct ProgressView {
    /// Bytes transferred so far.
    pub transferred: nat,
    /// Size of the file in bytes.
    pub total: nat,
}

impl ProgressView {
    /// The counter is within the size of the file.
    pub open spec fn wf(self) -> bool {
        self.transferred <= self.total
    }

    /// The counter after the transfer has reported `current` bytes: the
    /// report is capped at the size of the file, and a report that lies
    /// behind the counter leaves it where it is.
    pub open spec fn after_report(self, current: nat) -> ProgressView {
        let capped = if current <= self.total { current } else { self.total };
        ProgressView {
            transferred: if capped >= self.transferred { capped } else { self.transferred },
            total: self.total,
        }
    }

    /// The counter after a run of reports, oldest first.
    pub open spec fn after_reports(self, reports: Seq<nat>) -> ProgressView
        decreases reports.len(),
    {
        if reports.len() == 0 {
            self
        } else {
            self.after_reports(reports.drop_last()).after_report(reports.last())
        }
    }

    /// The value a reader finds after the first `n` of `reports`.
    pub open spec fn observed(self, reports: Seq<nat>, n: int) -> nat {
        self.after_reports(reports.subrange(0, n)).transferred
    }

    /// The share of the file that has been transferred, in whole percent,
    /// rounded down. An empty file is complete from the start.
    pub open spec fn percent(self) -> nat {
        if self.total == 0 {
            100
        } else {
            (self.transferred * 100 / self.total) as nat
        }
    }

    /// The whole file has been transferred.
    pub open spec fn is_complete(self) -> bool {
        self.transferred >= self.total
    }
}

/// One report moves the counter forward or not at all, keeps it within the
/// size of the file, and is taken as it stands when the transfer reports in
/// order and within bounds.
pub proof fn lemma_report_is_monotone_and_bounded(state: ProgressView, current: nat)
    requires
        state.wf(),
    ensures
        state.after_report(current).wf(),
        state.after_report(current).total == state.total,
        state.after_report(current).transferred >= state.transferred,
        state.transferred <= current <= state.total ==> state.after_report(current).transferred
            == current,
{
}

/// A run of reports leaves a valid counter for the same file.
pub proof fn lemma_reports_keep_counter_valid(state: ProgressView, reports: Seq<nat>)
    requires
        state.wf(),
    ensures
        state.after_reports(reports).wf(),
        state.after_reports(reports).total == state.total,
        state.after_reports(reports).transferred >= state.transferred,
    decreases reports.len(),
{
    if reports.len() > 0 {
        lemma_reports_keep_counter_valid(state, reports.drop_last());
    }
}

/// During one transfer the values found in the counter never decrease and
/// never pass the size of the file: of two observations the later one is at
/// least the earlier one, and both are within the total. This holds for
/// every run of reports, ordered or not.
pub proof fn lemma_observations_non_decreasing_and_bounded(
    state: ProgressView,
    reports: Seq<nat>,
    earlier: int,
    later: int,
)
    requires
        state.wf(),
        0 <= earlier <= later <= reports.len(),
    ensures
        state.observed(reports, earlier) <= state.observed(reports, later),
        state.observed(reports, later) <= state.total,
    decreases later - earlier,
{
    lemma_reports_keep_counter_valid(state, reports.subrange(0, later));
    if earlier < later {
        lemma_observations_non_decreasing_and_bounded(state, reports, earlier, later - 1);
        assert(reports.subrange(0, later).drop_last() =~= reports.subrange(0, later - 1));
        lemma_reports_keep_counter_valid(state, reports.subrange(0, later - 1));
    }
}

/// A whole percentage never passes one hundred, and is one hundred exactly
/// when the file is complete.
pub proof fn lemma_percent_range(state: ProgressView)
    requires
        state.wf(),
    ensures
        state.percent() <= 100,
        state.percent() == 100 <==> state.is_complete(),
{
    if state.total > 0 {
        let t = state.transferred as int;
        let n = state.total as int;
        assert(t * 100 / n <= 100) by (nonlinear_arith)
            requires
                0 <= t <= n,
                n > 0,
        ;
        assert(t * 100 / n == 100 <==> t == n) by (nonlinear_arith)
            requires
                0 <= t <= n,
                n > 0,
        ;
        assert(0 <= t * 100 / n) by (nonlinear_arith)
            requires
                0 <= t,
                n > 0,
        ;
    }
}

/// The progress of one transfer. A value of this type is a snapshot: the
/// reader copies it out of the shared place and works on the copy.
#[derive(Clone, Copy, Debug, PartialEq, Eq)]
pub struct ProgressState {
    transferred: u64,
    total: u64,
}

impl View for ProgressState {
    type V = ProgressView;

    closed spec fn view(&self) -> ProgressView {
        ProgressView { transferred: self.transferred as nat, total: self.total as nat }
    }
}

impl ProgressState {
    #[verifier::type_invariant]
    closed spec fn within_total(self) -> bool {
        self.transferred <= self.total
    }

    /// The counter at the start of a transfer of `total` bytes: nothing
    /// transferred yet.
    pub fn new(total: u64) -> (state: ProgressState)
        ensures
            state@ == (ProgressView { transferred: 0, total: total as nat }),
    {
        ProgressState { transferred: 0, total }
    }

    /// Takes a report of the transfer: `current` bytes handed over so far.
    pub fn record(&mut self, current: u64)
        ensures
            final(self)@ == old(self)@.after_report(current as nat),
            final(self)@.wf(),
            final(self)@.transferred >= old(self)@.transferred,
    {
        proof {
            use_type_invariant(&*self);
        }
        let capped: u64 = if current <= self.total { current } else { self.total };
        if capped >= self.transferred {
            *self = ProgressState { transferred: capped, total: self.total };
        }
    }

    /// Marks the whole file as transferred.
    pub fn complete(&mut self)
        ensures
            final(self)@ == (ProgressView { transferred: old(self)@.total, total: old(self)@.total }),
            final(self)@.is_complete(),
    {
        *self = ProgressState { transferred: self.total, total: self.total };
    }

    /// Bytes transferred so far; never more than the size of the file.
    pub fn transferred(&self) -> (bytes: u64)
        ensures
            bytes == self@.transferred,
            self@.wf(),
    {
        proof {
            use_type_invariant(self);
        }
        self.transferred
    }

    /// Size of the file in bytes.
    pub fn total(&self) -> (bytes: u64)
        ensures
            bytes == self@.total,
    {
        self.total
    }

    /// Bytes still to be transferred.
    pub fn remaining(&self) -> (bytes: u64)
        ensures
            bytes == self@.total - self@.transferred,
    {
        proof {
            use_type_invariant(self);
        }
        self.total - self.transferred
    }

    /// Whether the whole file has been transferred.
    pub fn is_complete(&self) -> (done: bool)
        ensures
            done == self@.is_complete(),
            done <==> self@.transferred == self@.total,
    {
        proof {
            use_type_invariant(self);
        }
        self.transferred >= self.total
    }

    /// The share of the file that has been transferred, in whole percent.
    pub fn percent(&self) -> (share: u64)
        ensures
            share == self@.percent(),
            share <= 100,
    {
        proof {
            use_type_invariant(self);
            lemma_percent_range(self@);
        }
        if self.total == 0 {
            100
        } else {
            let scaled: u128 = self.transferred as u128 * 100;
            (scaled / self.total as u128) as u64
        }
    }
}

} // verus!

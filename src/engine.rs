use vstd::prelude::*;
use crate::site::{
    is_probe_result, probe_result, resolved_url, spec_outcome_status, spec_resolved_url,
    CheckResult, FetchOutcome, ProbeStatus, SiteData,
};

verus! {

/// Smallest accepted parallelism limit.
pub const MIN_THREADS: usize = 1;

/// Parallelism limits must stay below this bound.
pub const THREADS_BOUND: usize = 100;

/// Why a run was refused before any probe went out.
#[derive(Clone, Copy, Debug, PartialEq, Eq, Structural)]
pub enum RunError {
    EmptyUsername,
    ThreadsOutOfRange,
}

/// A probe handed out for dispatch: the catalog index and the URL to fetch.
pub struct Probe {
    pub index: usize,
    pub url: String,
}

/// Progress event for one finished probe.
pub struct ProgressUpdate {
    pub site: String,
    pub status: String,
    pub url: String,
    pub logo_url: String,
    pub error: Option<String>,
    pub is_taken: bool,
    pub completed: usize,
    pub total: usize,
}

/// Terminal event of a run: every probe has finished.
pub struct RunFinished {
    pub total: usize,
}

/// Number of `true` entries.
pub open spec fn count_true(s: Seq<bool>) -> nat
    decreases s.len(),
{
    if s.len() == 0 {
        0
    } else {
        count_true(s.drop_last()) + if s.last() {
            1nat
        } else {
            0nat
        }
    }
}

proof fn lemma_count_true_le(s: Seq<bool>)
    ensures
        count_true(s) <= s.len(),
    decreases s.len(),
{
    if s.len() > 0 {
        lemma_count_true_le(s.drop_last());
    }
}

proof fn lemma_count_true_full(s: Seq<bool>, i: int)
    requires
        0 <= i < s.len(),
        !s[i],
    ensures
        count_true(s) < s.len(),
    decreases s.len(),
{
    lemma_count_true_le(s.drop_last());
    if i < s.len() - 1 {
        lemma_count_true_full(s.drop_last(), i);
    }
}

proof fn lemma_count_true_set(s: Seq<bool>, i: int)
    requires
        0 <= i < s.len(),
        !s[i],
    ensures
        count_true(s.update(i, true)) == count_true(s) + 1,
    decreases s.len(),
{
    let t = s.update(i, true);
    if i == s.len() - 1 {
        assert(t.drop_last() =~= s.drop_last());
    } else {
        assert(t.drop_last() =~= s.drop_last().update(i, true));
        lemma_count_true_set(s.drop_last(), i);
    }
}

/// The state of one run: which probes went out, which finished, and the
/// results in completion order.
pub struct CheckRun {
    username: String,
    sites: Vec<SiteData>,
    threads: usize,
    batch_start: usize,
    dispatched: usize,
    finished: Vec<bool>,
    order: Vec<usize>,
    results: Vec<CheckResult>,
    outcomes: Ghost<Seq<FetchOutcome>>,
    closed: bool,
}

impl CheckRun {
    pub closed spec fn username_view(&self) -> Seq<char> {
        self.username@
    }

    pub closed spec fn sites_view(&self) -> Seq<SiteData> {
        self.sites@
    }

    /// Number of catalog entries.
    pub open spec fn total(&self) -> nat {
        self.sites_view().len()
    }

    pub closed spec fn threads_view(&self) -> nat {
        self.threads as nat
    }

    /// First catalog index of the current batch.
    pub closed spec fn batch_start_view(&self) -> nat {
        self.batch_start as nat
    }

    /// Probes with an index below this have been handed out.
    pub closed spec fn dispatched_view(&self) -> nat {
        self.dispatched as nat
    }

    pub closed spec fn finished_view(&self) -> Seq<bool> {
        self.finished@
    }

    /// Catalog index of each result, in completion order.
    pub closed spec fn order_view(&self) -> Seq<usize> {
        self.order@
    }

    pub closed spec fn results_view(&self) -> Seq<CheckResult> {
        self.results@
    }

    /// The outcome each result was built from, in completion order.
    pub closed spec fn outcomes_view(&self) -> Seq<FetchOutcome> {
        self.outcomes@
    }

    /// The terminal event has been handed out.
    pub closed spec fn closed_view(&self) -> bool {
        self.closed
    }

    /// Number of finished probes.
    pub open spec fn completed_count(&self) -> nat {
        self.results_view().len()
    }

    /// The probe for catalog entry `i` was handed out and has no result yet.
    pub open spec fn in_flight(&self, i: int) -> bool {
        0 <= i < self.dispatched_view() && !self.finished_view()[i]
    }

    /// Every handed-out probe has its result.
    pub open spec fn batch_settled(&self) -> bool {
        forall|i: int| 0 <= i < self.dispatched_view() ==> self.finished_view()[i]
    }

    /// Well-formedness: the bookkeeping of dispatched, finished and recorded
    /// probes agrees, and each result is the probe result of its catalog entry.
    pub closed spec fn wf(&self) -> bool {
        let n = self.sites@.len();
        &&& MIN_THREADS <= self.threads < THREADS_BOUND
        &&& self.finished@.len() == n
        &&& self.batch_start <= self.dispatched <= n
        &&& self.dispatched - self.batch_start <= self.threads
        &&& forall|i: int| 0 <= i < self.batch_start ==> self.finished@[i]
        &&& forall|i: int| self.dispatched <= i < n ==> !self.finished@[i]
        &&& self.order@.len() == self.results@.len()
        &&& self.outcomes@.len() == self.results@.len()
        &&& self.results@.len() == count_true(self.finished@)
        &&& forall|j: int|
            0 <= j < self.order@.len() ==> self.order@[j] < n && self.finished@[#[trigger] self.order@[j] as int]
        &&& forall|j: int, k: int|
            0 <= j < self.order@.len() && 0 <= k < self.order@.len() && j != k ==> self.order@[j] != self.order@[k]
        &&& forall|i: int|
            0 <= i < n && #[trigger] self.finished@[i] ==> exists|j: int| 0 <= j < self.order@.len() && self.order@[j] == i
        &&& forall|j: int|
            0 <= j < self.results@.len() ==> is_probe_result(
                #[trigger] self.results@[j],
                self.sites@[self.order@[j] as int],
                self.username@,
                self.outcomes@[j],
            )
        &&& self.closed ==> self.results@.len() == n
    }
}

impl CheckRun {
    /// Starts a run over `sites` for `username`, dispatching at most `threads`
    /// probes per batch. Refuses an empty username, then a limit outside 1..=99.
    pub fn new(username: String, sites: Vec<SiteData>, threads: usize) -> (r: Result<
        CheckRun,
        RunError,
    >)
        ensures
            username@.len() == 0 ==> r == Err::<CheckRun, RunError>(RunError::EmptyUsername),
            username@.len() > 0 && !(MIN_THREADS <= threads < THREADS_BOUND) ==> r == Err::<
                CheckRun,
                RunError,
            >(RunError::ThreadsOutOfRange),
            username@.len() > 0 && MIN_THREADS <= threads < THREADS_BOUND ==> r is Ok,
            r matches Ok(run) ==> {
                &&& run.wf()
                &&& run.username_view() == username@
                &&& run.sites_view() == sites@
                &&& run.threads_view() == threads
                &&& run.dispatched_view() == 0
                &&& run.batch_start_view() == 0
                &&& run.completed_count() == 0
                &&& !run.closed_view()
                &&& forall|i: int| 0 <= i < sites@.len() ==> !run.finished_view()[i]
            },
    {
        if username.as_str().unicode_len() == 0 {
            return Err(RunError::EmptyUsername);
        }
        if threads < MIN_THREADS || threads >= THREADS_BOUND {
            return Err(RunError::ThreadsOutOfRange);
        }
        let n = sites.len();
        let mut finished: Vec<bool> = Vec::new();
        let mut i: usize = 0;
        while i < n
            invariant
                i <= n,
                finished@.len() == i,
                forall|k: int| 0 <= k < i ==> !finished@[k],
            decreases n - i,
        {
            finished.push(false);
            i = i + 1;
        }
        proof {
            assert(count_true(finished@) == 0) by {
                lemma_count_zero(finished@);
            }
        }
        Ok(CheckRun {
            username,
            sites,
            threads,
            batch_start: 0,
            dispatched: 0,
            finished,
            order: Vec::new(),
            results: Vec::new(),
            outcomes: Ghost(Seq::empty()),
            closed: false,
        })
    }

    /// Number of catalog entries.
    pub fn total_count(&self) -> (r: usize)
        ensures
            r == self.total(),
    {
        self.sites.len()
    }

    /// Number of probes that have finished.
    pub fn completed(&self) -> (r: usize)
        requires
            self.wf(),
        ensures
            r == self.completed_count(),
    {
        self.results.len()
    }

    /// Every probe of the catalog has finished.
    pub fn is_complete(&self) -> (r: bool)
        requires
            self.wf(),
        ensures
            r == (self.completed_count() == self.total()),
            self.completed_count() <= self.total(),
    {
        proof {
            lemma_count_true_le(self.finished@);
        }
        self.results.len() == self.sites.len()
    }
    /// Hands out the next batch: the following `threads` catalog entries (fewer
    /// at the end of the catalog), in catalog order. Nothing is handed out while
    /// a probe of the current batch has no result, nor once the catalog is spent.
    pub fn next_batch(&mut self) -> (r: Option<Vec<Probe>>)
        requires
            old(self).wf(),
        ensures
            final(self).wf(),
            r is Some <==> (old(self).batch_settled() && old(self).dispatched_view() < old(self).total()),
            r is None ==> *final(self) == *old(self),
            r matches Some(batch) ==> {
                let start = old(self).dispatched_view();
                let end = if start + old(self).threads_view() <= old(self).total() {
                    start + old(self).threads_view()
                } else {
                    old(self).total()
                };
                &&& final(self).batch_start_view() == start
                &&& final(self).dispatched_view() == end
                &&& batch@.len() == end - start
                &&& forall|k: int|
                    0 <= k < batch@.len() ==> {
                        &&& (#[trigger] batch@[k]).index == start + k
                        &&& batch@[k].url@ == spec_resolved_url(
                            old(self).sites_view()[start + k],
                            old(self).username_view(),
                        )
                    }
                &&& final(self).username_view() == old(self).username_view()
                &&& final(self).sites_view() == old(self).sites_view()
                &&& final(self).threads_view() == old(self).threads_view()
                &&& final(self).finished_view() == old(self).finished_view()
                &&& final(self).results_view() == old(self).results_view()
                &&& final(self).order_view() == old(self).order_view()
                &&& final(self).outcomes_view() == old(self).outcomes_view()
                &&& final(self).closed_view() == old(self).closed_view()
            },
    {
        let n = self.sites.len();
        if self.dispatched >= n {
            return None;
        }
        let mut i: usize = self.batch_start;
        while i < self.dispatched
            invariant
                *self == *old(self),
                self.wf(),
                self.batch_start <= i <= self.dispatched <= n,
                n == self.finished@.len(),
                forall|k: int| 0 <= k < i ==> self.finished@[k],
                forall|k: int| 0 <= k < self.batch_start ==> self.finished@[k],
            decreases self.dispatched - i,
        {
            if !self.finished[i] {
                assert(!old(self).finished_view()[i as int]);
                return None;
            }
            i = i + 1;
        }
        let start = self.dispatched;
        let end = if self.threads <= n - start {
            start + self.threads
        } else {
            n
        };
        let mut batch: Vec<Probe> = Vec::new();
        let mut k: usize = start;
        while k < end
            invariant
                *self == *old(self),
                self.wf(),
                start <= k <= end <= n,
                n == self.sites@.len(),
                batch@.len() == k - start,
                forall|m: int|
                    0 <= m < batch@.len() ==> {
                        &&& (#[trigger] batch@[m]).index == start + m
                        &&& batch@[m].url@ == spec_resolved_url(
                            self.sites@[start + m],
                            self.username@,
                        )
                    },
            decreases end - k,
        {
            let url = resolved_url(&self.sites[k], self.username.as_str());
            batch.push(Probe { index: k, url });
            k = k + 1;
        }
        let ghost old_self = *self;
        self.batch_start = start;
        self.dispatched = end;
        proof {
            assert forall|j: int| 0 <= j < self.results@.len() implies is_probe_result(
                #[trigger] self.results@[j],
                self.sites@[self.order@[j] as int],
                self.username@,
                self.outcomes@[j],
            ) by {
                assert(is_probe_result(
                    old_self.results@[j],
                    old_self.sites@[old_self.order@[j] as int],
                    old_self.username@,
                    old_self.outcomes@[j],
                ));
            }
            assert forall|i: int|
                0 <= i < self.sites@.len() && #[trigger] self.finished@[i] implies exists|j: int|
                0 <= j < self.order@.len() && self.order@[j] == i by {
                assert(old_self.wf());
                assert(old_self.finished@[i]);
                let j = choose|j: int| 0 <= j < old_self.order@.len() && old_self.order@[j] == i;
                assert(self.order@[j] == i);
            }
        }
        Some(batch)
    }

    /// Records the outcome of the in-flight probe for catalog entry `index` and
    /// returns its progress event; an index that is not in flight changes nothing.
    pub fn complete(&mut self, index: usize, outcome: FetchOutcome) -> (r: Option<ProgressUpdate>)
        requires
            old(self).wf(),
        ensures
            final(self).wf(),
            r is Some <==> old(self).in_flight(index as int),
            r is None ==> *final(self) == *old(self),
            r matches Some(u) ==> {
                let res = final(self).results_view().last();
                &&& is_probe_result(
                    res,
                    old(self).sites_view()[index as int],
                    old(self).username_view(),
                    outcome,
                )
                &&& final(self).results_view() == old(self).results_view().push(res)
                &&& final(self).order_view() == old(self).order_view().push(index)
                &&& final(self).outcomes_view() == old(self).outcomes_view().push(outcome)
                &&& final(self).finished_view() == old(self).finished_view().update(index as int, true)
                &&& u.site@ == res.site@
                &&& u.status@ == res.status@
                &&& u.url@ == res.url@
                &&& u.logo_url@ == res.logo_url@
                &&& u.error == res.error
                &&& u.is_taken == (spec_outcome_status(
                    old(self).sites_view()[index as int],
                    outcome,
                ) == ProbeStatus::Taken)
                &&& u.completed == old(self).completed_count() + 1
                &&& u.completed == final(self).completed_count()
                &&& u.completed <= u.total
                &&& u.total == old(self).total()
                &&& final(self).username_view() == old(self).username_view()
                &&& final(self).sites_view() == old(self).sites_view()
                &&& final(self).threads_view() == old(self).threads_view()
                &&& final(self).batch_start_view() == old(self).batch_start_view()
                &&& final(self).dispatched_view() == old(self).dispatched_view()
                &&& final(self).closed_view() == old(self).closed_view()
                &&& forall|i: int|
                    i != index ==> (#[trigger] final(self).in_flight(i) == old(self).in_flight(i))
            },
    {
        if index >= self.dispatched || self.finished[index] {
            return None;
        }
        let ghost g = outcome;
        let ghost old_order = self.order@;
        let ghost old_finished = self.finished@;
        let is_taken = match &outcome {
            FetchOutcome::Response { code, body } => crate::site::classify(
                &self.sites[index],
                *code,
                body.as_str(),
            ) == ProbeStatus::Taken,
            FetchOutcome::Failed { .. } => false,
        };
        let res = probe_result(&self.sites[index], self.username.as_str(), outcome);
        let update = ProgressUpdate {
            site: res.site.clone(),
            status: res.status.clone(),
            url: res.url.clone(),
            logo_url: res.logo_url.clone(),
            error: clone_error(&res.error),
            is_taken,
            completed: 0,
            total: self.sites.len(),
        };
        proof {
            lemma_count_true_set(self.finished@, index as int);
            lemma_count_true_le(self.finished@.update(index as int, true));
        }
        self.finished.set(index, true);
        self.order.push(index);
        self.results.push(res);
        self.outcomes = Ghost(self.outcomes@.push(g));
        proof {
            assert forall|i: int|
                0 <= i < self.sites@.len() && #[trigger] self.finished@[i] implies exists|j: int|
                0 <= j < self.order@.len() && self.order@[j] == i by {
                if i == index {
                    assert(self.order@[old_order.len() as int] == i);
                } else {
                    assert(old_finished[i]);
                    let j = choose|j: int| 0 <= j < old_order.len() && old_order[j] == i;
                    assert(self.order@[j] == i);
                }
            }
        }
        let completed = self.results.len();
        Some(ProgressUpdate { completed, ..update })
    }

    /// Hands out the terminal event once every probe has finished; only once.
    pub fn finish(&mut self) -> (r: Option<RunFinished>)
        requires
            old(self).wf(),
        ensures
            final(self).wf(),
            r is Some <==> (!old(self).closed_view() && old(self).completed_count() == old(self).total()),
            r is None ==> *final(self) == *old(self),
            r matches Some(f) ==> {
                &&& f.total == old(self).total()
                &&& final(self).closed_view()
                &&& final(self).completed_count() == old(self).completed_count()
                &&& final(self).results_view() == old(self).results_view()
                &&& final(self).sites_view() == old(self).sites_view()
            },
    {
        if self.closed || self.results.len() != self.sites.len() {
            return None;
        }
        let ghost old_self = *self;
        self.closed = true;
        proof {
            assert forall|j: int| 0 <= j < self.results@.len() implies is_probe_result(
                #[trigger] self.results@[j],
                self.sites@[self.order@[j] as int],
                self.username@,
                self.outcomes@[j],
            ) by {
                assert(is_probe_result(
                    old_self.results@[j],
                    old_self.sites@[old_self.order@[j] as int],
                    old_self.username@,
                    old_self.outcomes@[j],
                ));
            }
            assert forall|i: int|
                0 <= i < self.sites@.len() && #[trigger] self.finished@[i] implies exists|j: int|
                0 <= j < self.order@.len() && self.order@[j] == i by {
                assert(old_self.finished@[i]);
                let j = choose|j: int| 0 <= j < old_self.order@.len() && old_self.order@[j] == i;
                assert(self.order@[j] == i);
            }
        }
        Some(RunFinished { total: self.sites.len() })
    }
    /// Hands over the results, in completion order.
    pub fn into_results(self) -> (r: Vec<CheckResult>)
        requires
            self.wf(),
        ensures
            r@ == self.results_view(),
    {
        self.results
    }
}

/// The bookkeeping of a well-formed run, as callers see it: the limit is in
/// range, one finished flag per catalog entry, everything before the current
/// batch finished, nothing after the handed-out probes finished, and one
/// recorded result (with its entry and outcome) per finished probe.
pub proof fn law_run_shape(run: &CheckRun)
    requires
        run.wf(),
    ensures
        MIN_THREADS <= run.threads_view() < THREADS_BOUND,
        run.finished_view().len() == run.total(),
        run.batch_start_view() <= run.dispatched_view() <= run.total(),
        run.dispatched_view() - run.batch_start_view() <= run.threads_view(),
        forall|i: int| 0 <= i < run.batch_start_view() ==> #[trigger] run.finished_view()[i],
        forall|i: int|
            run.dispatched_view() <= i < run.total() ==> !#[trigger] run.finished_view()[i],
        run.order_view().len() == run.completed_count(),
        run.outcomes_view().len() == run.completed_count(),
        run.completed_count() <= run.total(),
        run.closed_view() ==> run.completed_count() == run.total(),
{
    lemma_count_true_le(run.finished@);
}

/// A run that is not complete can always go on: either the next batch can be
/// handed out, or some handed-out probe is still waiting for its result.
pub proof fn law_run_progress(run: &CheckRun)
    requires
        run.wf(),
        run.completed_count() < run.total(),
    ensures
        (run.batch_settled() && run.dispatched_view() < run.total()) || exists|i: int|
            #[trigger] run.in_flight(i),
{
    if !run.batch_settled() {
        let i = choose|i: int| 0 <= i < run.dispatched_view() && !run.finished_view()[i];
        assert(run.in_flight(i));
    } else if run.dispatched_view() == run.total() {
        assert(run.finished@.len() == run.total());
        assert forall|i: int| 0 <= i < run.finished@.len() implies run.finished@[i] by {
            assert(run.finished_view()[i]);
        }
        lemma_count_true_all(run.finished@);
    }
}

proof fn lemma_count_true_all(s: Seq<bool>)
    requires
        forall|i: int| 0 <= i < s.len() ==> s[i],
    ensures
        count_true(s) == s.len(),
    decreases s.len(),
{
    if s.len() > 0 {
        lemma_count_true_all(s.drop_last());
    }
}

/// Catalog index `i` occurs in `order`.
pub open spec fn holds_index(order: Seq<usize>, i: int) -> bool {
    exists|j: int| 0 <= j < order.len() && order[j] == i
}

/// Once every probe of a run has finished, its results correspond one to one
/// with the catalog: as many results as entries, each entry exactly once, and
/// each result is the probe result of its entry.
pub proof fn law_one_result_per_site(run: &CheckRun)
    requires
        run.wf(),
        run.completed_count() == run.total(),
    ensures
        run.results_view().len() == run.total(),
        run.order_view().len() == run.total(),
        run.outcomes_view().len() == run.total(),
        forall|i: int| 0 <= i < run.total() ==> #[trigger] holds_index(run.order_view(), i),
        forall|j: int, k: int|
            0 <= j < run.total() && 0 <= k < run.total() && j != k ==> run.order_view()[j] != run.order_view()[k],
        forall|j: int|
            0 <= j < run.total() ==> run.order_view()[j] < run.total() && is_probe_result(
                #[trigger] run.results_view()[j],
                run.sites_view()[run.order_view()[j] as int],
                run.username_view(),
                run.outcomes_view()[j],
            ),
{
    assert forall|i: int| 0 <= i < run.total() implies #[trigger] holds_index(run.order_view(), i) by {
        if !run.finished@[i] {
            lemma_count_true_full(run.finished@, i);
        }
        assert(run.finished@[i]);
    }
}

/// Everything a run hands out when each probe completes in dispatch order.
pub struct RunReport {
    pub results: Vec<CheckResult>,
    pub events: Vec<ProgressUpdate>,
    pub finished: RunFinished,
}

/// Reverses a list of outcomes.
fn reversed(v: Vec<FetchOutcome>) -> (r: Vec<FetchOutcome>)
    ensures
        r@.len() == v@.len(),
        forall|k: int| 0 <= k < v@.len() ==> #[trigger] r@[k] == v@[v@.len() - 1 - k],
{
    let ghost orig = v@;
    let mut v = v;
    let mut r: Vec<FetchOutcome> = Vec::new();
    while v.len() > 0
        invariant
            r@.len() + v@.len() == orig.len(),
            v@ == orig.subrange(0, v@.len() as int),
            forall|k: int| 0 <= k < r@.len() ==> #[trigger] r@[k] == orig[orig.len() - 1 - k],
        decreases v@.len(),
    {
        let x = v.pop().unwrap();
        r.push(x);
    }
    r
}

/// Runs a whole catalog batch by batch, where `outcomes[i]` is what fetching
/// entry `i` produced and the probes of a batch complete in dispatch order.
/// Every entry yields its result whatever the other outcomes are, one
/// progress event follows each result with a completed count that rises by
/// one up to the catalog size, and the terminal event carries that size.
pub fn run_batches(
    username: String,
    sites: Vec<SiteData>,
    threads: usize,
    outcomes: Vec<FetchOutcome>,
) -> (r: Result<RunReport, RunError>)
    requires
        outcomes@.len() == sites@.len(),
    ensures
        username@.len() == 0 ==> (r matches Err(e) && e == RunError::EmptyUsername),
        username@.len() > 0 && !(MIN_THREADS <= threads < THREADS_BOUND) ==> (r matches Err(e)
            && e == RunError::ThreadsOutOfRange),
        username@.len() > 0 && MIN_THREADS <= threads < THREADS_BOUND ==> r is Ok,
        r matches Ok(rep) ==> {
            &&& rep.results@.len() == sites@.len()
            &&& forall|i: int|
                0 <= i < sites@.len() ==> is_probe_result(
                    #[trigger] rep.results@[i],
                    sites@[i],
                    username@,
                    outcomes@[i],
                )
            &&& rep.events@.len() == sites@.len()
            &&& forall|k: int|
                0 <= k < rep.events@.len() ==> {
                    &&& (#[trigger] rep.events@[k]).completed == k + 1
                    &&& rep.events@[k].total == sites@.len()
                    &&& rep.events@[k].site@ == rep.results@[k].site@
                    &&& rep.events@[k].status@ == rep.results@[k].status@
                    &&& rep.events@[k].url@ == rep.results@[k].url@
                    &&& rep.events@[k].logo_url@ == rep.results@[k].logo_url@
                    &&& rep.events@[k].error == rep.results@[k].error
                    &&& rep.events@[k].is_taken == (spec_outcome_status(sites@[k], outcomes@[k])
                        == ProbeStatus::Taken)
                }
            &&& rep.finished.total == sites@.len()
        },
{
    let n = sites.len();
    let ghost sites_v = sites@;
    let ghost outs = outcomes@;
    let ghost user = username@;
    let mut run = match CheckRun::new(username, sites, threads) {
        Ok(run) => run,
        Err(e) => {
            return Err(e);
        },
    };
    let mut rev = reversed(outcomes);
    let mut events: Vec<ProgressUpdate> = Vec::new();
    loop
        invariant
            run.wf(),
            run.sites_view() == sites_v,
            run.username_view() == user,
            n == sites_v.len(),
            outs.len() == n,
            !run.closed_view(),
            run.dispatched_view() == run.completed_count(),
            run.batch_settled(),
            run.order_view().len() == run.completed_count(),
            run.outcomes_view().len() == run.completed_count(),
            forall|j: int| 0 <= j < run.completed_count() ==> #[trigger] run.order_view()[j] == j,
            forall|j: int| 0 <= j < run.completed_count() ==> #[trigger] run.outcomes_view()[j] == outs[j],
            forall|j: int|
                0 <= j < run.completed_count() ==> is_probe_result(
                    #[trigger] run.results_view()[j],
                    sites_v[j],
                    user,
                    outs[j],
                ),
            events@.len() == run.completed_count(),
            forall|k: int|
                0 <= k < events@.len() ==> {
                    &&& (#[trigger] events@[k]).completed == k + 1
                    &&& events@[k].total == n
                    &&& events@[k].site@ == run.results_view()[k].site@
                    &&& events@[k].status@ == run.results_view()[k].status@
                    &&& events@[k].url@ == run.results_view()[k].url@
                    &&& events@[k].logo_url@ == run.results_view()[k].logo_url@
                    &&& events@[k].error == run.results_view()[k].error
                    &&& events@[k].is_taken == (spec_outcome_status(sites_v[k], outs[k])
                        == ProbeStatus::Taken)
                },
            rev@.len() == n - run.completed_count(),
            forall|k: int| 0 <= k < rev@.len() ==> #[trigger] rev@[k] == outs[n - 1 - k],
        ensures
            run.dispatched_view() == n,
        decreases n - run.dispatched_view(),
    {
        let batch = match run.next_batch() {
            Some(b) => b,
            None => {
                break;
            },
        };
        let ghost start = run.batch_start_view();
        let mut k: usize = 0;
        while k < batch.len()
            invariant
                run.wf(),
                run.sites_view() == sites_v,
                run.username_view() == user,
                n == sites_v.len(),
                outs.len() == n,
                !run.closed_view(),
                run.batch_start_view() == start,
                run.dispatched_view() == start + batch@.len(),
                run.dispatched_view() <= n,
                run.completed_count() == start + k,
                k <= batch@.len(),
                forall|m: int| 0 <= m < batch@.len() ==> (#[trigger] batch@[m]).index == start + m,
                forall|i: int| 0 <= i < n ==> (#[trigger] run.finished_view()[i] <==> i < start + k),
                run.order_view().len() == run.completed_count(),
                run.outcomes_view().len() == run.completed_count(),
                forall|j: int| 0 <= j < run.completed_count() ==> #[trigger] run.order_view()[j] == j,
                forall|j: int| 0 <= j < run.completed_count() ==> #[trigger] run.outcomes_view()[j] == outs[j],
                forall|j: int|
                    0 <= j < run.completed_count() ==> is_probe_result(
                        #[trigger] run.results_view()[j],
                        sites_v[j],
                        user,
                        outs[j],
                    ),
                events@.len() == run.completed_count(),
                forall|k: int|
                    0 <= k < events@.len() ==> {
                        &&& (#[trigger] events@[k]).completed == k + 1
                        &&& events@[k].total == n
                        &&& events@[k].site@ == run.results_view()[k].site@
                        &&& events@[k].status@ == run.results_view()[k].status@
                        &&& events@[k].url@ == run.results_view()[k].url@
                        &&& events@[k].logo_url@ == run.results_view()[k].logo_url@
                        &&& events@[k].error == run.results_view()[k].error
                        &&& events@[k].is_taken == (spec_outcome_status(sites_v[k], outs[k])
                            == ProbeStatus::Taken)
                    },
                rev@.len() == n - run.completed_count(),
                forall|k: int| 0 <= k < rev@.len() ==> #[trigger] rev@[k] == outs[n - 1 - k],
            decreases batch@.len() - k,
        {
            let idx = batch[k].index;
            let o = rev.pop().unwrap();
            assert(o == outs[start + k]);
            let u = run.complete(idx, o);
            match u {
                Some(u) => {
                    events.push(u);
                },
                None => {},
            }
            k = k + 1;
        }
    }
    proof {
        law_one_result_per_site(&run);
    }
    let finished = match run.finish() {
        Some(f) => f,
        None => RunFinished { total: n },
    };
    let results = run.into_results();
    Ok(RunReport { results, events, finished })
}

/// Copies an optional error text.
fn clone_error(e: &Option<String>) -> (r: Option<String>)
    ensures
        r == *e,
{
    match e {
        Some(s) => Some(s.clone()),
        None => None,
    }
}

proof fn lemma_count_zero(s: Seq<bool>)
    requires
        forall|i: int| 0 <= i < s.len() ==> !s[i],
    ensures
        count_true(s) == 0,
    decreases s.len(),
{
    if s.len() > 0 {
        lemma_count_zero(s.drop_last());
    }
}

} // verus!

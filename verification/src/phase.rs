//! One acquisition phase: a permit-bounded pool of workers over the items of
//! one category.
//!
//! A [`Phase`] makes every decision of the pool and performs none of the
//! work. Its driver asks [`Phase::try_start`] for the next item as long as a
//! permit is free, runs the fetch (and, for natives, the extraction) of each
//! item handed out, and reports each finished unit to [`Phase::complete`],
//! which releases the permit and says which progress notice to emit.

use crate::errors::{ProtonError, ProtonErrorView};
use crate::types::{
    DownloadItem,
    DownloadItemView,
    DownloadProgress,
    DownloadProgressInfo,
    DownloadProgressInfoView,
    DownloadProgressType,
    DownloadProgressView,
};
use vstd::prelude::*;

verus! {

/// The mathematical value of the outcome of one step of a unit of work.
pub open spec fn outcome_view(r: Result<(), ProtonError>) -> Result<(), ProtonErrorView> {
    match r {
        Ok(_) => Ok(()),
        Err(e) => Err(e@),
    }
}

/// The mathematical value of the items of a phase.
pub open spec fn items_view(items: Seq<DownloadItem>) -> Seq<DownloadItemView> {
    Seq::new(items.len(), |i: int| items[i]@)
}

/// The mathematical state of a phase.
pub struct PhaseView {
    /// The category all items of the phase belong to.
    pub category: DownloadProgressType,
    /// The identifier of the version being acquired.
    pub version: Seq<char>,
    /// The items of the phase, in the order they are handed out.
    pub items: Seq<DownloadItemView>,
    /// The size of the permit pool, fixed when the phase was created.
    pub permits: nat,
    /// How many items have been handed to a worker so far.
    pub started: nat,
    /// The items whose workers hold a permit right now.
    pub in_flight: Set<nat>,
    /// The completed-counter: how many units got as far as their notice.
    pub completed: nat,
    /// How many units ended without a notice.
    pub uncounted: nat,
    /// The error of the first unit that failed, in order of completion.
    pub first_error: Option<ProtonErrorView>,
}

impl PhaseView {
    /// How many items the phase has.
    pub open spec fn total(self) -> nat {
        self.items.len()
    }

    /// The invariant of a phase: no more workers in flight than permits,
    /// nothing in flight that was not handed out, every unit handed out
    /// either in flight, counted or ended without a notice, and an error on
    /// record if a unit ended without a notice.
    pub open spec fn wf(self) -> bool {
        &&& self.started <= self.total()
        &&& self.in_flight.finite()
        &&& self.in_flight.len() <= self.permits
        &&& forall|i: nat| self.in_flight.contains(i) ==> i < self.started
        &&& self.completed + self.uncounted + self.in_flight.len() == self.started
        &&& self.uncounted > 0 ==> self.first_error is Some
    }

    /// The state of a phase that has started nothing.
    pub open spec fn fresh(
        category: DownloadProgressType,
        version: Seq<char>,
        items: Seq<DownloadItemView>,
        permits: nat,
    ) -> PhaseView {
        PhaseView {
            category,
            version,
            items,
            permits,
            started: 0,
            in_flight: Set::empty(),
            completed: 0,
            uncounted: 0,
            first_error: None,
        }
    }

    /// Whether an item is left and a permit is free.
    pub open spec fn can_start(self) -> bool {
        self.started < self.total() && self.in_flight.len() < self.permits
    }

    /// The state after the next item was handed to a worker.
    pub open spec fn start(self) -> PhaseView {
        if self.can_start() {
            PhaseView {
                started: self.started + 1,
                in_flight: self.in_flight.insert(self.started),
                ..self
            }
        } else {
            self
        }
    }

    /// Whether a report about item `index` can be accepted: the worker of
    /// that item holds a permit.
    pub open spec fn can_complete(self, index: nat) -> bool {
        self.in_flight.contains(index)
    }

    /// Whether a unit with these outcomes gets as far as its progress notice:
    /// it does unless its post-processing failed.
    pub open spec fn is_counted(self, index: nat, post: Result<(), ProtonErrorView>) -> bool {
        self.can_complete(index) && post is Ok
    }

    /// The result of a unit of work: the error of its post-processing if that
    /// failed, else the result of its fetch.
    pub open spec fn unit_result(
        fetch: Result<(), ProtonErrorView>,
        post: Result<(), ProtonErrorView>,
    ) -> Result<(), ProtonErrorView> {
        match post {
            Err(e) => Err(e),
            Ok(_) => fetch,
        }
    }

    /// The progress notice of a counted unit.
    pub open spec fn notice(self, index: nat) -> DownloadProgressView {
        DownloadProgressView {
            current: self.completed + 1,
            total: self.total(),
            info: DownloadProgressInfoView {
                name: self.items[index as int].display_name,
                version: self.version,
            },
            download_type: self.category,
        }
    }

    /// The state after the worker of item `index` reported its outcomes.
    pub open spec fn complete(
        self,
        index: nat,
        fetch: Result<(), ProtonErrorView>,
        post: Result<(), ProtonErrorView>,
    ) -> PhaseView {
        if !self.can_complete(index) {
            self
        } else {
            PhaseView {
                in_flight: self.in_flight.remove(index),
                completed: if post is Ok {
                    self.completed + 1
                } else {
                    self.completed
                },
                uncounted: if post is Ok {
                    self.uncounted
                } else {
                    self.uncounted + 1
                },
                first_error: match (self.first_error, Self::unit_result(fetch, post)) {
                    (None, Err(e)) => Some(e),
                    (earlier, _) => earlier,
                },
                ..self
            }
        }
    }

    /// Whether every item was handed out and every worker has reported.
    pub open spec fn is_drained(self) -> bool {
        self.started == self.total() && self.in_flight.len() == 0
    }

    /// Whether the temporary directory of the run is to be removed now.
    pub open spec fn temp_cleanup_due(self) -> bool {
        self.category == DownloadProgressType::Native && self.is_drained()
    }

    /// The result of a drained phase: its first error, if any.
    pub open spec fn result(self) -> Result<(), ProtonErrorView> {
        match self.first_error {
            Some(e) => Err(e),
            None => Ok(()),
        }
    }
}

/// One thing that can happen to a phase.
pub enum PhaseStep {
    /// The driver asked for the next item.
    Start,
    /// The worker of item `index` reported its outcomes.
    Complete { index: nat, fetch: Result<(), ProtonErrorView>, post: Result<(), ProtonErrorView> },
}

impl PhaseView {
    /// The state after one step.
    pub open spec fn step(self, step: PhaseStep) -> PhaseView {
        match step {
            PhaseStep::Start => self.start(),
            PhaseStep::Complete { index, fetch, post } => self.complete(index, fetch, post),
        }
    }

    /// The state after a sequence of steps, taken in order.
    pub open spec fn run(self, steps: Seq<PhaseStep>) -> PhaseView
        decreases steps.len(),
    {
        if steps.len() == 0 {
            self
        } else {
            self.run(steps.drop_last()).step(steps.last())
        }
    }

    /// The progress notice that a step taken in this state emits, if any.
    pub open spec fn emitted(self, step: PhaseStep) -> Option<DownloadProgressView> {
        match step {
            PhaseStep::Start => None,
            PhaseStep::Complete { index, fetch, post } => if self.is_counted(index, post) {
                Some(self.notice(index))
            } else {
                None
            },
        }
    }

    /// The progress notices emitted by a sequence of steps, in order.
    pub open spec fn notices(self, steps: Seq<PhaseStep>) -> Seq<DownloadProgressView>
        decreases steps.len(),
    {
        if steps.len() == 0 {
            Seq::empty()
        } else {
            let earlier = self.notices(steps.drop_last());
            match self.run(steps.drop_last()).emitted(steps.last()) {
                Some(notice) => earlier.push(notice),
                None => earlier,
            }
        }
    }
}

/// One step keeps the invariant of a phase, and changes neither its items
/// nor the size of its pool.
pub proof fn lemma_step_keeps_invariant(s: PhaseView, step: PhaseStep)
    requires
        s.wf(),
    ensures
        s.step(step).wf(),
        s.step(step).permits == s.permits,
        s.step(step).items == s.items,
        s.step(step).completed >= s.completed,
{
}

/// The concurrency bound: whatever happens to a phase, and in whatever
/// order, never more workers are in flight than the pool had permits when
/// the phase was created, and the pool is never resized.
pub proof fn lemma_concurrency_bound(s: PhaseView, steps: Seq<PhaseStep>)
    requires
        s.wf(),
    ensures
        s.run(steps).wf(),
        s.run(steps).permits == s.permits,
        s.run(steps).in_flight.len() <= s.permits,
        s.run(steps).items == s.items,
    decreases steps.len(),
{
    if steps.len() > 0 {
        lemma_concurrency_bound(s, steps.drop_last());
        lemma_step_keeps_invariant(s.run(steps.drop_last()), steps.last());
    }
}

/// The completed-counter never decreases: of two moments of a phase, the
/// later one has counted at least as many units.
pub proof fn lemma_progress_monotonic(s: PhaseView, steps: Seq<PhaseStep>, earlier: int, later: int)
    requires
        s.wf(),
        0 <= earlier <= later <= steps.len(),
    ensures
        s.run(steps.take(earlier)).completed <= s.run(steps.take(later)).completed,
    decreases later - earlier,
{
    if earlier < later {
        lemma_progress_monotonic(s, steps, earlier, later - 1);
        lemma_concurrency_bound(s, steps.take(later - 1));
        assert(steps.take(later).drop_last() == steps.take(later - 1));
    }
}

/// The notices of a phase count up: each one carries the number of units
/// counted so far, one more than the notice before it, and the number of
/// items of the phase; as many notices were emitted as units were counted.
pub proof fn lemma_notices_count_up(s: PhaseView, steps: Seq<PhaseStep>)
    requires
        s.wf(),
    ensures
        s.notices(steps).len() == s.run(steps).completed - s.completed,
        forall|k: int|
            0 <= k < s.notices(steps).len() ==> {
                &&& (#[trigger] s.notices(steps)[k]).current == s.completed + k + 1
                &&& s.notices(steps)[k].total == s.total()
                &&& s.notices(steps)[k].download_type == s.category
            },
    decreases steps.len(),
{
    if steps.len() > 0 {
        lemma_notices_count_up(s, steps.drop_last());
        lemma_concurrency_bound(s, steps.drop_last());
        lemma_run_keeps_identity(s, steps.drop_last());
    }
}

/// Whatever happens to a phase, its category and its version stay.
pub proof fn lemma_run_keeps_identity(s: PhaseView, steps: Seq<PhaseStep>)
    ensures
        s.run(steps).category == s.category,
        s.run(steps).version == s.version,
        s.run(steps).items == s.items,
    decreases steps.len(),
{
    if steps.len() > 0 {
        lemma_run_keeps_identity(s, steps.drop_last());
    }
}

/// A phase that ends in success has counted every one of its items: it has
/// emitted exactly as many notices as it has items.
pub proof fn lemma_success_counts_every_item(s: PhaseView)
    requires
        s.wf(),
        s.is_drained(),
        s.result() is Ok,
    ensures
        s.completed == s.total(),
{
}

/// A permit-bounded worker pool over the items of one category.
pub struct Phase {
    category: DownloadProgressType,
    version: String,
    items: Vec<DownloadItem>,
    permits: usize,
    started: usize,
    /// For each item, whether its worker holds a permit.
    running: Vec<bool>,
    in_flight: usize,
    completed: usize,
    uncounted: usize,
    first_error: Option<ProtonError>,
}

/// The items that are marked as running.
spec fn running_set(running: Seq<bool>) -> Set<nat> {
    Set::new(|i: nat| i < running.len() && running[i as int])
}

impl View for Phase {
    type V = PhaseView;

    closed spec fn view(&self) -> PhaseView {
        PhaseView {
            category: self.category,
            version: self.version@,
            items: items_view(self.items@),
            permits: self.permits as nat,
            started: self.started as nat,
            in_flight: running_set(self.running@),
            completed: self.completed as nat,
            uncounted: self.uncounted as nat,
            first_error: match self.first_error {
                Some(e) => Some(e@),
                None => None,
            },
        }
    }
}

impl Phase {
    /// The invariant of a phase: that of its state, and a count of the
    /// workers in flight that is right.
    pub closed spec fn wf(&self) -> bool {
        &&& self@.wf()
        &&& self.running@.len() == self.items@.len()
        &&& self.in_flight == running_set(self.running@).len()
    }

    /// A phase in order has a state in order.
    pub proof fn lemma_wf(&self)
        requires
            self.wf(),
        ensures
            self@.wf(),
    {
    }

    /// A phase over `items` whose pool has `permits` permits: the snapshot of
    /// the concurrency limit taken now. Later changes of the limit do not
    /// reach this phase.
    pub fn new(
        category: DownloadProgressType,
        version: String,
        items: Vec<DownloadItem>,
        permits: usize,
    ) -> (phase: Phase)
        ensures
            phase.wf(),
            phase@ == PhaseView::fresh(category, version@, items_view(items@), permits as nat),
    {
        let mut running: Vec<bool> = Vec::new();
        let mut i: usize = 0;
        while i < items.len()
            invariant
                i <= items@.len(),
                running@.len() == i,
                forall|j: int| 0 <= j < i ==> !running@[j],
            decreases items@.len() - i,
        {
            running.push(false);
            i += 1;
        }
        assert(running_set(running@) =~= Set::empty());
        Phase {
            category,
            version,
            items,
            permits,
            started: 0,
            running,
            in_flight: 0,
            completed: 0,
            uncounted: 0,
            first_error: None,
        }
    }

    /// How many items the phase has.
    pub fn total(&self) -> (n: usize)
        ensures
            n == self@.total(),
    {
        self.items.len()
    }

    /// The size of the permit pool.
    pub fn permits(&self) -> (n: usize)
        ensures
            n == self@.permits,
    {
        self.permits
    }

    /// How many workers hold a permit right now.
    pub fn in_flight(&self) -> (n: usize)
        requires
            self.wf(),
        ensures
            n == self@.in_flight.len(),
            n <= self@.permits,
    {
        self.in_flight
    }

    /// How many units got as far as their progress notice.
    pub fn completed(&self) -> (n: usize)
        ensures
            n == self@.completed,
    {
        self.completed
    }

    /// The item with the given index.
    pub fn item(&self, index: usize) -> (item: &DownloadItem)
        requires
            index < self@.total(),
        ensures
            item@ == self@.items[index as int],
    {
        &self.items[index]
    }

    /// Takes a permit for the next item, if an item is left and a permit is
    /// free, and returns that item's index. Items are handed out in order,
    /// each one once.
    pub fn try_start(&mut self) -> (index: Option<usize>)
        requires
            old(self).wf(),
        ensures
            final(self).wf(),
            final(self)@ == old(self)@.start(),
            match index {
                Some(i) => old(self)@.can_start() && i == old(self)@.started,
                None => !old(self)@.can_start(),
            },
    {
        if self.started < self.items.len() && self.in_flight < self.permits {
            let index = self.started;
            let ghost before = self.running@;
            self.running.set(index, true);
            self.started = self.started + 1;
            self.in_flight = self.in_flight + 1;
            assert(running_set(self.running@) =~= running_set(before).insert(index as nat));
            Some(index)
        } else {
            None
        }
    }

    /// Takes the report of the worker of item `index`: `fetch` is what the
    /// fetcher returned, `post` what the post-processing returned (`Ok` where
    /// the category has none). Releases the worker's permit. A unit whose
    /// post-processing succeeded is counted and gets a progress notice,
    /// whatever its fetch returned; the notice is returned for the driver to
    /// emit. A report about an item whose worker holds no permit (it was
    /// never handed out, or has reported before) changes nothing.
    pub fn complete(
        &mut self,
        index: usize,
        fetch: Result<(), ProtonError>,
        post: Result<(), ProtonError>,
    ) -> (notice: Option<DownloadProgress>)
        requires
            old(self).wf(),
        ensures
            final(self).wf(),
            final(self)@ == old(self)@.complete(
                index as nat,
                outcome_view(fetch),
                outcome_view(post),
            ),
            match notice {
                Some(n) => old(self)@.is_counted(index as nat, outcome_view(post)) && n@ == old(
                    self,
                )@.notice(index as nat),
                None => !old(self)@.is_counted(index as nat, outcome_view(post)),
            },
            notice is Some <==> final(self)@.completed == old(self)@.completed + 1,
    {
        if index >= self.running.len() || !self.running[index] {
            return None;
        }
        let ghost before = self.running@;
        self.running.set(index, false);
        assert(running_set(self.running@) =~= running_set(before).remove(index as nat));
        self.in_flight = self.in_flight - 1;
        match post {
            Err(e) => {
                self.uncounted = self.uncounted + 1;
                if self.first_error.is_none() {
                    self.first_error = Some(e);
                }
                None
            },
            Ok(_) => {
                self.completed = self.completed + 1;
                match fetch {
                    Err(e) => {
                        if self.first_error.is_none() {
                            self.first_error = Some(e);
                        }
                    },
                    Ok(_) => {},
                }
                Some(
                    DownloadProgress {
                        current: self.completed,
                        total: self.items.len(),
                        info: DownloadProgressInfo {
                            name: self.items[index].display_name.clone(),
                            version: self.version.clone(),
                        },
                        download_type: self.category,
                    },
                )
            },
        }
    }

    /// Takes the report that the worker of item `index` did not run to its
    /// end; `detail` is the runtime's description. The worker's permit is
    /// released, the unit is not counted, and the phase fails with a
    /// `JoinError` unless a unit failed before.
    pub fn abandon(&mut self, index: usize, detail: String)
        requires
            old(self).wf(),
        ensures
            final(self).wf(),
            final(self)@ == old(self)@.complete(
                index as nat,
                Ok(()),
                Err(ProtonErrorView::JoinError(detail@)),
            ),
    {
        let _ = self.complete(index, Ok(()), Err(ProtonError::JoinError(detail)));
    }

    /// Whether the temporary directory of the run is to be removed now: the
    /// phase is the native one and it is drained, whatever became of its
    /// units.
    pub fn temp_cleanup_due(&self) -> (due: bool)
        requires
            self.wf(),
        ensures
            due == self@.temp_cleanup_due(),
    {
        self.category == DownloadProgressType::Native && self.is_drained()
    }

    /// Whether every item was handed out and every worker has reported.
    pub fn is_drained(&self) -> (drained: bool)
        requires
            self.wf(),
        ensures
            drained == self@.is_drained(),
    {
        self.started == self.items.len() && self.in_flight == 0
    }

    /// The result of the phase once it is drained: the error of the first
    /// unit that failed, in order of completion, or success. `None` while
    /// work is outstanding.
    pub fn finish(self) -> (result: Option<Result<(), ProtonError>>)
        requires
            self.wf(),
        ensures
            match result {
                Some(r) => self@.is_drained() && outcome_view(r) == self@.result(),
                None => !self@.is_drained(),
            },
            result == Some(Ok::<(), ProtonError>(())) ==> self@.completed == self@.total(),
    {
        if !self.is_drained() {
            return None;
        }
        match self.first_error {
            Some(e) => Some(Err(e)),
            None => Some(Ok(())),
        }
    }
}

/// The result of a whole run from the results of its four phases: the first
/// error in the order natives, libraries, assets, client; success only if
/// all four succeeded.
pub open spec fn spec_combine_phase_results(
    natives: Result<(), ProtonErrorView>,
    libraries: Result<(), ProtonErrorView>,
    assets: Result<(), ProtonErrorView>,
    client: Result<(), ProtonErrorView>,
) -> Result<(), ProtonErrorView> {
    if natives is Err {
        natives
    } else if libraries is Err {
        libraries
    } else if assets is Err {
        assets
    } else {
        client
    }
}

/// Joins the four phases of a run. All four have run to their end before
/// this is decided; one failed phase fails the run even if the others
/// succeeded.
pub fn combine_phase_results(
    natives: Result<(), ProtonError>,
    libraries: Result<(), ProtonError>,
    assets: Result<(), ProtonError>,
    client: Result<(), ProtonError>,
) -> (result: Result<(), ProtonError>)
    ensures
        outcome_view(result) == spec_combine_phase_results(
            outcome_view(natives),
            outcome_view(libraries),
            outcome_view(assets),
            outcome_view(client),
        ),
        result is Ok <==> natives is Ok && libraries is Ok && assets is Ok && client is Ok,
{
    if natives.is_err() {
        natives
    } else if libraries.is_err() {
        libraries
    } else if assets.is_err() {
        assets
    } else {
        client
    }
}

} // verus!

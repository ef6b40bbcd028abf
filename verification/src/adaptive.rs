//! The adaptive concurrency controller.
//!
//! The controller derives a ceiling for the number of parallel downloads
//! from what the host reports, and moves the live limit between a floor and
//! that ceiling as it learns how long downloads take. It reads no clock and
//! probes no host by itself: every reading is handed in, so the tuning loop
//! can be driven with chosen latencies and chosen times.

use vstd::prelude::*;

verus! {

/// The number of cores assumed where the host reports none.
pub const FALLBACK_CPU_CORES: usize = 4;

/// Four times the gigabytes of memory assumed where the host reports none.
pub const FALLBACK_MEMORY_SHARE: usize = 32;

/// How many kilobytes of available memory allow one parallel download: a
/// quarter of a gigabyte.
pub const KB_PER_MEMORY_SHARE: u64 = 262144;

/// The smallest ceiling the host sizing ever yields.
pub const MIN_CEILING: usize = 8;

/// The largest ceiling the host sizing ever yields.
pub const MAX_CEILING: usize = 256;

/// What the host reported about itself; `None` where it reported nothing.
#[derive(Debug, Clone, Copy)]
pub struct HostSnapshot {
    /// The number of cores available to this process.
    pub cpu_cores: Option<usize>,
    /// The memory available to this process, in kilobytes.
    pub available_memory_kb: Option<u64>,
}

/// The ceiling for a host: six downloads per core or four per gigabyte of
/// available memory, whichever is less, but no less than 8 and no more than
/// 256.
pub open spec fn spec_optimal_downloads(host: HostSnapshot) -> nat {
    let cores: nat = match host.cpu_cores {
        Some(n) => n as nat,
        None => FALLBACK_CPU_CORES as nat,
    };
    let memory_share: nat = match host.available_memory_kb {
        Some(kb) => (kb as nat) / (KB_PER_MEMORY_SHARE as nat),
        None => FALLBACK_MEMORY_SHARE as nat,
    };
    let wanted = if cores * 6 <= memory_share {
        cores * 6
    } else {
        memory_share
    };
    if wanted < MIN_CEILING {
        MIN_CEILING as nat
    } else if wanted > MAX_CEILING {
        MAX_CEILING as nat
    } else {
        wanted
    }
}

/// Computes the ceiling for a host.
pub fn calculate_optimal_downloads(host: &HostSnapshot) -> (ceiling: usize)
    ensures
        ceiling == spec_optimal_downloads(*host),
        MIN_CEILING <= ceiling <= MAX_CEILING,
{
    let cores: usize = match host.cpu_cores {
        Some(n) => n,
        None => FALLBACK_CPU_CORES,
    };
    // Beyond 43 cores the product is above the cap whatever it is.
    let cpu_based: u64 = if cores > 43 {
        264
    } else {
        (cores * 6) as u64
    };
    let memory_share: u64 = match host.available_memory_kb {
        Some(kb) => kb / KB_PER_MEMORY_SHARE,
        None => FALLBACK_MEMORY_SHARE as u64,
    };
    let wanted: u64 = if cpu_based <= memory_share {
        cpu_based
    } else {
        memory_share
    };
    if wanted < MIN_CEILING as u64 {
        MIN_CEILING
    } else if wanted > MAX_CEILING as u64 {
        MAX_CEILING
    } else {
        wanted as usize
    }
}

/// The mathematical state of the controller. Latencies and the threshold are
/// in milliseconds, times are milliseconds on a clock of the caller's
/// choosing, the interval is in seconds.
pub struct ConcurrencyState {
    pub current_limit: nat,
    pub min_limit: nat,
    pub max_limit: nat,
    /// The window of observed latencies, oldest first.
    pub recent_latencies: Seq<nat>,
    pub last_adjustment_time: nat,
    /// The capacity of the window.
    pub sample_size: nat,
    pub latency_threshold: nat,
    pub adjustment_interval: nat,
}

/// The sum of a window of latencies.
pub open spec fn spec_sum(window: Seq<nat>) -> nat
    decreases window.len(),
{
    if window.len() == 0 {
        0
    } else {
        spec_sum(window.drop_last()) + window.last()
    }
}

/// The window after `latency` was appended: the oldest sample leaves when
/// the window would exceed its capacity.
pub open spec fn spec_push_sample(window: Seq<nat>, latency: nat, capacity: nat) -> Seq<nat> {
    let grown = window.push(latency);
    if grown.len() > capacity {
        grown.drop_first()
    } else {
        grown
    }
}

/// The whole seconds between two readings of the clock; none if the clock
/// went backwards.
pub open spec fn spec_elapsed_secs(since: nat, now: nat) -> nat {
    if now >= since {
        ((now - since) / 1000) as nat
    } else {
        0
    }
}

impl ConcurrencyState {
    /// The invariant of the controller: the live limit lies between floor
    /// and ceiling, and the window holds no more samples than its capacity.
    pub open spec fn wf(self) -> bool {
        &&& self.min_limit <= self.current_limit <= self.max_limit
        &&& self.recent_latencies.len() <= self.sample_size
    }

    /// The default tuning for a ceiling derived from the host: start at half
    /// the ceiling but no lower than 4, never go below 4, call a download
    /// slow above 1000 ms, keep 8 samples, re-evaluate every 5 s.
    pub open spec fn default_for(ceiling: nat, now: nat) -> ConcurrencyState {
        ConcurrencyState {
            current_limit: if ceiling / 2 >= 4 {
                ceiling / 2
            } else {
                4
            },
            min_limit: 4,
            max_limit: ceiling,
            recent_latencies: Seq::empty(),
            last_adjustment_time: now,
            sample_size: 8,
            latency_threshold: 1000,
            adjustment_interval: 5,
        }
    }

    /// The cautious tuning: half the ceiling, start at 4, floor 2, slow
    /// above 2000 ms.
    pub open spec fn conservative_for(ceiling: nat, now: nat) -> ConcurrencyState {
        ConcurrencyState {
            current_limit: 4,
            min_limit: 2,
            max_limit: ceiling / 2,
            latency_threshold: 2000,
            ..Self::default_for(ceiling, now)
        }
    }

    /// The eager tuning: twice the ceiling, start at half of that, floor 8,
    /// slow above 500 ms.
    pub open spec fn aggressive_for(ceiling: nat, now: nat) -> ConcurrencyState {
        ConcurrencyState {
            current_limit: ceiling,
            min_limit: 8,
            max_limit: ceiling * 2,
            latency_threshold: 500,
            ..Self::default_for(ceiling, now)
        }
    }

    /// The mean of the window, in whole milliseconds.
    pub open spec fn mean_latency(self) -> nat
        recommends
            self.recent_latencies.len() > 0,
    {
        spec_sum(self.recent_latencies) / self.recent_latencies.len()
    }

    /// The limit an evaluation of the current window arrives at: four fifths
    /// of the limit, but no less than the floor, if the mean latency is above
    /// the threshold; eleven tenths of it, but no more than the ceiling, if
    /// the mean is below half the threshold; the limit as it is otherwise.
    pub open spec fn adjusted_limit(self) -> nat
        recommends
            self.recent_latencies.len() > 0,
    {
        if self.mean_latency() > self.latency_threshold {
            let lowered = self.current_limit * 8 / 10;
            if lowered >= self.min_limit {
                lowered
            } else {
                self.min_limit
            }
        } else if self.mean_latency() < self.latency_threshold / 2 {
            let raised = self.current_limit * 11 / 10;
            if raised <= self.max_limit {
                raised
            } else {
                self.max_limit
            }
        } else {
            self.current_limit
        }
    }

    /// The state after an evaluation at time `now`: with an empty window
    /// nothing happens; otherwise the limit is adjusted, the timer restarts
    /// and the window is cleared.
    pub open spec fn adjust(self, now: nat) -> ConcurrencyState {
        if self.recent_latencies.len() == 0 {
            self
        } else {
            ConcurrencyState {
                current_limit: self.adjusted_limit(),
                last_adjustment_time: now,
                recent_latencies: Seq::empty(),
                ..self
            }
        }
    }

    /// Whether an evaluation is due at time `now`: the interval has elapsed
    /// since the last adjustment and the window is at least half full.
    pub open spec fn is_due(self, now: nat) -> bool {
        &&& spec_elapsed_secs(self.last_adjustment_time, now) >= self.adjustment_interval
        &&& self.recent_latencies.len() >= self.sample_size / 2
    }

    /// The state after a download that took `latency` was reported at time
    /// `now`: the sample enters the window, and the window is evaluated if
    /// that is due.
    pub open spec fn record_and_adjust(self, latency: nat, now: nat) -> ConcurrencyState {
        let recorded = ConcurrencyState {
            recent_latencies: spec_push_sample(self.recent_latencies, latency, self.sample_size),
            ..self
        };
        if recorded.is_due(now) {
            recorded.adjust(now)
        } else {
            recorded
        }
    }
}

/// One report to the controller: a download that took `latency` was done
/// at time `at`.
pub struct Observation {
    pub latency: nat,
    pub at: nat,
}

/// Whether every latency of the window is above `bound`.
pub open spec fn all_above(window: Seq<nat>, bound: nat) -> bool {
    forall|i: int| 0 <= i < window.len() ==> window[i] > bound
}

/// Whether every latency of the window is below `bound`.
pub open spec fn all_below(window: Seq<nat>, bound: nat) -> bool {
    forall|i: int| 0 <= i < window.len() ==> window[i] < bound
}

/// The latencies of a stream of reports, in order.
pub open spec fn latencies_of(stream: Seq<Observation>) -> Seq<nat> {
    Seq::new(stream.len(), |i: int| stream[i].latency)
}

impl ConcurrencyState {
    /// The state after a stream of reports, taken in order.
    pub open spec fn observe_all(self, stream: Seq<Observation>) -> ConcurrencyState
        decreases stream.len(),
    {
        if stream.len() == 0 {
            self
        } else {
            self.observe_all(stream.drop_last()).record_and_adjust(
                stream.last().latency,
                stream.last().at,
            )
        }
    }
}

proof fn lemma_sum_at_least(window: Seq<nat>, bound: nat)
    requires
        forall|i: int| 0 <= i < window.len() ==> window[i] >= bound,
    ensures
        spec_sum(window) >= window.len() * bound,
    decreases window.len(),
{
    if window.len() > 0 {
        lemma_sum_at_least(window.drop_last(), bound);
        assert((window.len() - 1) * bound + bound == window.len() * bound) by (nonlinear_arith);
    }
}

proof fn lemma_sum_at_most(window: Seq<nat>, bound: nat)
    requires
        forall|i: int| 0 <= i < window.len() ==> window[i] <= bound,
    ensures
        spec_sum(window) <= window.len() * bound,
    decreases window.len(),
{
    if window.len() > 0 {
        lemma_sum_at_most(window.drop_last(), bound);
        assert((window.len() - 1) * bound + bound == window.len() * bound) by (nonlinear_arith);
    }
}

proof fn lemma_mean_above(window: Seq<nat>, bound: nat)
    requires
        window.len() > 0,
        all_above(window, bound),
    ensures
        spec_sum(window) / window.len() > bound,
{
    lemma_sum_at_least(window, bound + 1);
    let total = spec_sum(window);
    let count = window.len();
    assert(total / count > bound) by (nonlinear_arith)
        requires
            count > 0,
            total >= count * (bound + 1),
    ;
}

proof fn lemma_mean_below(window: Seq<nat>, bound: nat)
    requires
        window.len() > 0,
        all_below(window, bound),
    ensures
        spec_sum(window) / window.len() < bound,
{
    lemma_sum_at_most(window, (bound - 1) as nat);
    let total = spec_sum(window);
    let count = window.len();
    assert(total / count < bound) by (nonlinear_arith)
        requires
            count > 0,
            bound > 0,
            total <= count * (bound - 1),
    ;
}

/// The limit never leaves its bounds: a report keeps the controller's
/// invariant, and moves neither floor nor ceiling nor any other setting.
pub proof fn lemma_record_keeps_bounds(s: ConcurrencyState, latency: nat, now: nat)
    requires
        s.wf(),
    ensures
        s.record_and_adjust(latency, now).wf(),
        s.record_and_adjust(latency, now).min_limit == s.min_limit,
        s.record_and_adjust(latency, now).max_limit == s.max_limit,
        s.record_and_adjust(latency, now).sample_size == s.sample_size,
        s.record_and_adjust(latency, now).latency_threshold == s.latency_threshold,
        s.record_and_adjust(latency, now).adjustment_interval == s.adjustment_interval,
{
}

/// A report of a latency above the threshold, to a window that holds only
/// such latencies, does not raise the limit and leaves such a window.
pub proof fn lemma_slow_report_never_raises(s: ConcurrencyState, latency: nat, now: nat)
    requires
        s.wf(),
        all_above(s.recent_latencies, s.latency_threshold),
        latency > s.latency_threshold,
    ensures
        s.record_and_adjust(latency, now).current_limit <= s.current_limit,
        all_above(s.record_and_adjust(latency, now).recent_latencies, s.latency_threshold),
{
    let window = spec_push_sample(s.recent_latencies, latency, s.sample_size);
    if window.len() > 0 {
        lemma_mean_above(window, s.latency_threshold);
    }
}

/// A report of a latency below half the threshold, to a window that holds
/// only such latencies, does not lower the limit and leaves such a window.
pub proof fn lemma_fast_report_never_lowers(s: ConcurrencyState, latency: nat, now: nat)
    requires
        s.wf(),
        all_below(s.recent_latencies, s.latency_threshold / 2),
        latency < s.latency_threshold / 2,
    ensures
        s.record_and_adjust(latency, now).current_limit >= s.current_limit,
        all_below(s.record_and_adjust(latency, now).recent_latencies, s.latency_threshold / 2),
{
    let window = spec_push_sample(s.recent_latencies, latency, s.sample_size);
    if window.len() > 0 {
        lemma_mean_below(window, s.latency_threshold / 2);
    }
}

/// The limit never leaves its bounds, whatever is reported and when.
pub proof fn lemma_limit_stays_in_bounds(s: ConcurrencyState, stream: Seq<Observation>)
    requires
        s.wf(),
    ensures
        s.observe_all(stream).wf(),
        s.min_limit <= s.observe_all(stream).current_limit <= s.max_limit,
        s.observe_all(stream).min_limit == s.min_limit,
        s.observe_all(stream).max_limit == s.max_limit,
        s.observe_all(stream).latency_threshold == s.latency_threshold,
    decreases stream.len(),
{
    if stream.len() > 0 {
        lemma_limit_stays_in_bounds(s, stream.drop_last());
        lemma_record_keeps_bounds(
            s.observe_all(stream.drop_last()),
            stream.last().latency,
            stream.last().at,
        );
    }
}

proof fn lemma_slow_stream_window(s: ConcurrencyState, stream: Seq<Observation>)
    requires
        s.wf(),
        all_above(s.recent_latencies, s.latency_threshold),
        all_above(latencies_of(stream), s.latency_threshold),
    ensures
        all_above(s.observe_all(stream).recent_latencies, s.latency_threshold),
        s.observe_all(stream).current_limit <= s.current_limit,
    decreases stream.len(),
{
    if stream.len() > 0 {
        let front = stream.drop_last();
        assert forall|i: int| 0 <= i < front.len() implies latencies_of(front)[i]
            > s.latency_threshold by {
            assert(latencies_of(stream)[i] > s.latency_threshold);
        }
        lemma_slow_stream_window(s, front);
        lemma_limit_stays_in_bounds(s, front);
        assert(latencies_of(stream)[stream.len() - 1] > s.latency_threshold);
        lemma_slow_report_never_raises(s.observe_all(front), stream.last().latency, stream.last().at);
    }
}

proof fn lemma_fast_stream_window(s: ConcurrencyState, stream: Seq<Observation>)
    requires
        s.wf(),
        all_below(s.recent_latencies, s.latency_threshold / 2),
        all_below(latencies_of(stream), s.latency_threshold / 2),
    ensures
        all_below(s.observe_all(stream).recent_latencies, s.latency_threshold / 2),
        s.observe_all(stream).current_limit >= s.current_limit,
    decreases stream.len(),
{
    if stream.len() > 0 {
        let front = stream.drop_last();
        assert forall|i: int| 0 <= i < front.len() implies latencies_of(front)[i]
            < s.latency_threshold / 2 by {
            assert(latencies_of(stream)[i] < s.latency_threshold / 2);
        }
        lemma_fast_stream_window(s, front);
        lemma_limit_stays_in_bounds(s, front);
        assert(latencies_of(stream)[stream.len() - 1] < s.latency_threshold / 2);
        lemma_fast_report_never_lowers(s.observe_all(front), stream.last().latency, stream.last().at);
    }
}

/// Under a stream of latencies that are all above the threshold, successive
/// adjustments never increase the limit: of two moments of the stream, the
/// later one has the lower or the same limit.
pub proof fn lemma_slow_stream_never_raises_limit(
    s: ConcurrencyState,
    stream: Seq<Observation>,
    earlier: int,
    later: int,
)
    requires
        s.wf(),
        all_above(s.recent_latencies, s.latency_threshold),
        all_above(latencies_of(stream), s.latency_threshold),
        0 <= earlier <= later <= stream.len(),
    ensures
        s.observe_all(stream.take(later)).current_limit <= s.observe_all(
            stream.take(earlier),
        ).current_limit,
    decreases later - earlier,
{
    if earlier < later {
        lemma_slow_stream_never_raises_limit(s, stream, earlier, later - 1);
        let front = stream.take(later - 1);
        assert(stream.take(later).drop_last() == front);
        assert forall|i: int| 0 <= i < front.len() implies latencies_of(front)[i]
            > s.latency_threshold by {
            assert(latencies_of(stream)[i] > s.latency_threshold);
        }
        lemma_slow_stream_window(s, front);
        lemma_limit_stays_in_bounds(s, front);
        assert(latencies_of(stream)[later - 1] > s.latency_threshold);
        lemma_slow_report_never_raises(
            s.observe_all(front),
            stream[later - 1].latency,
            stream[later - 1].at,
        );
    }
}

/// Under a stream of latencies that are all below half the threshold,
/// successive adjustments never decrease the limit: of two moments of the
/// stream, the later one has the higher or the same limit.
pub proof fn lemma_fast_stream_never_lowers_limit(
    s: ConcurrencyState,
    stream: Seq<Observation>,
    earlier: int,
    later: int,
)
    requires
        s.wf(),
        all_below(s.recent_latencies, s.latency_threshold / 2),
        all_below(latencies_of(stream), s.latency_threshold / 2),
        0 <= earlier <= later <= stream.len(),
    ensures
        s.observe_all(stream.take(later)).current_limit >= s.observe_all(
            stream.take(earlier),
        ).current_limit,
    decreases later - earlier,
{
    if earlier < later {
        lemma_fast_stream_never_lowers_limit(s, stream, earlier, later - 1);
        let front = stream.take(later - 1);
        assert(stream.take(later).drop_last() == front);
        assert forall|i: int| 0 <= i < front.len() implies latencies_of(front)[i]
            < s.latency_threshold / 2 by {
            assert(latencies_of(stream)[i] < s.latency_threshold / 2);
        }
        lemma_fast_stream_window(s, front);
        lemma_limit_stays_in_bounds(s, front);
        assert(latencies_of(stream)[later - 1] < s.latency_threshold / 2);
        lemma_fast_report_never_lowers(
            s.observe_all(front),
            stream[later - 1].latency,
            stream[later - 1].at,
        );
    }
}

/// The tunable state shared by all phases of a run.
#[derive(Debug)]
pub struct AdaptiveConfig {
    max_concurrent: usize,
    current_concurrent: usize,
    min_concurrent: usize,
    performance_samples: Vec<u64>,
    last_adjustment_ms: u64,
    sample_size: usize,
    performance_threshold_ms: u64,
    adjustment_interval_secs: u64,
}

/// The mathematical value of a window of samples.
pub open spec fn samples_view(samples: Seq<u64>) -> Seq<nat> {
    Seq::new(samples.len(), |i: int| samples[i] as nat)
}

impl View for AdaptiveConfig {
    type V = ConcurrencyState;

    closed spec fn view(&self) -> ConcurrencyState {
        ConcurrencyState {
            current_limit: self.current_concurrent as nat,
            min_limit: self.min_concurrent as nat,
            max_limit: self.max_concurrent as nat,
            recent_latencies: samples_view(self.performance_samples@),
            last_adjustment_time: self.last_adjustment_ms as nat,
            sample_size: self.sample_size as nat,
            latency_threshold: self.performance_threshold_ms as nat,
            adjustment_interval: self.adjustment_interval_secs as nat,
        }
    }
}

proof fn lemma_sum_bound(window: Seq<u64>)
    ensures
        spec_sum(samples_view(window)) <= window.len() * 0xffff_ffff_ffff_ffff,
    decreases window.len(),
{
    if window.len() > 0 {
        lemma_sum_bound(window.drop_last());
        assert(samples_view(window).drop_last() == samples_view(window.drop_last()));
    }
}

impl AdaptiveConfig {
    /// The default tuning for this host, with the timer started at `now_ms`.
    pub fn new(host: &HostSnapshot, now_ms: u64) -> (config: AdaptiveConfig)
        ensures
            config@ == ConcurrencyState::default_for(spec_optimal_downloads(*host), now_ms as nat),
            config@.wf(),
    {
        let max_concurrent = calculate_optimal_downloads(host);
        let half = max_concurrent / 2;
        let config = AdaptiveConfig {
            max_concurrent,
            current_concurrent: if half >= 4 {
                half
            } else {
                4
            },
            min_concurrent: 4,
            performance_samples: Vec::with_capacity(10),
            last_adjustment_ms: now_ms,
            sample_size: 8,
            performance_threshold_ms: 1000,
            adjustment_interval_secs: 5,
        };
        assert(config@.recent_latencies =~= Seq::empty());
        config
    }

    /// The cautious tuning for this host.
    pub fn conservative(host: &HostSnapshot, now_ms: u64) -> (config: AdaptiveConfig)
        ensures
            config@ == ConcurrencyState::conservative_for(
                spec_optimal_downloads(*host),
                now_ms as nat,
            ),
            config@.wf(),
    {
        let mut config = AdaptiveConfig::new(host, now_ms);
        config.max_concurrent = config.max_concurrent / 2;
        config.current_concurrent = 4;
        config.min_concurrent = 2;
        config.performance_threshold_ms = 2000;
        config
    }

    /// The eager tuning for this host.
    pub fn aggressive(host: &HostSnapshot, now_ms: u64) -> (config: AdaptiveConfig)
        ensures
            config@ == ConcurrencyState::aggressive_for(
                spec_optimal_downloads(*host),
                now_ms as nat,
            ),
            config@.wf(),
    {
        let mut config = AdaptiveConfig::new(host, now_ms);
        config.max_concurrent = config.max_concurrent * 2;
        config.current_concurrent = config.max_concurrent / 2;
        config.min_concurrent = 8;
        config.performance_threshold_ms = 500;
        config
    }

    /// The live limit: the size of the permit pool of a phase created now.
    pub fn current_concurrent(&self) -> (n: usize)
        ensures
            n == self@.current_limit,
    {
        self.current_concurrent
    }

    /// The floor of the live limit.
    pub fn min_concurrent(&self) -> (n: usize)
        ensures
            n == self@.min_limit,
    {
        self.min_concurrent
    }

    /// The ceiling of the live limit.
    pub fn max_concurrent(&self) -> (n: usize)
        ensures
            n == self@.max_limit,
    {
        self.max_concurrent
    }

    /// How many samples the window holds.
    pub fn sample_count(&self) -> (n: usize)
        ensures
            n == self@.recent_latencies.len(),
    {
        self.performance_samples.len()
    }

    /// Records that a download took `latency_ms` and was done at `now_ms`,
    /// and re-evaluates the limit if that is due.
    pub fn record_and_adjust(&mut self, latency_ms: u64, now_ms: u64)
        requires
            old(self)@.wf(),
        ensures
            final(self)@ == old(self)@.record_and_adjust(latency_ms as nat, now_ms as nat),
            final(self)@.wf(),
    {
        let ghost before = self@;
        self.performance_samples.push(latency_ms);
        if self.performance_samples.len() > self.sample_size {
            self.performance_samples.remove(0);
        }
        assert(samples_view(self.performance_samples@) == spec_push_sample(
            before.recent_latencies,
            latency_ms as nat,
            before.sample_size,
        ));
        let elapsed_secs: u64 = if now_ms >= self.last_adjustment_ms {
            (now_ms - self.last_adjustment_ms) / 1000
        } else {
            0
        };
        if elapsed_secs >= self.adjustment_interval_secs && self.performance_samples.len()
            >= self.sample_size / 2 {
            self.adjust_concurrency(now_ms);
        }
    }

    /// Evaluates the window at `now_ms`, whether or not that is due.
    pub fn adjust_concurrency(&mut self, now_ms: u64)
        requires
            old(self)@.wf(),
        ensures
            final(self)@ == old(self)@.adjust(now_ms as nat),
            final(self)@.wf(),
    {
        let count = self.performance_samples.len();
        if count == 0 {
            return;
        }
        let mut total_ms: u128 = 0;
        let mut i: usize = 0;
        while i < count
            invariant
                i <= count,
                count == self.performance_samples@.len(),
                total_ms == spec_sum(samples_view(self.performance_samples@.take(i as int))),
            decreases count - i,
        {
            proof {
                let next = self.performance_samples@.take(i + 1);
                lemma_sum_bound(self.performance_samples@.take(i as int));
                assert(samples_view(next).drop_last() == samples_view(
                    self.performance_samples@.take(i as int),
                ));
            }
            total_ms = total_ms + self.performance_samples[i] as u128;
            i += 1;
        }
        assert(self.performance_samples@.take(count as int) == self.performance_samples@);
        let avg_ms: u128 = total_ms / (count as u128);
        let current: u128 = self.current_concurrent as u128;
        if avg_ms > self.performance_threshold_ms as u128 {
            let lowered = (current * 8 / 10) as usize;
            self.current_concurrent = if lowered >= self.min_concurrent {
                lowered
            } else {
                self.min_concurrent
            };
        } else if avg_ms < (self.performance_threshold_ms / 2) as u128 {
            let raised: u128 = current * 11 / 10;
            self.current_concurrent = if raised <= self.max_concurrent as u128 {
                raised as usize
            } else {
                self.max_concurrent
            };
        }
        self.last_adjustment_ms = now_ms;
        self.performance_samples.clear();
        assert(self@.recent_latencies =~= Seq::empty());
    }
}

} // verus!

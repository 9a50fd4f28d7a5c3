//! CPU sampling: the counter delta engine and the sampler that tracks the
//! previous raw sample per logical core, plus the topology facts gathered
//! once at startup.
//!
//! The raw counter source and the topology source are outside collaborators;
//! a failed read arrives here as `None` and is substituted by a zeroed
//! sample, degrading that one reading instead of aborting the pass.

use crate::settings::TemperatureUnit;
use crate::text::{dec_seq, na_seq, na_text};
use crate::units::{convert_frequency_spec, convert_temperature_spec};
use crate::units::{convert_frequency, convert_temperature};
use vstd::prelude::*;

verus! {

/// Subtraction clamped to zero.
pub open spec fn sat_sub(a: int, b: int) -> int {
    if a >= b {
        a - b
    } else {
        0
    }
}

/// One cumulative counter reading: idle time and total time, both
/// non-decreasing while the source stays alive, but free to regress when the
/// source restarts or wraps.
#[derive(Clone, Copy, PartialEq, Eq, Structural, Debug)]
pub struct RawCounterSample {
    pub idle_time: u64,
    pub total_time: u64,
}

/// The sample substituted for a failed read.
pub open spec fn zero_sample() -> RawCounterSample {
    RawCounterSample { idle_time: 0, total_time: 0 }
}

/// A failed read degrades to the zeroed sample.
pub open spec fn sample_or_zero_spec(s: Option<RawCounterSample>) -> RawCounterSample {
    match s {
        Some(x) => x,
        None => zero_sample(),
    }
}

impl RawCounterSample {
    pub fn new(idle_time: u64, total_time: u64) -> (r: RawCounterSample)
        ensures
            r == (RawCounterSample { idle_time, total_time }),
    {
        RawCounterSample { idle_time, total_time }
    }

    /// The zeroed sample substituted for a failed read.
    pub fn zero() -> (r: RawCounterSample)
        ensures
            r == zero_sample(),
    {
        RawCounterSample { idle_time: 0, total_time: 0 }
    }
}

fn sample_or_zero(s: Option<RawCounterSample>) -> (r: RawCounterSample)
    ensures
        r == sample_or_zero_spec(s),
{
    match s {
        Some(x) => x,
        None => RawCounterSample { idle_time: 0, total_time: 0 },
    }
}

/// The elapsed total time between two samples, clamped to zero.
pub open spec fn delta_total_spec(previous: RawCounterSample, current: RawCounterSample) -> int {
    sat_sub(current.total_time as int, previous.total_time as int)
}

/// The elapsed non-idle time between two samples: the total delta less the
/// idle delta, each clamped to zero.
pub open spec fn delta_work_spec(previous: RawCounterSample, current: RawCounterSample) -> int {
    sat_sub(
        delta_total_spec(previous, current),
        sat_sub(current.idle_time as int, previous.idle_time as int),
    )
}

/// A utilization fraction as the exact ratio `work / total`; a zero `total`
/// (no elapsed time) denotes the fraction zero rather than an undefined
/// value.
#[derive(Clone, Copy, PartialEq, Eq, Structural, Debug)]
pub struct UsageFraction {
    pub work: u64,
    pub total: u64,
}

impl UsageFraction {
    /// The fraction is well formed when it lies in the unit interval.
    pub open spec fn wf(&self) -> bool {
        self.work <= self.total
    }

    /// Whether the fraction denotes exactly zero.
    pub open spec fn is_zero_spec(&self) -> bool {
        self.work == 0
    }

    /// The fraction in ten-thousandths, rounded down.
    pub open spec fn permyriad_spec(&self) -> int {
        if self.total == 0 {
            0
        } else {
            10000 * self.work / self.total as int
        }
    }

    /// The fraction as a whole percentage, rounded half away from zero.
    pub open spec fn percent_rounded_spec(&self) -> int {
        if self.total == 0 {
            0
        } else {
            (200 * self.work + self.total) / (2 * self.total as int)
        }
    }

    /// The fraction in ten-thousandths, the granularity handed to graphs.
    pub fn permyriad(&self) -> (r: u16)
        requires
            self.wf(),
        ensures
            r == self.permyriad_spec(),
            r <= 10000,
    {
        if self.total == 0 {
            0
        } else {
            let wide: u128 = 10000u128 * (self.work as u128) / (self.total as u128);
            proof {
                assert(10000 * self.work / self.total as int <= 10000) by (nonlinear_arith)
                    requires
                        self.work <= self.total,
                        self.total > 0,
                ;
            }
            wide as u16
        }
    }

    /// The fraction as a whole percentage.
    pub fn percent_rounded(&self) -> (r: u8)
        requires
            self.wf(),
        ensures
            r == self.percent_rounded_spec(),
            r <= 100,
    {
        if self.total == 0 {
            0
        } else {
            let wide: u128 = (200u128 * (self.work as u128) + (self.total as u128)) / (2u128
                * (self.total as u128));
            proof {
                assert((200 * self.work + self.total) / (2 * self.total as int) <= 100)
                    by (nonlinear_arith)
                    requires
                        self.work <= self.total,
                        self.total > 0,
                ;
            }
            wide as u8
        }
    }
}

/// The counter delta engine: turns two raw samples into a utilization
/// fraction.  All three subtractions saturate at zero, so regressed counters
/// yield a well-formed fraction, and no elapsed time yields exactly zero.
pub fn usage_fraction(previous: RawCounterSample, current: RawCounterSample) -> (f: UsageFraction)
    ensures
        f.total == delta_total_spec(previous, current),
        f.work == delta_work_spec(previous, current),
        f.wf(),
        f.total == 0 ==> f.is_zero_spec(),
{
    let total = current.total_time.saturating_sub(previous.total_time);
    let idle = current.idle_time.saturating_sub(previous.idle_time);
    let work = total.saturating_sub(idle);
    UsageFraction { work, total }
}

/// For every pair of samples, regressed or not, the computed fraction lies
/// in the unit interval: the work delta is at least zero and at most the
/// total delta.
pub proof fn lemma_usage_fraction_in_unit_interval(
    previous: RawCounterSample,
    current: RawCounterSample,
)
    ensures
        0 <= delta_work_spec(previous, current) <= delta_total_spec(previous, current),
{
}

/// When no total time has elapsed between two samples, both deltas are zero,
/// so the computed fraction denotes exactly zero.
pub proof fn lemma_no_elapsed_time_gives_zero(
    previous: RawCounterSample,
    current: RawCounterSample,
)
    requires
        current.total_time == previous.total_time,
    ensures
        delta_total_spec(previous, current) == 0,
        delta_work_spec(previous, current) == 0,
{
}

/// When a counter regresses — the idle or the total accumulator comes back
/// smaller, as after a reset — the saturating deltas still yield a fraction
/// in the unit interval: never negative, never undefined.
pub proof fn lemma_counter_regression_stays_in_unit_interval(
    previous: RawCounterSample,
    current: RawCounterSample,
)
    requires
        current.idle_time < previous.idle_time || current.total_time < previous.total_time,
    ensures
        0 <= delta_work_spec(previous, current) <= delta_total_spec(previous, current),
        current.total_time < previous.total_time ==> delta_total_spec(previous, current) == 0
            && delta_work_spec(previous, current) == 0,
{
}

/// Immutable topology facts gathered once at sampler initialization; every
/// field is independently optional because the topology source may fail
/// field by field.
#[derive(Clone, Debug)]
pub struct CpuInfo {
    pub logical_cpus: Option<usize>,
    pub physical_cpus: Option<usize>,
    pub sockets: Option<usize>,
    pub max_speed: Option<u64>,
    pub virtualization: Option<String>,
    pub architecture: Option<String>,
}

/// The per-core and aggregate usage fractions produced by one refresh pass.
pub struct CpuRefresh {
    pub total: UsageFraction,
    pub threads: Vec<UsageFraction>,
}

/// Holds the previous raw sample for the aggregate machine and for every
/// logical core, and turns fresh samples into usage fractions.
pub struct CpuSampler {
    pub logical_cpus: usize,
    pub prev_total: RawCounterSample,
    pub prev_threads: Vec<RawCounterSample>,
}

impl CpuSampler {
    /// One previous sample is held per logical core.
    pub open spec fn wf(&self) -> bool {
        self.prev_threads@.len() == self.logical_cpus
    }

    /// Takes the baseline samples; a failed baseline read degrades to the
    /// zeroed sample.
    pub fn new(
        logical_cpus: usize,
        baseline_total: Option<RawCounterSample>,
        baseline_threads: Vec<Option<RawCounterSample>>,
    ) -> (s: CpuSampler)
        requires
            baseline_threads@.len() == logical_cpus,
        ensures
            s.wf(),
            s.logical_cpus == logical_cpus,
            s.prev_total == sample_or_zero_spec(baseline_total),
            forall|i: int|
                0 <= i < logical_cpus ==> s.prev_threads@[i] == sample_or_zero_spec(
                    baseline_threads@[i],
                ),
    {
        let mut prev_threads: Vec<RawCounterSample> = Vec::with_capacity(logical_cpus);
        let mut i: usize = 0;
        while i < logical_cpus
            invariant
                i <= logical_cpus,
                baseline_threads@.len() == logical_cpus,
                prev_threads@.len() == i,
                forall|j: int|
                    0 <= j < i ==> prev_threads@[j] == sample_or_zero_spec(baseline_threads@[j]),
            decreases logical_cpus - i,
        {
            prev_threads.push(sample_or_zero(baseline_threads[i]));
            i = i + 1;
        }
        CpuSampler { logical_cpus, prev_total: sample_or_zero(baseline_total), prev_threads }
    }

    /// One refresh pass: computes the aggregate fraction and, only on a
    /// machine with more than one logical core, one fraction per core, then
    /// stores the fresh samples as the next baseline.  A lone core's
    /// fraction would equal the aggregate, so no per-core results are
    /// produced for it and its baseline is left untouched.
    pub fn refresh(
        &mut self,
        new_total: Option<RawCounterSample>,
        new_threads: Vec<Option<RawCounterSample>>,
    ) -> (out: CpuRefresh)
        requires
            old(self).wf(),
            new_threads@.len() == old(self).logical_cpus,
        ensures
            final(self).wf(),
            final(self).logical_cpus == old(self).logical_cpus,
            final(self).prev_total == sample_or_zero_spec(new_total),
            out.total.total == delta_total_spec(
                old(self).prev_total,
                sample_or_zero_spec(new_total),
            ),
            out.total.work == delta_work_spec(old(self).prev_total, sample_or_zero_spec(new_total)),
            out.total.wf(),
            old(self).logical_cpus <= 1 ==> out.threads@.len() == 0 && final(self).prev_threads
                == old(self).prev_threads,
            old(self).logical_cpus > 1 ==> out.threads@.len() == old(self).logical_cpus && forall|
                i: int,
            |
                0 <= i < old(self).logical_cpus ==> (#[trigger] out.threads@[i]).total
                    == delta_total_spec(
                    old(self).prev_threads@[i],
                    sample_or_zero_spec(new_threads@[i]),
                ) && out.threads@[i].work == delta_work_spec(
                    old(self).prev_threads@[i],
                    sample_or_zero_spec(new_threads@[i]),
                ) && out.threads@[i].wf() && final(self).prev_threads@[i] == sample_or_zero_spec(
                    new_threads@[i],
                ),
    {
        let fresh_total = sample_or_zero(new_total);
        let total = usage_fraction(self.prev_total, fresh_total);
        self.prev_total = fresh_total;

        let mut threads: Vec<UsageFraction> = Vec::new();
        if self.logical_cpus > 1 {
            let n = self.logical_cpus;
            let mut fresh_threads: Vec<RawCounterSample> = Vec::with_capacity(n);
            let mut i: usize = 0;
            while i < n
                invariant
                    i <= n,
                    n == self.logical_cpus,
                    self.wf(),
                    self.prev_threads@ == old(self).prev_threads@,
                    new_threads@.len() == n,
                    threads@.len() == i,
                    fresh_threads@.len() == i,
                    forall|j: int|
                        0 <= j < i ==> (#[trigger] threads@[j]).total == delta_total_spec(
                            self.prev_threads@[j],
                            sample_or_zero_spec(new_threads@[j]),
                        ) && threads@[j].work == delta_work_spec(
                            self.prev_threads@[j],
                            sample_or_zero_spec(new_threads@[j]),
                        ) && threads@[j].wf(),
                    forall|j: int|
                        0 <= j < i ==> fresh_threads@[j] == sample_or_zero_spec(new_threads@[j]),
                decreases n - i,
            {
                let fresh = sample_or_zero(new_threads[i]);
                threads.push(usage_fraction(self.prev_threads[i], fresh));
                fresh_threads.push(fresh);
                i = i + 1;
            }
            self.prev_threads = fresh_threads;
        }
        CpuRefresh { total, threads }
    }
}

/// The percentage string of a usage fraction, for example `42 %`.
pub open spec fn percentage_seq(f: UsageFraction) -> Seq<char> {
    dec_seq(f.percent_rounded_spec() as nat) + seq![' ', '%']
}

/// Renders a usage fraction as a whole percentage.
pub fn percentage_text(f: &UsageFraction) -> (r: String)
    requires
        f.wf(),
    ensures
        r@ == percentage_seq(*f),
{
    let num = crate::text::u64_dec_string(f.percent_rounded() as u64);
    let r = num.concat(" %");
    proof {
        reveal_strlit(" %");
        assert(r@ =~= percentage_seq(*f));
    }
    r
}

/// The temperature string of an optional reading: the converted value, or
/// the placeholder when the sensor could not be read.
pub open spec fn temperature_text_seq(temp: Option<i64>, unit: TemperatureUnit) -> Seq<char> {
    match temp {
        Some(c) => convert_temperature_spec(c as int, unit),
        None => na_seq(),
    }
}

/// Renders an optional temperature reading.
pub fn temperature_text(temp: Option<i64>, unit: TemperatureUnit) -> (r: String)
    ensures
        r@ == temperature_text_seq(temp, unit),
{
    match temp {
        Some(c) => convert_temperature(c, unit),
        None => na_text(),
    }
}

/// The label of one logical core, numbered from one, for example `CPU 3`.
pub open spec fn thread_label_seq(index: int) -> Seq<char> {
    "CPU "@ + dec_seq((index + 1) as nat)
}

/// Renders the label of the logical core at `index`.
pub fn thread_label(index: usize) -> (r: String)
    requires
        index < usize::MAX,
    ensures
        r@ == thread_label_seq(index as int),
{
    let head = String::from_str("CPU ");
    let num = crate::text::u64_dec_string((index + 1) as u64);
    head.concat(num.as_str())
}

/// The display strings of one refresh pass: the aggregate percentage, one
/// percentage and one best-effort clock speed per core, and the best-effort
/// machine temperature.
pub struct CpuRefreshTexts {
    pub total_percentage: String,
    pub thread_percentages: Vec<String>,
    pub thread_frequencies: Vec<String>,
    pub temperature: String,
}

/// The clock-speed string of an optional frequency reading.
pub open spec fn frequency_text_seq(freq: Option<u64>) -> Seq<char> {
    match freq {
        Some(hz) => convert_frequency_spec(hz as nat),
        None => na_seq(),
    }
}

/// Renders one refresh pass for display.  Each per-core entry pairs with
/// the frequency read for that core; a failed frequency or temperature read
/// shows the placeholder.
pub fn cpu_refresh_texts(
    out: &CpuRefresh,
    frequencies: &Vec<Option<u64>>,
    temperature: Option<i64>,
    unit: TemperatureUnit,
) -> (r: CpuRefreshTexts)
    requires
        out.total.wf(),
        forall|i: int| 0 <= i < out.threads@.len() ==> (#[trigger] out.threads@[i]).wf(),
        frequencies@.len() == out.threads@.len(),
    ensures
        r.total_percentage@ == percentage_seq(out.total),
        r.thread_percentages@.len() == out.threads@.len(),
        forall|i: int|
            0 <= i < out.threads@.len() ==> (#[trigger] r.thread_percentages@[i])@
                == percentage_seq(out.threads@[i]),
        r.thread_frequencies@.len() == out.threads@.len(),
        forall|i: int|
            0 <= i < out.threads@.len() ==> (#[trigger] r.thread_frequencies@[i])@
                == frequency_text_seq(frequencies@[i]),
        r.temperature@ == temperature_text_seq(temperature, unit),
{
    let n = out.threads.len();
    let mut thread_percentages: Vec<String> = Vec::with_capacity(n);
    let mut thread_frequencies: Vec<String> = Vec::with_capacity(n);
    let mut i: usize = 0;
    while i < n
        invariant
            i <= n,
            n == out.threads@.len(),
            frequencies@.len() == n,
            forall|j: int| 0 <= j < n ==> (#[trigger] out.threads@[j]).wf(),
            thread_percentages@.len() == i,
            thread_frequencies@.len() == i,
            forall|j: int|
                0 <= j < i ==> (#[trigger] thread_percentages@[j])@ == percentage_seq(
                    out.threads@[j],
                ),
            forall|j: int|
                0 <= j < i ==> (#[trigger] thread_frequencies@[j])@ == frequency_text_seq(
                    frequencies@[j],
                ),
        decreases n - i,
    {
        thread_percentages.push(percentage_text(&out.threads[i]));
        let freq_text = match frequencies[i] {
            Some(hz) => convert_frequency(hz),
            None => na_text(),
        };
        thread_frequencies.push(freq_text);
        i = i + 1;
    }
    CpuRefreshTexts {
        total_percentage: percentage_text(&out.total),
        thread_percentages,
        thread_frequencies,
        temperature: temperature_text(temperature, unit),
    }
}

/// The display strings of the topology facts: each unavailable field shows
/// the placeholder.
pub struct TopologyTexts {
    pub max_speed: String,
    pub logical_cpus: String,
    pub physical_cpus: String,
    pub sockets: String,
    pub virtualization: String,
    pub architecture: String,
}

/// The string of an optional count.
pub open spec fn count_text_seq(n: Option<usize>) -> Seq<char> {
    match n {
        Some(v) => dec_seq(v as nat),
        None => na_seq(),
    }
}

fn count_text(n: Option<usize>) -> (r: String)
    ensures
        r@ == count_text_seq(n),
{
    match n {
        Some(v) => crate::text::u64_dec_string(v as u64),
        None => na_text(),
    }
}

/// Renders every topology fact for display: the maximum clock speed as a
/// frequency, the counts in decimal, the name fields verbatim, and the
/// placeholder wherever the topology source had no value.
pub fn topology_texts(info: &CpuInfo) -> (r: TopologyTexts)
    ensures
        r.max_speed@ == match info.max_speed {
            Some(hz) => convert_frequency_spec(hz as nat),
            None => na_seq(),
        },
        r.logical_cpus@ == count_text_seq(info.logical_cpus),
        r.physical_cpus@ == count_text_seq(info.physical_cpus),
        r.sockets@ == count_text_seq(info.sockets),
        r.virtualization@ == match info.virtualization {
            Some(ref s) => s@,
            None => na_seq(),
        },
        r.architecture@ == match info.architecture {
            Some(ref s) => s@,
            None => na_seq(),
        },
{
    let max_speed = match info.max_speed {
        Some(hz) => convert_frequency(hz),
        None => na_text(),
    };
    let virtualization = match &info.virtualization {
        Some(s) => s.clone(),
        None => na_text(),
    };
    let architecture = match &info.architecture {
        Some(s) => s.clone(),
        None => na_text(),
    };
    TopologyTexts {
        max_speed,
        logical_cpus: count_text(info.logical_cpus),
        physical_cpus: count_text(info.physical_cpus),
        sockets: count_text(info.sockets),
        virtualization,
        architecture,
    }
}

} // verus!

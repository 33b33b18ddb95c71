//! Operation counters and timers, and human-readable sizes.

use vstd::prelude::*;
use vstd::string::*;
use crate::text::{decimal, decimal_text, digit_char};
use std::time::{Duration, Instant};

verus! {

#[verifier::external_type_specification]
#[verifier::external_body]
pub struct ExInstant(std::time::Instant);

/// Relies on `Instant::now`: the current time; nothing is promised of it.
#[verifier::external_body]
fn now() -> (r: Instant) {
    Instant::now()
}

/// Relies on `Instant::elapsed`: the time since `start`; nothing is promised of it.
#[verifier::external_body]
fn elapsed_since(start: &Instant) -> (r: Duration) {
    start.elapsed()
}

/// Relies on `Duration::from_micros`: a duration of `micros` microseconds.
#[verifier::external_body]
fn duration_from_micros(micros: u64) -> (r: Duration) {
    Duration::from_micros(micros)
}

/// Memory usage statistics.
#[derive(Debug, Clone, Copy, PartialEq, Eq, Structural)]
pub struct MemoryStats {
    /// Peak memory usage in bytes.
    pub peak_memory_bytes: usize,
    /// Current memory usage in bytes.
    pub current_memory_bytes: usize,
    /// Total number of allocations.
    pub total_allocations: usize,
    /// Total number of deallocations.
    pub total_deallocations: usize,
    /// Number of live allocations.
    pub active_allocations: usize,
}

/// Statistics with every count at zero.
pub open spec fn zero_stats() -> MemoryStats {
    MemoryStats {
        peak_memory_bytes: 0,
        current_memory_bytes: 0,
        total_allocations: 0,
        total_deallocations: 0,
        active_allocations: 0,
    }
}

impl Default for MemoryStats {
    /// Statistics with every count at zero.
    fn default() -> (r: MemoryStats)
        ensures
            r == zero_stats(),
    {
        MemoryStats {
            peak_memory_bytes: 0,
            current_memory_bytes: 0,
            total_allocations: 0,
            total_deallocations: 0,
            active_allocations: 0,
        }
    }
}

/// Tracks memory statistics and the time since it started.
#[derive(Debug)]
pub struct MemoryTracker {
    stats: MemoryStats,
    start_time: Instant,
}

impl MemoryTracker {
    /// The statistics held.
    pub closed spec fn spec_stats(&self) -> MemoryStats {
        self.stats
    }

    /// A tracker with zero statistics, started now.
    pub fn new() -> (r: MemoryTracker)
        ensures
            r.spec_stats() == zero_stats(),
    {
        MemoryTracker { stats: MemoryStats::default(), start_time: now() }
    }

    /// The statistics held.
    pub fn stats(&self) -> (r: MemoryStats)
        ensures
            r == self.spec_stats(),
    {
        self.stats
    }

    /// The time since the tracker started.
    pub fn elapsed(&self) -> Duration {
        elapsed_since(&self.start_time)
    }
}

impl Default for MemoryTracker {
    /// A tracker with zero statistics, started now.
    fn default() -> (r: MemoryTracker)
        ensures
            r.spec_stats() == zero_stats(),
    {
        MemoryTracker::new()
    }
}

/// The mean of `total` over `count` events, in whole units; zero when there
/// was no event.
pub open spec fn mean(total: nat, count: nat) -> nat {
    if count == 0 {
        0
    } else {
        total / count
    }
}

/// Computes the mean of `total` over `count` events.
pub fn average_micros(total: usize, count: usize) -> (r: u64)
    ensures
        r == mean(total as nat, count as nat),
{
    if count == 0 {
        0
    } else {
        (total / count) as u64
    }
}

/// Counts parse and normalization operations and their time.
#[derive(Debug)]
pub struct PerformanceProfiler {
    memory_tracker: MemoryTracker,
    operation_count: usize,
    total_parse_time: usize,
    total_normalize_time: usize,
}

/// Counts a profiler holds: operations, then parse and normalization time in
/// microseconds.
pub struct ProfileCounts {
    /// Operations recorded.
    pub operations: usize,
    /// Parse time recorded, in microseconds.
    pub parse_micros: usize,
    /// Normalization time recorded, in microseconds.
    pub normalize_micros: usize,
}

impl PerformanceProfiler {
    /// The counts held. They wrap around on overflow.
    pub closed spec fn counts(&self) -> ProfileCounts {
        ProfileCounts {
            operations: self.operation_count,
            parse_micros: self.total_parse_time,
            normalize_micros: self.total_normalize_time,
        }
    }

    /// The memory statistics of its tracker.
    pub closed spec fn spec_memory_stats(&self) -> MemoryStats {
        self.memory_tracker.spec_stats()
    }

    /// A profiler with every count at zero.
    pub fn new() -> (r: PerformanceProfiler)
        ensures
            r.spec_memory_stats() == zero_stats(),
            r.counts() == (ProfileCounts { operations: 0, parse_micros: 0, normalize_micros: 0 }),
    {
        PerformanceProfiler {
            memory_tracker: MemoryTracker::new(),
            operation_count: 0,
            total_parse_time: 0,
            total_normalize_time: 0,
        }
    }

    /// Records a parse that took `micros` microseconds: one more operation,
    /// and its time added to the parse time.
    pub fn record_parse_operation(&mut self, micros: u64)
        ensures
            final(self).counts().operations == old(self).counts().operations.wrapping_add(1),
            final(self).counts().parse_micros == old(self).counts().parse_micros.wrapping_add(
                micros as usize,
            ),
            final(self).counts().normalize_micros == old(self).counts().normalize_micros,
            final(self).spec_memory_stats() == old(self).spec_memory_stats(),
    {
        self.operation_count = self.operation_count.wrapping_add(1);
        self.total_parse_time = self.total_parse_time.wrapping_add(micros as usize);
    }

    /// Records a normalization that took `micros` microseconds: one more
    /// operation, and its time added to the normalization time.
    pub fn record_normalize_operation(&mut self, micros: u64)
        ensures
            final(self).counts().operations == old(self).counts().operations.wrapping_add(1),
            final(self).counts().normalize_micros == old(self).counts().normalize_micros.wrapping_add(
                micros as usize,
            ),
            final(self).counts().parse_micros == old(self).counts().parse_micros,
            final(self).spec_memory_stats() == old(self).spec_memory_stats(),
    {
        self.operation_count = self.operation_count.wrapping_add(1);
        self.total_normalize_time = self.total_normalize_time.wrapping_add(micros as usize);
    }

    /// Summarizes the counts, with the memory usage sampled by the caller.
    /// Each mean time is the recorded time over all operations.
    pub fn summary(&self, current_memory_usage: Option<usize>) -> (r: PerformanceSummary)
        ensures
            r.total_operations == self.counts().operations,
            r.average_parse_micros == mean(
                self.counts().parse_micros as nat,
                self.counts().operations as nat,
            ),
            r.average_normalize_micros == mean(
                self.counts().normalize_micros as nat,
                self.counts().operations as nat,
            ),
            r.memory_stats == self.spec_memory_stats(),
            r.current_memory_usage == current_memory_usage,
    {
        let count = self.operation_count;
        let parse = average_micros(self.total_parse_time, count);
        let normalize = average_micros(self.total_normalize_time, count);
        PerformanceSummary {
            total_operations: count,
            total_runtime: self.memory_tracker.elapsed(),
            average_parse_time: duration_from_micros(parse),
            average_normalize_time: duration_from_micros(normalize),
            average_parse_micros: parse,
            average_normalize_micros: normalize,
            memory_stats: self.memory_tracker.stats(),
            current_memory_usage,
        }
    }

    /// Sets every count back to zero.
    pub fn reset(&mut self)
        ensures
            final(self).spec_memory_stats() == old(self).spec_memory_stats(),
            final(self).counts() == (ProfileCounts {
                operations: 0,
                parse_micros: 0,
                normalize_micros: 0,
            }),
    {
        self.operation_count = 0;
        self.total_parse_time = 0;
        self.total_normalize_time = 0;
    }
}

impl Default for PerformanceProfiler {
    /// A profiler with every count at zero.
    fn default() -> (r: PerformanceProfiler)
        ensures
            r.spec_memory_stats() == zero_stats(),
            r.counts() == (ProfileCounts { operations: 0, parse_micros: 0, normalize_micros: 0 }),
    {
        PerformanceProfiler::new()
    }
}

/// A summary of a profiler's counts.
#[derive(Debug, Clone, Copy)]
pub struct PerformanceSummary {
    /// Operations recorded.
    pub total_operations: usize,
    /// Time since the profiler started.
    pub total_runtime: Duration,
    /// Mean parse time per operation.
    pub average_parse_time: Duration,
    /// Mean normalization time per operation.
    pub average_normalize_time: Duration,
    /// Mean parse time per operation, in whole microseconds.
    pub average_parse_micros: u64,
    /// Mean normalization time per operation, in whole microseconds.
    pub average_normalize_micros: u64,
    /// Memory statistics.
    pub memory_stats: MemoryStats,
    /// Memory in use when the summary was made, if known.
    pub current_memory_usage: Option<usize>,
}

impl PerformanceSummary {
    /// The memory in use as a readable size, or `Unknown`.
    pub fn format_memory_usage(&self) -> (r: String)
        ensures
            match self.current_memory_usage {
                Some(b) => r@ == readable_size(b as nat),
                None => r@ == "Unknown"@,
            },
    {
        match self.current_memory_usage {
            Some(bytes) => format_bytes(bytes),
            None => String::from_str("Unknown"),
        }
    }
}

/// `1024` to the power `k`.
pub open spec fn kib_pow(k: nat) -> nat
    decreases k,
{
    if k == 0 {
        1
    } else {
        1024 * kib_pow((k - 1) as nat)
    }
}

/// The unit a size is shown in: the largest of KB, MB, GB and TB that it
/// reaches, or B.
pub open spec fn unit_level(bytes: nat) -> nat {
    if bytes >= kib_pow(4) {
        4
    } else if bytes >= kib_pow(3) {
        3
    } else if bytes >= kib_pow(2) {
        2
    } else if bytes >= kib_pow(1) {
        1
    } else {
        0
    }
}

/// The name of unit `k`.
pub open spec fn unit_name(k: nat) -> Seq<char> {
    if k == 0 {
        "B"@
    } else if k == 1 {
        "KB"@
    } else if k == 2 {
        "MB"@
    } else if k == 3 {
        "GB"@
    } else {
        "TB"@
    }
}

/// `n / d` rounded to the nearest whole number, ties to the even one.
pub open spec fn round_half_even(n: nat, d: nat) -> nat {
    let q = n / d;
    let rem = n % d;
    if 2 * rem > d || (2 * rem == d && q % 2 == 1) {
        q + 1
    } else {
        q
    }
}

/// Two decimal digits.
pub open spec fn two_digits(n: nat) -> Seq<char> {
    seq![digit_char(n / 10), digit_char(n % 10)]
}

/// A size in bytes as people read it: whole bytes with `B`, or else the size
/// in the largest unit it reaches, with two decimals rounded half to even.
pub open spec fn readable_size(bytes: nat) -> Seq<char> {
    let k = unit_level(bytes);
    if k == 0 {
        decimal(bytes) + " B"@
    } else {
        let h = round_half_even(bytes * 100, kib_pow(k));
        decimal(h / 100) + "."@ + two_digits(h % 100) + " "@ + unit_name(k)
    }
}

/// Text of two decimal digits.
fn two_digit_text(n: u64) -> (r: String)
    requires
        n < 100,
    ensures
        r@ == two_digits(n as nat),
{
    let mut r = decimal_text(n / 10);
    let low = decimal_text(n % 10);
    r.append(low.as_str());
    r
}

/// Formats a size in bytes as people read it.
pub fn format_bytes(bytes: usize) -> (r: String)
    ensures
        r@ == readable_size(bytes as nat),
{
    let b = bytes as u128;
    let k: u64 = if b >= 1099511627776 {
        4
    } else if b >= 1073741824 {
        3
    } else if b >= 1048576 {
        2
    } else if b >= 1024 {
        1
    } else {
        0
    };
    let unit: u128 = if k == 4 {
        1099511627776
    } else if k == 3 {
        1073741824
    } else if k == 2 {
        1048576
    } else {
        1024
    };
    proof {
        reveal_strlit(" B");
        reveal_strlit("B");
        reveal_strlit("KB");
        reveal_strlit("MB");
        reveal_strlit("GB");
        reveal_strlit("TB");
        assert(kib_pow(0) == 1);
        assert(kib_pow(1) == 1024);
        assert(kib_pow(2) == 1048576);
        assert(kib_pow(3) == 1073741824);
        assert(kib_pow(4) == 1099511627776);
    }
    if k == 0 {
        let mut r = decimal_text(bytes as u64);
        r.append(" B");
        return r;
    }
    assert(unit as nat == kib_pow(k as nat));
    let n: u128 = b * 100;
    let q = n / unit;
    let rem = n % unit;
    let h: u128 = if 2 * rem > unit || (2 * rem == unit && q % 2 == 1) {
        q + 1
    } else {
        q
    };
    assert(h == round_half_even(bytes as nat * 100, kib_pow(k as nat)));
    assert(h <= n);
    let whole = decimal_text((h / 100) as u64);
    let frac = two_digit_text((h % 100) as u64);
    let mut r = whole;
    r.append(".");
    r.append(frac.as_str());
    r.append(" ");
    let name = if k == 1 {
        "KB"
    } else if k == 2 {
        "MB"
    } else if k == 3 {
        "GB"
    } else {
        "TB"
    };
    r.append(name);
    r
}

} // verus!

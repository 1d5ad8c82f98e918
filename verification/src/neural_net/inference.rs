//! Bookkeeping of inference runs: latencies, cache hits and the device used.

use vstd::prelude::*;
use crate::fixed::{accumulate, accumulated, bump, bumped, ratio, ratio_of, Ppm, SignedPpm};

verus! {

/// Settings of the inference engine.
#[derive(Debug, Clone, Copy, PartialEq, Eq, Structural)]
pub struct InferenceConfig {
    pub use_gpu: bool,
    /// 8, 16 or 32.
    pub quantization_bits: u8,
    pub cache_size: usize,
    pub num_threads: usize,
    pub enable_simd: bool,
    /// The latency that is still acceptable, in microseconds.
    pub max_latency_us: u64,
}

impl Default for InferenceConfig {
    fn default() -> (r: Self)
        ensures
            r == (InferenceConfig {
                use_gpu: true,
                quantization_bits: 16,
                cache_size: 1024,
                num_threads: 4,
                enable_simd: true,
                max_latency_us: 200,
            }),
    {
        InferenceConfig {
            use_gpu: true,
            quantization_bits: 16,
            cache_size: 1024,
            num_threads: 4,
            enable_simd: true,
            max_latency_us: 200,
        }
    }
}

/// Counters of the inference engine.
#[derive(Debug, Clone, Copy, PartialEq, Eq, Structural)]
pub struct InferenceStats {
    /// Sum of the latencies, in microseconds.
    pub total_latency_us: u64,
    /// The least latency seen; the largest `u64` before the first run.
    pub min_latency_us: u64,
    /// The greatest latency seen.
    pub max_latency_us: u64,
    pub inference_count: u64,
    /// How many runs were answered from the cache.
    pub cache_hits: u64,
    pub memory_usage_kb: u64,
}

/// The mean latency in whole microseconds.
pub open spec fn mean_latency_us(stats: InferenceStats) -> u64 {
    if stats.inference_count == 0 {
        0
    } else {
        stats.total_latency_us / stats.inference_count
    }
}

/// The share of runs that were answered from the cache.
pub open spec fn hit_rate(stats: InferenceStats) -> nat {
    ratio_of(stats.cache_hits as nat, stats.inference_count as nat)
}

/// The counters after one more run.
pub open spec fn recorded(stats: InferenceStats, latency_us: u64, cache_hit: bool)
    -> InferenceStats {
    InferenceStats {
        total_latency_us: accumulated(stats.total_latency_us, latency_us),
        min_latency_us: if latency_us < stats.min_latency_us {
            latency_us
        } else {
            stats.min_latency_us
        },
        max_latency_us: if latency_us > stats.max_latency_us {
            latency_us
        } else {
            stats.max_latency_us
        },
        inference_count: bumped(stats.inference_count),
        cache_hits: if cache_hit {
            bumped(stats.cache_hits)
        } else {
            stats.cache_hits
        },
        ..stats
    }
}

/// Whether the mean latency is within the limit: the sum of the latencies
/// is no more than the limit for each run.
pub open spec fn within_latency(stats: InferenceStats, max_latency_us: u64) -> bool {
    stats.total_latency_us <= max_latency_us * stats.inference_count
}

impl InferenceStats {
    /// The mean latency in whole microseconds.
    pub fn avg_latency_us(&self) -> (r: u64)
        ensures
            r == mean_latency_us(*self),
    {
        if self.inference_count == 0 {
            0
        } else {
            self.total_latency_us / self.inference_count
        }
    }

    /// The share of runs that were answered from the cache.
    pub fn cache_hit_rate(&self) -> (r: Ppm)
        ensures
            r == hit_rate(*self),
    {
        ratio(self.cache_hits, self.inference_count)
    }
}

/// The devices on which a model may run.
#[derive(Debug, Clone, Copy, PartialEq, Eq, Structural)]
pub enum InferenceDevice {
    CPU,
    GPU,
    TPU,
    NPU,
}

/// What an inference run gave.
#[derive(Debug)]
pub struct InferenceResult {
    pub output: Vec<SignedPpm>,
    pub inference_time_us: u64,
    pub cache_hit: bool,
    pub device_used: InferenceDevice,
}

/// The counters before the first run.
pub open spec fn initial_stats() -> InferenceStats {
    InferenceStats {
        total_latency_us: 0,
        min_latency_us: u64::MAX,
        max_latency_us: 0,
        inference_count: 0,
        cache_hits: 0,
        memory_usage_kb: 0,
    }
}

/// Keeps the books of inference runs.
#[derive(Debug)]
pub struct InferenceEngine {
    config: InferenceConfig,
    stats: InferenceStats,
}

impl InferenceEngine {
    /// The settings of the engine.
    pub closed spec fn settings(&self) -> InferenceConfig {
        self.config
    }

    /// The counters of the engine.
    pub closed spec fn counters(&self) -> InferenceStats {
        self.stats
    }

    pub fn new(config: InferenceConfig) -> (r: Self)
        ensures
            r.settings() == config,
            r.counters() == initial_stats(),
    {
        InferenceEngine {
            config,
            stats: InferenceStats {
                total_latency_us: 0,
                min_latency_us: u64::MAX,
                max_latency_us: 0,
                inference_count: 0,
                cache_hits: 0,
                memory_usage_kb: 0,
            },
        }
    }

    /// The settings of the engine.
    pub fn config(&self) -> (r: &InferenceConfig)
        ensures
            *r == self.settings(),
    {
        &self.config
    }

    /// Takes one more run into the counters.
    pub fn update_stats(&mut self, latency_us: u64, cache_hit: bool)
        ensures
            final(self).settings() == old(self).settings(),
            final(self).counters() == recorded(old(self).counters(), latency_us, cache_hit),
    {
        self.stats.inference_count = bump(self.stats.inference_count);
        if latency_us < self.stats.min_latency_us {
            self.stats.min_latency_us = latency_us;
        }
        if latency_us > self.stats.max_latency_us {
            self.stats.max_latency_us = latency_us;
        }
        self.stats.total_latency_us = accumulate(self.stats.total_latency_us, latency_us);
        if cache_hit {
            self.stats.cache_hits = bump(self.stats.cache_hits);
        }
    }

    /// Books a run that took `inference_time_us` microseconds and gave
    /// `output`, and says on which device it ran.
    pub fn complete_inference(&mut self, output: Vec<SignedPpm>, inference_time_us: u64) -> (r:
        InferenceResult)
        ensures
            final(self).settings() == old(self).settings(),
            final(self).counters() == recorded(old(self).counters(), inference_time_us, false),
            r.output@ == output@,
            r.inference_time_us == inference_time_us,
            !r.cache_hit,
            r.device_used == if old(self).settings().use_gpu {
                InferenceDevice::GPU
            } else {
                InferenceDevice::CPU
            },
    {
        self.update_stats(inference_time_us, false);
        InferenceResult {
            output,
            inference_time_us,
            cache_hit: false,
            device_used: if self.config.use_gpu {
                InferenceDevice::GPU
            } else {
                InferenceDevice::CPU
            },
        }
    }

    /// The counters of the engine.
    pub fn get_stats(&self) -> (r: InferenceStats)
        ensures
            r == self.counters(),
    {
        self.stats
    }

    /// Whether the mean latency is within the limit of the settings.
    pub fn meets_latency_requirements(&self) -> (r: bool)
        ensures
            r == within_latency(self.counters(), self.settings().max_latency_us),
    {
        assert(self.config.max_latency_us * self.stats.inference_count <= 0xffff_ffff_ffff_ffff
            * 0xffff_ffff_ffff_ffff) by (nonlinear_arith)
            requires
                0 <= self.config.max_latency_us <= 0xffff_ffff_ffff_ffff,
                0 <= self.stats.inference_count <= 0xffff_ffff_ffff_ffff,
        ;
        (self.stats.total_latency_us as u128) <= (self.config.max_latency_us as u128) * (
        self.stats.inference_count as u128)
    }

    /// Tunes the engine for speed. Nothing is tuned yet.
    pub fn optimize_for_performance(&mut self)
        ensures
            final(self).settings() == old(self).settings(),
            final(self).counters() == old(self).counters(),
    {
    }

    /// Tunes the engine for accuracy. Nothing is tuned yet.
    pub fn optimize_for_accuracy(&mut self)
        ensures
            final(self).settings() == old(self).settings(),
            final(self).counters() == old(self).counters(),
    {
    }
}

} // verus!

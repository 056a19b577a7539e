//! The difficulty controller: retargeting from recent block times and the
//! observed hash rate. Fractions are carried in permille (thousandths), so
//! the clamp interval [0.5, 2.0] is [500, 2000].

use vstd::prelude::*;
use crate::errors::{TribeError, TribeResult};

verus! {

use vstd::string::StringExecFns;

/// Retargeting algorithms.
#[derive(Debug, Clone)]
pub enum DifficultyAlgorithm {
    /// Every 2016 blocks against a 600-second target.
    Bitcoin,
    /// Every block against a 15-second target.
    Ethereum,
    /// Every 10 blocks against a 30-second target, hash-rate aware.
    AI3Adaptive,
    /// Caller-chosen window and target.
    Custom(CustomDifficultyParams),
}

/// Parameters of the custom algorithm.
#[derive(Debug, Clone)]
pub struct CustomDifficultyParams {
    pub window_size: u64,
    pub target_time: u64,
    pub adjustment_factor_permille: u64,
}

/// One observed block, in chronological order.
#[derive(Debug, Clone)]
pub struct BlockTimeRecord {
    pub block_height: u64,
    pub timestamp: u64,
    pub difficulty: u32,
    pub hash_rate: u64,
}

/// One retargeting outcome.
#[derive(Debug, Clone)]
pub struct DifficultyAdjustment {
    pub old_difficulty: u32,
    pub new_difficulty: u32,
    pub adjustment_factor_permille: u64,
    pub reason: String,
    pub effective_block_height: u64,
}

/// The controller's state.
#[derive(Debug, Clone)]
pub struct DifficultyAdjuster {
    pub target_block_time: u64,
    pub adjustment_interval: u64,
    pub max_adjustment_factor_permille: u64,
    pub min_difficulty: u32,
    pub max_difficulty: u32,
    pub current_difficulty: u32,
    pub block_times: Vec<BlockTimeRecord>,
    pub algorithm: DifficultyAlgorithm,
}

/// The target block time and retargeting interval of an algorithm.
pub open spec fn algorithm_params(algorithm: &DifficultyAlgorithm) -> (u64, u64) {
    match algorithm {
        DifficultyAlgorithm::Bitcoin => (600u64, 2016u64),
        DifficultyAlgorithm::Ethereum => (15u64, 1u64),
        DifficultyAlgorithm::AI3Adaptive => (30u64, 10u64),
        DifficultyAlgorithm::Custom(p) => (p.target_time, p.window_size),
    }
}

/// How many observations an algorithm keeps.
pub open spec fn max_records_of(algorithm: &DifficultyAlgorithm) -> int {
    match algorithm {
        DifficultyAlgorithm::Bitcoin => 2016,
        DifficultyAlgorithm::Ethereum => 2048,
        DifficultyAlgorithm::AI3Adaptive => 100,
        DifficultyAlgorithm::Custom(p) => 2 * p.window_size,
    }
}

/// Sum of the successive gaps between consecutive records of a window,
/// each gap clamped below at zero.
pub open spec fn gaps_sum(w: Seq<BlockTimeRecord>) -> int
    decreases w.len(),
{
    if w.len() <= 1 {
        0
    } else {
        gaps_sum(w.drop_last()) + if w.last().timestamp >= w[w.len() - 2].timestamp {
            w.last().timestamp - w[w.len() - 2].timestamp
        } else {
            0
        }
    }
}

/// Sum of the hash rates of a window.
pub open spec fn rates_sum(w: Seq<BlockTimeRecord>) -> int
    decreases w.len(),
{
    if w.len() == 0 {
        0
    } else {
        rates_sum(w.drop_last()) + w.last().hash_rate
    }
}

/// Clamps `x` into `[lo, hi]`.
pub open spec fn clamp_int(x: int, lo: int, hi: int) -> int {
    if x < lo {
        lo
    } else if x > hi {
        hi
    } else {
        x
    }
}

/// Gap sums are never negative.
pub proof fn lemma_gaps_nonneg(w: Seq<BlockTimeRecord>)
    ensures
        gaps_sum(w) >= 0,
    decreases w.len(),
{
    if w.len() > 1 {
        lemma_gaps_nonneg(w.drop_last());
    }
}

/// Rate sums are never negative.
pub proof fn lemma_rates_nonneg(w: Seq<BlockTimeRecord>)
    ensures
        rates_sum(w) >= 0,
    decreases w.len(),
{
    if w.len() > 0 {
        lemma_rates_nonneg(w.drop_last());
    }
}

impl DifficultyAdjuster {
    /// A fresh controller for an algorithm.
    pub fn new(algorithm: DifficultyAlgorithm) -> (r: Self)
        ensures
            (r.target_block_time, r.adjustment_interval) == algorithm_params(&algorithm),
            r.max_adjustment_factor_permille == 4000,
            r.min_difficulty == 1,
            r.max_difficulty == 32,
            r.current_difficulty == 4,
            r.block_times@.len() == 0,
            r.algorithm == algorithm,
    {
        let (target_time, interval) = match &algorithm {
            DifficultyAlgorithm::Bitcoin => (600u64, 2016u64),
            DifficultyAlgorithm::Ethereum => (15u64, 1u64),
            DifficultyAlgorithm::AI3Adaptive => (30u64, 10u64),
            DifficultyAlgorithm::Custom(params) => (params.target_time, params.window_size),
        };
        Self {
            target_block_time: target_time,
            adjustment_interval: interval,
            max_adjustment_factor_permille: 4000,
            min_difficulty: 1,
            max_difficulty: 32,
            current_difficulty: 4,
            block_times: Vec::new(),
            algorithm,
        }
    }

    /// Records an observed block; the oldest observations are discarded
    /// once the algorithm's window is full.
    pub fn add_block_time(&mut self, block_height: u64, timestamp: u64, hash_rate: u64)
        ensures
            ({
                let pushed = old(self).block_times@.push(
                    BlockTimeRecord {
                        block_height,
                        timestamp,
                        difficulty: old(self).current_difficulty,
                        hash_rate,
                    },
                );
                &&& final(self).block_times@.len() <= pushed.len()
                &&& final(self).block_times@ == pushed.skip(
                    pushed.len() - final(self).block_times@.len(),
                )
                &&& (pushed.len() <= max_records_of(&old(self).algorithm) ==> final(self).block_times@ == pushed)
            }),
            final(self).current_difficulty == old(self).current_difficulty,
            final(self).algorithm == old(self).algorithm,
            final(self).target_block_time == old(self).target_block_time,
            final(self).adjustment_interval == old(self).adjustment_interval,
            final(self).min_difficulty == old(self).min_difficulty,
            final(self).max_difficulty == old(self).max_difficulty,
            final(self).max_adjustment_factor_permille == old(self).max_adjustment_factor_permille,
    {
        let record = BlockTimeRecord {
            block_height,
            timestamp,
            difficulty: self.current_difficulty,
            hash_rate,
        };
        self.block_times.push(record);
        let ghost pushed = self.block_times@;
        let max_records: u64 = match &self.algorithm {
            DifficultyAlgorithm::Bitcoin => 2016,
            DifficultyAlgorithm::Ethereum => 2048,
            DifficultyAlgorithm::AI3Adaptive => 100,
            DifficultyAlgorithm::Custom(params) => {
                match params.window_size.checked_mul(2) {
                    Some(m) => m,
                    None => u64::MAX,
                }
            },
        };
        proof {
            assert(pushed.skip(0) =~= pushed);
            assert(max_records_of(&self.algorithm) <= max_records as int || max_records
                == u64::MAX);
        }
        while self.block_times.len() as u64 > max_records
            invariant
                self.block_times@.len() <= pushed.len(),
                self.block_times@ == pushed.skip(pushed.len() - self.block_times@.len()),
                self.block_times@.len() >= max_records || self.block_times@.len()
                    == pushed.len(),
                max_records_of(&self.algorithm) <= max_records as int || max_records
                    == u64::MAX,
                pushed.len() as int <= max_records_of(&self.algorithm)
                    ==> self.block_times@.len() == pushed.len(),
                self.algorithm == old(self).algorithm,
                self.current_difficulty == old(self).current_difficulty,
                self.target_block_time == old(self).target_block_time,
                self.adjustment_interval == old(self).adjustment_interval,
                self.min_difficulty == old(self).min_difficulty,
                self.max_difficulty == old(self).max_difficulty,
                self.max_adjustment_factor_permille == old(self).max_adjustment_factor_permille,
            decreases self.block_times@.len(),
        {
            let ghost pre = self.block_times@;
            proof {
                if pushed.len() as int <= max_records_of(&self.algorithm) {
                    assert(pre.len() == pushed.len());
                    assert(pre.len() as u64 > max_records);
                    assert(false);
                }
            }
            let _ = self.block_times.remove(0);
            proof {
                assert(self.block_times@ =~= pre.skip(1));
                assert(pre.skip(1) =~= pushed.skip(pushed.len() - pre.len() + 1));
            }
        }
        proof {
            if pushed.len() <= max_records_of(&self.algorithm) {
                assert(self.block_times@.len() == pushed.len());
                assert(self.block_times@ == pushed.skip(0));
            }
        }
    }

    /// Whether the algorithm retargets at this height.
    pub fn should_adjust(&self, block_height: u64) -> (r: bool)
        ensures
            r == match self.algorithm {
                DifficultyAlgorithm::Ethereum => true,
                _ => self.adjustment_interval != 0 && block_height % self.adjustment_interval
                    == 0,
            },
    {
        match &self.algorithm {
            DifficultyAlgorithm::Ethereum => true,
            _ => self.adjustment_interval != 0 && block_height % self.adjustment_interval == 0,
        }
    }

    /// The clamped retargeting factor over the most recent window, in
    /// permille: the target-over-average ratio scaled by the clamped
    /// hash-rate factor, all clamped into [500, 2000]. A window too short
    /// to measure, or with no elapsed time, pushes toward the fastest
    /// admissible adjustment.
    pub open spec fn spec_ai3_factor_permille(&self) -> int {
        let w = self.block_times@.skip(
            self.block_times@.len() - (self.adjustment_interval as int),
        );
        let avg0 = gaps_sum(w) / 9;
        let avg = if avg0 > u64::MAX as int {
            u64::MAX as int
        } else {
            avg0
        };
        let base = if avg > 0 {
            self.target_block_time * 1000 / avg
        } else {
            2000
        };
        let ra0 = rates_sum(w) / 10;
        let ra = if ra0 > u64::MAX as int {
            u64::MAX as int
        } else {
            ra0
        };
        let hrf = clamp_int(ra, 500, 2000);
        clamp_int(base * hrf / 1000, 500, 2000)
    }

    /// Retargets over the last window using the adaptive algorithm.
    /// The new difficulty stays within a factor of two of the old one.
    pub fn ai3_adaptive_adjustment(&self, block_height: u64) -> (r: TribeResult<
        DifficultyAdjustment,
    >)
        requires
            self.algorithm is AI3Adaptive,
            self.adjustment_interval == 10,
            self.min_difficulty == 1,
            1 <= self.current_difficulty,
            self.current_difficulty <= self.max_difficulty,
            self.target_block_time <= 1000000,
        ensures
            r is Err <==> self.block_times@.len() < self.adjustment_interval,
            r matches Ok(adj) ==> {
                &&& adj.old_difficulty == self.current_difficulty
                &&& 500 <= adj.adjustment_factor_permille <= 2000
                &&& adj.adjustment_factor_permille == self.spec_ai3_factor_permille()
                &&& adj.new_difficulty as int == clamp_int(
                    self.current_difficulty * adj.adjustment_factor_permille / 1000,
                    self.min_difficulty as int,
                    self.max_difficulty as int,
                )
                &&& self.current_difficulty / 2 <= adj.new_difficulty <= 2
                    * self.current_difficulty
                &&& adj.effective_block_height == block_height
            },
    {
        let n = self.block_times.len();
        let interval = self.adjustment_interval as usize;
        if n < interval {
            return Err(TribeError::InvalidOperation(String::from_str(
                "insufficient block data",
            )));
        }
        let start = n - interval;
        let ghost w = self.block_times@.skip(start as int);
        let mut total: u128 = 0;
        let mut rates: u128 = 0;
        let mut i: usize = start;
        proof {
            assert(self.block_times@.skip(start as int).take(0) =~= Seq::<
                BlockTimeRecord,
            >::empty());
        }
        while i < n
            invariant
                start <= i <= n,
                n == self.block_times@.len(),
                n - start == 10,
                w == self.block_times@.skip(start as int),
                total as int == gaps_sum(w.take(i - start)),
                rates as int == rates_sum(w.take(i - start)),
                total as int <= (i - start) * (0xFFFF_FFFF_FFFF_FFFF as int),
                rates as int <= (i - start) * (0xFFFF_FFFF_FFFF_FFFF as int),
            decreases n - i,
        {
            proof {
                assert(w.take(i - start + 1).drop_last() =~= w.take(i - start));
                assert(w.take(i - start + 1).last() == w[i - start]);
                assert(w[i - start] == self.block_times@[i as int]);
                if i - start >= 1 {
                    assert(w.take(i - start + 1)[i - start - 1] == w[i - start - 1]);
                    assert(w[i - start - 1] == self.block_times@[i as int - 1]);
                }
                lemma_gaps_nonneg(w.take(i - start));
                lemma_rates_nonneg(w.take(i - start));
            }
            if i > start {
                let prev = self.block_times[i - 1].timestamp;
                let cur = self.block_times[i].timestamp;
                let gap = if cur >= prev {
                    cur - prev
                } else {
                    0
                };
                total = total + gap as u128;
            }
            rates = rates + self.block_times[i].hash_rate as u128;
            i = i + 1;
        }
        proof {
            assert(w.take(n - start) =~= w);
        }
        let total9: u128 = total / 9;
        proof {
            vstd::arithmetic::div_mod::lemma_div_is_ordered(
                total as int,
                10 * (0xFFFF_FFFF_FFFF_FFFF as int),
                9,
            );
        }
        let avg: u64 = if total9 > 0xFFFF_FFFF_FFFF_FFFF {
            0xFFFF_FFFF_FFFF_FFFF
        } else {
            total9 as u64
        };
        let base: u64 = if avg > 0 {
            self.target_block_time * 1000 / avg
        } else {
            2000
        };
        proof {
            if avg > 0 {
                vstd::arithmetic::div_mod::lemma_div_is_ordered_by_denominator(
                    (self.target_block_time * 1000) as int,
                    1,
                    avg as int,
                );
            }
            assert(base <= 1000000000);
        }
        let rates10: u128 = rates / 10;
        let rate_avg: u64 = if rates10 > 0xFFFF_FFFF_FFFF_FFFF {
            0xFFFF_FFFF_FFFF_FFFF
        } else {
            rates10 as u64
        };
        let hrf: u64 = if rate_avg < 500 {
            500
        } else if rate_avg > 2000 {
            2000
        } else {
            rate_avg
        };
        proof {
            vstd::arithmetic::mul::lemma_mul_upper_bound(
                base as int,
                1000000000,
                hrf as int,
                2000,
            );
            vstd::arithmetic::div_mod::lemma_div_is_ordered(
                (base as int) * (hrf as int),
                1000000000int * 2000,
                1000,
            );
            vstd::arithmetic::div_mod::lemma_div_pos_is_pos((base as int) * (hrf as int), 1000);
        }
        let raw = ((base as u128) * (hrf as u128) / 1000) as u64;
        let factor: u64 = if raw < 500 {
            500
        } else if raw > 2000 {
            2000
        } else {
            raw
        };
        proof {
            let d = self.current_difficulty as int;
            let f = factor as int;
            vstd::arithmetic::mul::lemma_mul_upper_bound(d, u32::MAX as int, f, 2000);
            vstd::arithmetic::mul::lemma_mul_inequality(500, f, d);
            vstd::arithmetic::mul::lemma_mul_inequality(f, 2000, d);
            vstd::arithmetic::mul::lemma_mul_is_commutative(d, f);
            vstd::arithmetic::div_mod::lemma_div_is_ordered(500 * d, d * f, 1000);
            vstd::arithmetic::div_mod::lemma_div_is_ordered(d * f, 2000 * d, 1000);
            assert(500 * d / 1000 == d / 2);
            assert(2000 * d / 1000 == 2 * d);
        }
        let scaled_wide = (self.current_difficulty as u128) * (factor as u128) / 1000;
        let scaled = scaled_wide as u64;
        let new_difficulty: u32 = if scaled < self.min_difficulty as u64 {
            self.min_difficulty
        } else if scaled > self.max_difficulty as u64 {
            self.max_difficulty
        } else {
            scaled as u32
        };
        let mut reason = String::from_str("adaptive retarget: factor ");
        reason.append(crate::numfmt::u64_to_string(factor).as_str());
        reason.append(" permille");
        Ok(DifficultyAdjustment {
            old_difficulty: self.current_difficulty,
            new_difficulty,
            adjustment_factor_permille: factor,
            reason,
            effective_block_height: block_height,
        })
    }

    /// Installs a retargeting outcome.
    pub fn apply_adjustment(&mut self, adjustment: DifficultyAdjustment)
        ensures
            final(self).current_difficulty == adjustment.new_difficulty,
            final(self).block_times == old(self).block_times,
            final(self).algorithm == old(self).algorithm,
            final(self).target_block_time == old(self).target_block_time,
            final(self).adjustment_interval == old(self).adjustment_interval,
            final(self).min_difficulty == old(self).min_difficulty,
            final(self).max_difficulty == old(self).max_difficulty,
    {
        self.current_difficulty = adjustment.new_difficulty;
    }

    pub fn get_current_difficulty(&self) -> (r: u32)
        ensures
            r == self.current_difficulty,
    {
        self.current_difficulty
    }

    pub fn get_target_block_time(&self) -> (r: u64)
        ensures
            r == self.target_block_time,
    {
        self.target_block_time
    }

    /// Average seconds per block over the last `window` gaps, or nothing
    /// with fewer than two observations.
    pub fn get_average_block_time(&self, window: usize) -> (r: Option<u64>)
        ensures
            (r is Some) == (self.block_times@.len() >= 2 && window >= 1),
    {
        let n = self.block_times.len();
        if n < 2 || window == 0 {
            return None;
        }
        let count = if window < n - 1 {
            window
        } else {
            n - 1
        };
        let start = n - 1 - count;
        let mut total: u64 = 0;
        let mut i: usize = start;
        while i + 1 < n
            invariant
                start <= i,
                i + 1 <= n,
                n == self.block_times@.len(),
            decreases n - i,
        {
            let prev = self.block_times[i].timestamp;
            let cur = self.block_times[i + 1].timestamp;
            let gap = if cur >= prev {
                cur - prev
            } else {
                0
            };
            total = match total.checked_add(gap) {
                Some(t) => t,
                None => u64::MAX,
            };
            i = i + 1;
        }
        Some(total / (count as u64))
    }

}

impl Default for DifficultyAdjuster {
    /// A fresh controller with the adaptive algorithm.
    fn default() -> (r: Self)
        ensures
            r.algorithm is AI3Adaptive,
            r.target_block_time == 30,
            r.adjustment_interval == 10,
            r.current_difficulty == 4,
            r.block_times@.len() == 0,
    {
        DifficultyAdjuster::new(DifficultyAlgorithm::AI3Adaptive)
    }
}

} // verus!

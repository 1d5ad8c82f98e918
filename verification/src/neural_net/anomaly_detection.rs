//! Detection of anomalies in the features of a flow.

use vstd::prelude::*;
use crate::fixed::{is_unit, product, product_of, ratio, ratio_of, Ppm, ONE};
use crate::host::clock_micros;
use crate::neural_net::thresholds::{
    consistent, effective, learned, lemma_learning_is_bounded, ThresholdManager, ThresholdView,
};

verus! {

/// Settings of the detector.
#[derive(Debug, Clone, Copy, PartialEq, Eq, Structural)]
pub struct AnomalyDetectionConfig {
    /// The threshold that every context starts from.
    pub base_threshold: Ppm,
    /// Whether thresholds adapt to feedback.
    pub adaptive_thresholds: bool,
    /// Hours of learning after which the baseline stands.
    pub baseline_learning_period_hours: u32,
    /// The factor by which an adaptive threshold is scaled; `1_000_000` leaves it as it is.
    pub sensitivity: Ppm,
    pub target_false_positive_rate: Ppm,
    pub enable_contextual_detection: bool,
    pub enable_collective_detection: bool,
    /// The most that a threshold moves when it is adjusted.
    pub max_threshold_step: Ppm,
    /// The number of contexts that have a threshold of their own.
    pub contexts: usize,
}

impl Default for AnomalyDetectionConfig {
    fn default() -> (r: Self)
        ensures
            r == (AnomalyDetectionConfig {
                base_threshold: 850_000,
                adaptive_thresholds: true,
                baseline_learning_period_hours: 24,
                sensitivity: 1_000_000,
                target_false_positive_rate: 1_000,
                enable_contextual_detection: true,
                enable_collective_detection: true,
                max_threshold_step: 50_000,
                contexts: 1,
            }),
    {
        AnomalyDetectionConfig {
            base_threshold: 850_000,
            adaptive_thresholds: true,
            baseline_learning_period_hours: 24,
            sensitivity: 1_000_000,
            target_false_positive_rate: 1_000,
            enable_contextual_detection: true,
            enable_collective_detection: true,
            max_threshold_step: 50_000,
            contexts: 1,
        }
    }
}

/// The kinds of anomaly.
#[derive(Debug, Clone, Copy, PartialEq, Eq, Structural)]
pub enum AnomalyType {
    /// A single value out of the ordinary.
    Point,
    /// A value out of the ordinary for its context.
    Contextual,
    /// A run of values out of the ordinary.
    Collective,
}

/// What the detector found in the features of a flow.
#[derive(Debug)]
pub struct AnomalyDetectionResult {
    pub anomaly_score: Ppm,
    /// The threshold that the score was held against.
    pub threshold: Ppm,
    pub is_anomaly: bool,
    pub anomaly_type: Option<AnomalyType>,
    pub confidence: Ppm,
    /// The features that count most towards the anomaly, by position and value.
    pub contributing_features: Vec<(usize, Ppm)>,
    /// Seconds since the Unix epoch.
    pub timestamp: u64,
}

/// Whether a feature lies outside the ordinary: above 0.9 or below 0.1.
pub open spec fn is_outlier(value: Ppm) -> bool {
    value > 900_000 || value < 100_000
}

/// The number of features that lie outside the ordinary.
pub open spec fn outliers(features: Seq<Ppm>) -> nat
    decreases features.len(),
{
    if features.len() == 0 {
        0
    } else {
        outliers(features.drop_last()) + if is_outlier(features.last()) {
            1nat
        } else {
            0nat
        }
    }
}

/// There are no more outliers than features.
pub proof fn lemma_outliers_bounded(features: Seq<Ppm>)
    ensures
        outliers(features) <= features.len(),
    decreases features.len(),
{
    if features.len() > 0 {
        lemma_outliers_bounded(features.drop_last());
    }
}

/// The anomaly score of a list of features: the share of outliers among
/// them, and 0 for an empty list.
pub open spec fn score_of(features: Seq<Ppm>) -> Ppm {
    ratio_of(outliers(features), features.len()) as Ppm
}

/// The confidence in an anomaly: how far the score lies above the
/// threshold, as a share of the room above the threshold.
pub open spec fn confidence_of(score: Ppm, threshold: Ppm) -> Ppm {
    if score > threshold && threshold < ONE {
        ratio_of((score - threshold) as nat, (ONE - threshold) as nat) as Ppm
    } else {
        0
    }
}

/// The features that are named as contributing to an anomaly: the first three.
pub open spec fn contributors(features: Seq<Ppm>) -> Seq<(usize, Ppm)> {
    Seq::new(
        if features.len() < 3 {
            features.len()
        } else {
            3
        },
        |i: int| (i as usize, features[i]),
    )
}

/// The sensitivity that counts: that of the settings, and 1 where they
/// give more. A factor of 1 at most keeps a scaled threshold from moving
/// further than the threshold that it is scaled from.
pub open spec fn effective_sensitivity(config: AnomalyDetectionConfig) -> Ppm {
    if config.sensitivity > ONE {
        ONE
    } else {
        config.sensitivity
    }
}

/// The threshold that the detector holds a score against: the threshold
/// in force for the context, which is the base threshold, limited to the
/// unit interval, where thresholds do not adapt; where they adapt, it is
/// scaled by the sensitivity that counts.
pub open spec fn detection_threshold(
    config: AnomalyDetectionConfig,
    thresholds: ThresholdView,
    context: Option<usize>,
) -> Ppm {
    let in_force = effective(
        thresholds,
        match context {
            Some(c) => c as int,
            None => 0,
        },
    );
    if config.adaptive_thresholds {
        product_of(in_force, effective_sensitivity(config)) as Ppm
    } else {
        in_force
    }
}

/// Scaled by a factor of 1 at most, a fraction stays in the unit interval,
/// and two fractions that lie within a step of each other stay within it.
pub proof fn lemma_scaling_keeps_the_step(a: Ppm, b: Ppm, factor: Ppm, step: int)
    requires
        factor <= ONE,
        is_unit(a),
        is_unit(b),
        0 <= step,
        a - step <= b <= a + step,
    ensures
        product_of(a, factor) <= ONE,
        product_of(b, factor) <= ONE,
        product_of(a, factor) - step <= product_of(b, factor) <= product_of(a, factor) + step,
{
    let m = ONE as int;
    let f = factor as int;
    let x = a as int;
    let y = b as int;
    assert(x * f <= m * m && y * f <= m * m) by (nonlinear_arith)
        requires
            0 <= x <= m,
            0 <= y <= m,
            0 <= f <= m,
    ;
    assert(x * f / m <= m && y * f / m <= m) by (nonlinear_arith)
        requires
            0 <= x * f <= m * m,
            0 <= y * f <= m * m,
            m > 0,
    ;
    assert(y * f <= x * f + step * m && x * f <= y * f + step * m) by (nonlinear_arith)
        requires
            x - step <= y <= x + step,
            0 <= f <= m,
            0 <= step,
    ;
    assert((x * f + step * m) / m == x * f / m + step && (y * f + step * m) / m == y * f / m
        + step) by (nonlinear_arith)
        requires
            m > 0,
    ;
    assert(y * f / m <= (x * f + step * m) / m && x * f / m <= (y * f + step * m) / m)
        by (nonlinear_arith)
        requires
            y * f <= x * f + step * m,
            x * f <= y * f + step * m,
            m > 0,
    ;
}

/// Whatever the feedback, a learning cycle leaves the threshold that a
/// score is held against in the unit interval, and moves it by the
/// manager's step at most.
pub proof fn lemma_detection_threshold_moves_by_a_step(
    config: AnomalyDetectionConfig,
    thresholds: ThresholdView,
    false_positive_rate: Ppm,
    false_negative_rate: Ppm,
    context: Option<usize>,
)
    requires
        consistent(thresholds),
    ensures
        is_unit(detection_threshold(config, thresholds, context)),
        is_unit(
            detection_threshold(
                config,
                learned(thresholds, false_positive_rate, false_negative_rate),
                context,
            ),
        ),
        detection_threshold(config, thresholds, context) - thresholds.max_step
            <= detection_threshold(
            config,
            learned(thresholds, false_positive_rate, false_negative_rate),
            context,
        ) <= detection_threshold(config, thresholds, context) + thresholds.max_step,
{
    let at = match context {
        Some(c) => c as int,
        None => 0,
    };
    let next = learned(thresholds, false_positive_rate, false_negative_rate);
    lemma_learning_is_bounded(thresholds, false_positive_rate, false_negative_rate, at);
    let before = effective(thresholds, at);
    let after = effective(next, at);
    assert(is_unit(before)) by {
        if thresholds.adaptive && 0 <= at < thresholds.stable.len() {
            assert(is_unit(thresholds.stable[at]));
        }
    }
    lemma_scaling_keeps_the_step(
        before,
        after,
        effective_sensitivity(config),
        thresholds.max_step as int,
    );
}

/// What holds of every detector: its thresholds lie in the unit interval,
/// move by the step of the settings, and no learning cycle is left open.
pub open spec fn coherent(v: AnomalyDetectorView) -> bool {
    &&& consistent(v.thresholds)
    &&& v.thresholds.max_step == v.config.max_threshold_step
    &&& v.thresholds.pending is None
}

/// Whether the baseline stands at time `now`: it does once the learning
/// period has passed since learning started; where learning has not
/// started, or the clock stands before its start, what was established
/// before holds.
pub open spec fn baseline_stands(
    config: AnomalyDetectionConfig,
    established: bool,
    started: Option<u64>,
    now: u64,
) -> bool {
    match started {
        Some(start) => if now >= start {
            now - start >= config.baseline_learning_period_hours * 3600
        } else {
            established
        },
        None => established,
    }
}

/// Finds anomalies.
pub struct AnomalyDetector {
    config: AnomalyDetectionConfig,
    baseline_established: bool,
    learning_start_time: Option<u64>,
    thresholds: ThresholdManager,
}

/// The value of an [`AnomalyDetector`].
pub struct AnomalyDetectorView {
    pub config: AnomalyDetectionConfig,
    pub baseline_established: bool,
    /// When learning of the baseline started, in seconds since the Unix epoch.
    pub learning_start_time: Option<u64>,
    pub thresholds: ThresholdView,
}

impl View for AnomalyDetector {
    type V = AnomalyDetectorView;

    closed spec fn view(&self) -> AnomalyDetectorView {
        AnomalyDetectorView {
            config: self.config,
            baseline_established: self.baseline_established,
            learning_start_time: self.learning_start_time,
            thresholds: self.thresholds@,
        }
    }
}

/// The thresholds of a new detector.
pub open spec fn initial_thresholds(config: AnomalyDetectionConfig) -> ThresholdView {
    let base = if config.base_threshold > ONE {
        ONE
    } else {
        config.base_threshold
    };
    ThresholdView {
        base,
        max_step: config.max_threshold_step,
        target_false_positive_rate: config.target_false_positive_rate,
        adaptive: config.adaptive_thresholds,
        stable: Seq::new(config.contexts as nat, |i: int| base),
        pending: None,
    }
}

impl AnomalyDetector {
    #[verifier::type_invariant]
    spec fn inv(&self) -> bool {
        &&& self.thresholds@.max_step == self.config.max_threshold_step
        &&& self.thresholds@.pending is None
    }

    /// A manager without contexts that has the settings of the detector.
    /// It stands in for the detector's own while that one is worked on.
    fn stand_in(config: &AnomalyDetectionConfig) -> (r: ThresholdManager)
        ensures
            r@.max_step == config.max_threshold_step,
            r@.pending is None,
    {
        ThresholdManager::new(
            config.base_threshold,
            config.max_threshold_step,
            config.target_false_positive_rate,
            config.adaptive_thresholds,
            0,
        )
    }

    /// A detector without a baseline.
    pub fn new(config: AnomalyDetectionConfig) -> (r: Self)
        ensures
            r@ == (AnomalyDetectorView {
                config,
                baseline_established: false,
                learning_start_time: None,
                thresholds: initial_thresholds(config),
            }),
            coherent(r@),
    {
        AnomalyDetector {
            config,
            baseline_established: false,
            learning_start_time: None,
            thresholds: ThresholdManager::new(
                config.base_threshold,
                config.max_threshold_step,
                config.target_false_positive_rate,
                config.adaptive_thresholds,
                config.contexts,
            ),
        }
    }

    /// The settings of the detector.
    pub fn config(&self) -> (r: &AnomalyDetectionConfig)
        ensures
            *r == self@.config,
    {
        &self.config
    }

    /// When learning of the baseline started, if it has.
    pub fn learning_start_time(&self) -> (r: Option<u64>)
        ensures
            r == self@.learning_start_time,
    {
        self.learning_start_time
    }

    /// Whether a baseline was established before learning started anew.
    pub fn baseline_established(&self) -> (r: bool)
        ensures
            r == self@.baseline_established,
    {
        self.baseline_established
    }

    /// Starts learning the baseline at time `now`.
    pub fn start_baseline_learning_at(&mut self, now: u64)
        ensures
            final(self)@ == (AnomalyDetectorView {
                baseline_established: false,
                learning_start_time: Some(now),
                ..old(self)@
            }),
    {
        proof {
            use_type_invariant(&*self);
        }
        self.learning_start_time = Some(now);
        self.baseline_established = false;
    }

    /// Starts learning the baseline. The time is read from the clock.
    pub fn start_baseline_learning(&mut self)
        ensures
            final(self)@.learning_start_time is Some,
            final(self)@ == (AnomalyDetectorView {
                baseline_established: false,
                learning_start_time: final(self)@.learning_start_time,
                ..old(self)@
            }),
    {
        let now = clock_micros() / 1_000_000;
        self.start_baseline_learning_at(now);
    }

    /// Whether the baseline stands at time `now`.
    pub fn is_baseline_established_at(&self, now: u64) -> (r: bool)
        ensures
            r == baseline_stands(
                self@.config,
                self@.baseline_established,
                self@.learning_start_time,
                now,
            ),
    {
        match self.learning_start_time {
            Some(start) => {
                if now >= start {
                    now - start >= (self.config.baseline_learning_period_hours as u64) * 3600
                } else {
                    self.baseline_established
                }
            },
            None => self.baseline_established,
        }
    }

    /// Whether the baseline stands now. The time is read from the clock.
    pub fn is_baseline_established(&self) -> (r: bool)
        ensures
            self@.learning_start_time is None ==> r == self@.baseline_established,
            exists|now: u64|
                r == #[trigger] baseline_stands(
                    self@.config,
                    self@.baseline_established,
                    self@.learning_start_time,
                    now,
                ),
    {
        let now = clock_micros() / 1_000_000;
        let r = self.is_baseline_established_at(now);
        assert(r == baseline_stands(
            self@.config,
            self@.baseline_established,
            self@.learning_start_time,
            now,
        ));
        r
    }

    /// The threshold that a score is held against in a context.
    pub fn get_current_threshold(&self, context: Option<usize>) -> (r: Ppm)
        ensures
            coherent(self@),
            r == detection_threshold(self@.config, self@.thresholds, context),
            is_unit(r),
    {
        proof {
            use_type_invariant(self);
        }
        let at = match context {
            Some(c) => c,
            None => 0,
        };
        let in_force = self.thresholds.threshold(at);
        if self.config.adaptive_thresholds {
            let sensitivity = if self.config.sensitivity > ONE {
                ONE
            } else {
                self.config.sensitivity
            };
            proof {
                lemma_scaling_keeps_the_step(in_force, in_force, sensitivity, 0);
            }
            product(in_force, sensitivity) as u32
        } else {
            in_force
        }
    }

    /// Counts the features that lie outside the ordinary.
    pub fn count_outliers(features: &[Ppm]) -> (r: usize)
        ensures
            r == outliers(features@),
            r <= features@.len(),
    {
        let mut count: usize = 0;
        let mut i: usize = 0;
        assert(features@.subrange(0, 0) =~= Seq::<Ppm>::empty());
        while i < features.len()
            invariant
                i <= features.len(),
                count == outliers(features@.subrange(0, i as int)),
                count <= i,
            decreases features.len() - i,
        {
            proof {
                let next = features@.subrange(0, i + 1);
                assert(next.drop_last() =~= features@.subrange(0, i as int));
                assert(next.last() == features@[i as int]);
            }
            if features[i] > 900_000 || features[i] < 100_000 {
                count += 1;
            }
            i += 1;
        }
        assert(features@.subrange(0, features@.len() as int) =~= features@);
        count
    }

    /// Looks for an anomaly in the features of a flow, seen at time `now` in
    /// the context given. The score is the share of features outside the
    /// ordinary; there is an anomaly where it lies above the threshold.
    pub fn detect_anomalies_at(&self, features: &[Ppm], context: Option<usize>, now: u64) -> (r:
        AnomalyDetectionResult)
        ensures
            r.anomaly_score == score_of(features@),
            is_unit(r.anomaly_score),
            r.threshold == detection_threshold(self@.config, self@.thresholds, context),
            r.is_anomaly == (r.anomaly_score > r.threshold),
            r.anomaly_type == if r.is_anomaly {
                Some(AnomalyType::Point)
            } else {
                None
            },
            r.confidence == confidence_of(r.anomaly_score, r.threshold),
            r.contributing_features@ == if r.is_anomaly {
                contributors(features@)
            } else {
                Seq::<(usize, Ppm)>::empty()
            },
            r.timestamp == now,
    {
        let count = AnomalyDetector::count_outliers(features);
        let anomaly_score = ratio(count as u64, features.len() as u64);
        let threshold = self.get_current_threshold(context);
        let is_anomaly = anomaly_score > threshold;
        let confidence = if is_anomaly && threshold < ONE {
            ratio((anomaly_score - threshold) as u64, (ONE - threshold) as u64)
        } else {
            0
        };
        let mut contributing_features: Vec<(usize, Ppm)> = Vec::new();
        if is_anomaly {
            let mut i: usize = 0;
            while i < 3 && i < features.len()
                invariant
                    i <= 3,
                    i <= features.len(),
                    contributing_features@.len() == i,
                    forall|j: int|
                        0 <= j < i ==> (#[trigger] contributing_features@[j]) == (
                            j as usize,
                            features@[j],
                        ),
                decreases 3 - i,
            {
                contributing_features.push((i, features[i]));
                i += 1;
            }
            assert(contributing_features@ =~= contributors(features@));
        }
        AnomalyDetectionResult {
            anomaly_score,
            threshold,
            is_anomaly,
            anomaly_type: if is_anomaly {
                Some(AnomalyType::Point)
            } else {
                None
            },
            confidence,
            contributing_features,
            timestamp: now,
        }
    }

    /// Looks for an anomaly in the features of a flow. The time is read from the clock.
    pub fn detect_anomalies(&self, features: &[Ppm], context: Option<usize>) -> (r:
        AnomalyDetectionResult)
        ensures
            r.anomaly_score == score_of(features@),
            is_unit(r.anomaly_score),
            r.threshold == detection_threshold(self@.config, self@.thresholds, context),
            r.is_anomaly == (r.anomaly_score > r.threshold),
            r.anomaly_type == if r.is_anomaly {
                Some(AnomalyType::Point)
            } else {
                None
            },
            r.confidence == confidence_of(r.anomaly_score, r.threshold),
            r.contributing_features@ == if r.is_anomaly {
                contributors(features@)
            } else {
                Seq::<(usize, Ppm)>::empty()
            },
    {
        let now = clock_micros() / 1_000_000;
        self.detect_anomalies_at(features, context, now)
    }

    /// Takes features into the baseline. The baseline holds nothing yet, so
    /// the detector stays as it is.
    pub fn update_baseline(&mut self, features: &[Ppm], is_normal: bool)
        ensures
            final(self)@ == old(self)@,
    {
    }

    /// Adjusts the thresholds of all contexts to the rates of false
    /// positives and negatives that were observed: one learning cycle, at
    /// whose end the new thresholds come into force together. The
    /// threshold that a score is held against stays in the unit interval
    /// and moves by the step of the settings at most, in every context.
    pub fn adjust_thresholds(&mut self, false_positive_rate: Ppm, false_negative_rate: Ppm)
        ensures
            coherent(old(self)@),
            coherent(final(self)@),
            final(self)@ == (AnomalyDetectorView {
                thresholds: learned(
                    old(self)@.thresholds,
                    false_positive_rate,
                    false_negative_rate,
                ),
                ..old(self)@
            }),
            forall|context: Option<usize>|
                is_unit(
                    #[trigger] detection_threshold(
                        final(self)@.config,
                        final(self)@.thresholds,
                        context,
                    ),
                ) && detection_threshold(old(self)@.config, old(self)@.thresholds, context)
                    - old(self)@.config.max_threshold_step <= detection_threshold(
                    final(self)@.config,
                    final(self)@.thresholds,
                    context,
                ) <= detection_threshold(old(self)@.config, old(self)@.thresholds, context)
                    + old(self)@.config.max_threshold_step,
    {
        proof {
            use_type_invariant(&*self);
        }
        let mut manager = AnomalyDetector::stand_in(&self.config);
        core::mem::swap(&mut self.thresholds, &mut manager);
        let ghost before = manager@;
        let _ = manager.begin_cycle();
        let _ = manager.feed_all(false_positive_rate, false_negative_rate);
        let _ = manager.commit_cycle();
        proof {
            assert(manager@ == learned(before, false_positive_rate, false_negative_rate));
            assert forall|context: Option<usize>|
                is_unit(#[trigger] detection_threshold(self.config, manager@, context))
                    && detection_threshold(self.config, before, context)
                    - self.config.max_threshold_step <= detection_threshold(
                    self.config,
                    manager@,
                    context,
                ) <= detection_threshold(self.config, before, context)
                    + self.config.max_threshold_step by {
                lemma_detection_threshold_moves_by_a_step(
                    self.config,
                    before,
                    false_positive_rate,
                    false_negative_rate,
                    context,
                );
            }
        }
        core::mem::swap(&mut self.thresholds, &mut manager);
    }
}

} // verus!

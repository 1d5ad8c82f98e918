//! Features of a network flow.

use vstd::prelude::*;
use crate::fixed::{ratio, ratio_of, Ppm};

verus! {

/// Settings of the extractor.
#[derive(Debug, Clone, Copy, PartialEq, Eq, Structural)]
pub struct FeatureExtractionConfig {
    /// How many features a flow is turned into.
    pub feature_dimension: usize,
    /// The window of time that is looked at, in milliseconds.
    pub time_window_ms: u64,
    pub enable_statistical_features: bool,
    pub enable_temporal_features: bool,
    pub enable_protocol_features: bool,
    pub enable_behavioral_features: bool,
    /// The least variance that a feature must show to be kept.
    pub min_variance_threshold: Ppm,
}

impl Default for FeatureExtractionConfig {
    fn default() -> (r: Self)
        ensures
            r == (FeatureExtractionConfig {
                feature_dimension: 128,
                time_window_ms: 1000,
                enable_statistical_features: true,
                enable_temporal_features: true,
                enable_protocol_features: true,
                enable_behavioral_features: true,
                min_variance_threshold: 10_000,
            }),
    {
        FeatureExtractionConfig {
            feature_dimension: 128,
            time_window_ms: 1000,
            enable_statistical_features: true,
            enable_temporal_features: true,
            enable_protocol_features: true,
            enable_behavioral_features: true,
            min_variance_threshold: 10_000,
        }
    }
}

/// The families of features.
#[derive(Debug, Clone, Copy, PartialEq, Eq, Structural)]
pub enum FeatureType {
    Statistical,
    Temporal,
    Protocol,
    Behavioral,
}

/// The family that a slot of the feature vector belongs to: the slots go
/// to the four families in turn.
pub open spec fn family_of(slot: int) -> FeatureType {
    if slot % 4 == 0 {
        FeatureType::Statistical
    } else if slot % 4 == 1 {
        FeatureType::Temporal
    } else if slot % 4 == 2 {
        FeatureType::Protocol
    } else {
        FeatureType::Behavioral
    }
}

/// Whether a family of features is switched on.
pub open spec fn family_enabled(config: FeatureExtractionConfig, family: FeatureType) -> bool {
    match family {
        FeatureType::Statistical => config.enable_statistical_features,
        FeatureType::Temporal => config.enable_temporal_features,
        FeatureType::Protocol => config.enable_protocol_features,
        FeatureType::Behavioral => config.enable_behavioral_features,
    }
}

/// Feature `i` of a flow: the byte at position `i`, counted round the
/// flow, as a fraction of 255. The neutral value 0 stands in the slots of
/// a family that is switched off, and in every slot for an empty flow.
pub open spec fn flow_feature(config: FeatureExtractionConfig, flow: Seq<u8>, i: int) -> Ppm {
    if !family_enabled(config, family_of(i)) || flow.len() == 0 {
        0
    } else {
        ratio_of(flow[i % (flow.len() as int)] as nat, 255) as Ppm
    }
}

/// The features of a flow: as many as the settings say, whatever the flow
/// holds and whichever families are switched on.
pub open spec fn flow_features(config: FeatureExtractionConfig, flow: Seq<u8>) -> Seq<Ppm> {
    Seq::new(config.feature_dimension as nat, |i: int| flow_feature(config, flow, i))
}

/// The slots of a family that is switched off hold the neutral value, and
/// the same flow gives the same features under the same settings.
pub proof fn lemma_disabled_families_are_neutral(
    config: FeatureExtractionConfig,
    flow: Seq<u8>,
    slot: int,
)
    requires
        0 <= slot < config.feature_dimension,
        !family_enabled(config, family_of(slot)),
    ensures
        flow_features(config, flow).len() == config.feature_dimension,
        flow_features(config, flow)[slot] == 0,
{
}

/// The sum of the bytes of a flow.
pub open spec fn byte_sum(flow: Seq<u8>) -> nat
    decreases flow.len(),
{
    if flow.len() == 0 {
        0
    } else {
        byte_sum(flow.drop_last()) + flow.last() as nat
    }
}

/// The sum of the squares of the bytes of a flow.
pub open spec fn square_sum(flow: Seq<u8>) -> nat
    decreases flow.len(),
{
    if flow.len() == 0 {
        0
    } else {
        square_sum(flow.drop_last()) + (flow.last() as nat) * (flow.last() as nat)
    }
}

/// How often the byte `value` occurs in a flow.
pub open spec fn occurrences(flow: Seq<u8>, value: int) -> nat
    decreases flow.len(),
{
    if flow.len() == 0 {
        0
    } else {
        occurrences(flow.drop_last(), value) + if flow.last() == value {
            1nat
        } else {
            0nat
        }
    }
}

/// The sums are bounded by the length of the flow, and no byte occurs more often than the flow is long.
pub proof fn lemma_sums_are_bounded(flow: Seq<u8>, value: int)
    ensures
        byte_sum(flow) <= 255 * flow.len(),
        square_sum(flow) <= 65025 * flow.len(),
        occurrences(flow, value) <= flow.len(),
    decreases flow.len(),
{
    if flow.len() > 0 {
        lemma_sums_are_bounded(flow.drop_last(), value);
        let last = flow.last() as nat;
        assert(last * last <= 65025) by (nonlinear_arith)
            requires
                last <= 255,
        ;
    }
}

/// What the statistical features of a flow are computed from.
#[derive(Debug)]
pub struct ByteStatistics {
    /// The number of bytes.
    pub count: usize,
    /// The sum of the bytes.
    pub sum: u128,
    /// The sum of the squares of the bytes.
    pub sum_of_squares: u128,
    /// For each value of a byte, how often it occurs.
    pub histogram: Vec<u64>,
}

/// The least value of a list; 0 for an empty list.
pub open spec fn least(values: Seq<Ppm>) -> Ppm
    decreases values.len(),
{
    if values.len() == 0 {
        0
    } else if values.len() == 1 {
        values[0]
    } else if values.last() < least(values.drop_last()) {
        values.last()
    } else {
        least(values.drop_last())
    }
}

/// The greatest value of a list; 0 for an empty list.
pub open spec fn greatest(values: Seq<Ppm>) -> Ppm
    decreases values.len(),
{
    if values.len() == 0 {
        0
    } else if values.len() == 1 {
        values[0]
    } else if values.last() > greatest(values.drop_last()) {
        values.last()
    } else {
        greatest(values.drop_last())
    }
}

/// The least value is no greater, and the greatest no less, than any value of the list.
pub proof fn lemma_least_and_greatest(values: Seq<Ppm>)
    ensures
        forall|i: int| 0 <= i < values.len() ==> least(values) <= (#[trigger] values[i]) <= greatest(values),
        values.len() > 0 ==> least(values) <= greatest(values),
    decreases values.len(),
{
    if values.len() > 1 {
        lemma_least_and_greatest(values.drop_last());
        assert forall|i: int| 0 <= i < values.len() implies least(values) <= (#[trigger] values[i])
            <= greatest(values) by {
            if i < values.len() - 1 {
                assert(values.drop_last()[i] == values[i]);
            }
        }
        assert(values.drop_last()[0] == values[0]);
    }
}

/// The values of a list spread over the unit interval: the least becomes
/// 0, the greatest 1, and the others keep their place between them. A list
/// whose values are all the same stays as it is.
pub open spec fn spread(values: Seq<Ppm>) -> Seq<Ppm> {
    if values.len() == 0 || greatest(values) == least(values) {
        values
    } else {
        Seq::new(
            values.len(),
            |i: int|
                ratio_of(
                    (values[i] - least(values)) as nat,
                    (greatest(values) - least(values)) as nat,
                ) as Ppm,
        )
    }
}

/// Turns flows into features.
#[derive(Debug)]
pub struct FeatureExtractor {
    config: FeatureExtractionConfig,
}

impl FeatureExtractor {
    /// The settings of the extractor.
    pub closed spec fn settings(&self) -> FeatureExtractionConfig {
        self.config
    }

    pub fn new(config: FeatureExtractionConfig) -> (r: Self)
        ensures
            r.settings() == config,
    {
        FeatureExtractor { config }
    }

    /// The settings of the extractor.
    pub fn config(&self) -> (r: &FeatureExtractionConfig)
        ensures
            *r == self.settings(),
    {
        &self.config
    }

    /// The family that a slot of the feature vector belongs to.
    pub fn family(slot: usize) -> (r: FeatureType)
        ensures
            r == family_of(slot as int),
    {
        let turn = slot % 4;
        if turn == 0 {
            FeatureType::Statistical
        } else if turn == 1 {
            FeatureType::Temporal
        } else if turn == 2 {
            FeatureType::Protocol
        } else {
            FeatureType::Behavioral
        }
    }

    /// Whether a family of features is switched on.
    pub fn is_enabled(&self, family: FeatureType) -> (r: bool)
        ensures
            r == family_enabled(self.settings(), family),
    {
        match family {
            FeatureType::Statistical => self.config.enable_statistical_features,
            FeatureType::Temporal => self.config.enable_temporal_features,
            FeatureType::Protocol => self.config.enable_protocol_features,
            FeatureType::Behavioral => self.config.enable_behavioral_features,
        }
    }

    /// Turns a flow into features: always as many as the settings say. The
    /// slots of a family that is switched off hold 0, and so does every
    /// slot for an empty flow; no slot is left out.
    pub fn extract_features(&self, flow_data: &[u8]) -> (r: Vec<Ppm>)
        ensures
            r@ == flow_features(self.settings(), flow_data@),
            r@.len() == self.settings().feature_dimension,
            forall|i: int|
                0 <= i < r@.len() && !family_enabled(self.settings(), family_of(i)) ==> (
                #[trigger] r@[i]) == 0,
    {
        let dimension = self.config.feature_dimension;
        let mut features: Vec<Ppm> = Vec::new();
        let mut i: usize = 0;
        while i < dimension
            invariant
                i <= dimension,
                dimension == self.config.feature_dimension,
                features@.len() == i,
                forall|j: int|
                    0 <= j < i ==> (#[trigger] features@[j]) == flow_feature(
                        self.config,
                        flow_data@,
                        j,
                    ),
            decreases dimension - i,
        {
            let value: Ppm = if self.is_enabled(FeatureExtractor::family(i)) && flow_data.len()
                > 0 {
                ratio(flow_data[i % flow_data.len()] as u64, 255)
            } else {
                0
            };
            features.push(value);
            i += 1;
        }
        assert(features@ =~= flow_features(self.config, flow_data@));
        features
    }

    /// The counts and sums from which the statistical features of a flow are
    /// computed: none where that family is switched off or the flow is empty.
    pub fn summarize(&self, flow_data: &[u8]) -> (r: Option<ByteStatistics>)
        ensures
            !self.settings().enable_statistical_features || flow_data@.len() == 0 ==> r is None,
            self.settings().enable_statistical_features && flow_data@.len() > 0 ==> r is Some,
            r matches Some(s) ==> s.count == flow_data@.len() && s.sum == byte_sum(flow_data@)
                && s.sum_of_squares == square_sum(flow_data@) && s.histogram@.len() == 256
                && forall|v: int|
                0 <= v < 256 ==> (#[trigger] s.histogram@[v]) == occurrences(flow_data@, v),
    {
        if !self.config.enable_statistical_features || flow_data.len() == 0 {
            return None;
        }
        let mut histogram: Vec<u64> = Vec::new();
        let mut v: usize = 0;
        while v < 256
            invariant
                v <= 256,
                histogram@.len() == v,
                forall|k: int| 0 <= k < v ==> (#[trigger] histogram@[k]) == 0,
            decreases 256 - v,
        {
            histogram.push(0);
            v += 1;
        }
        let mut sum: u128 = 0;
        let mut sum_of_squares: u128 = 0;
        let mut i: usize = 0;
        assert(flow_data@.subrange(0, 0) =~= Seq::<u8>::empty());
        while i < flow_data.len()
            invariant
                i <= flow_data.len(),
                histogram@.len() == 256,
                sum == byte_sum(flow_data@.subrange(0, i as int)),
                sum_of_squares == square_sum(flow_data@.subrange(0, i as int)),
                forall|k: int|
                    0 <= k < 256 ==> (#[trigger] histogram@[k]) == occurrences(
                        flow_data@.subrange(0, i as int),
                        k,
                    ),
            decreases flow_data.len() - i,
        {
            let byte = flow_data[i];
            let ghost before = flow_data@.subrange(0, i as int);
            let ghost after = flow_data@.subrange(0, i + 1);
            proof {
                assert(after.drop_last() =~= before);
                assert(after.last() == byte);
                lemma_sums_are_bounded(before, byte as int);
                lemma_sums_are_bounded(after, byte as int);
            }
            sum = sum + byte as u128;
            sum_of_squares = sum_of_squares + (byte as u128) * (byte as u128);
            let seen = histogram[byte as usize];
            histogram.set(byte as usize, seen + 1);
            proof {
                assert forall|k: int| 0 <= k < 256 implies (#[trigger] histogram@[k])
                    == occurrences(after, k) by {
                    if k != byte {
                        assert(occurrences(after, k) == occurrences(before, k));
                    }
                }
            }
            i += 1;
        }
        assert(flow_data@.subrange(0, flow_data@.len() as int) =~= flow_data@);
        Some(ByteStatistics { count: flow_data.len(), sum, sum_of_squares, histogram })
    }

    /// The temporal features of a flow. None are extracted yet.
    pub fn extract_temporal_features(&self, flow_data: &[u8], timestamps: &[u64]) -> (r: Vec<Ppm>)
        ensures
            r@ == Seq::<Ppm>::empty(),
    {
        Vec::new()
    }

    /// The protocol features of a flow. None are extracted yet.
    pub fn extract_protocol_features(&self, flow_data: &[u8]) -> (r: Vec<Ppm>)
        ensures
            r@ == Seq::<Ppm>::empty(),
    {
        Vec::new()
    }

    /// The behavioural features of a flow. None are extracted yet.
    pub fn extract_behavioral_features(&self, flow_data: &[u8]) -> (r: Vec<Ppm>)
        ensures
            r@ == Seq::<Ppm>::empty(),
    {
        Vec::new()
    }

    /// Spreads the features over the unit interval.
    pub fn normalize_features(&self, features: &mut Vec<Ppm>)
        ensures
            final(features)@ == spread(old(features)@),
    {
        if features.len() == 0 {
            return;
        }
        let ghost given = features@;
        let mut min_val = features[0];
        let mut max_val = features[0];
        let mut i: usize = 1;
        assert(given.subrange(0, 1) =~= seq![given[0]]);
        while i < features.len()
            invariant
                1 <= i <= features.len(),
                features@ == given,
                min_val == least(given.subrange(0, i as int)),
                max_val == greatest(given.subrange(0, i as int)),
            decreases features.len() - i,
        {
            let val = features[i];
            proof {
                let next = given.subrange(0, i + 1);
                assert(next.drop_last() =~= given.subrange(0, i as int));
                assert(next.last() == val);
            }
            if val < min_val {
                min_val = val;
            }
            if val > max_val {
                max_val = val;
            }
            i += 1;
        }
        proof {
            assert(given.subrange(0, given.len() as int) =~= given);
            lemma_least_and_greatest(given);
        }
        if max_val == min_val {
            return;
        }
        let range = max_val - min_val;
        let mut k: usize = 0;
        while k < features.len()
            invariant
                k <= features.len(),
                features@.len() == given.len(),
                min_val == least(given),
                max_val == greatest(given),
                range == max_val - min_val,
                range > 0,
                forall|j: int| 0 <= j < given.len() ==> least(given) <= (#[trigger] given[j]),
                forall|j: int| 0 <= j < k ==> (#[trigger] features@[j]) == spread(given)[j],
                forall|j: int| k <= j < features@.len() ==> (#[trigger] features@[j]) == given[j],
            decreases features.len() - k,
        {
            let val = features[k];
            features.set(k, ratio((val - min_val) as u64, range as u64));
            k += 1;
        }
        assert(features@ =~= spread(given));
    }
}

} // verus!

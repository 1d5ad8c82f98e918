//! The transformer model: its layout, without weights.

use vstd::prelude::*;
use crate::fixed::{Ppm, SignedPpm};

verus! {

/// Settings of the transformer.
#[derive(Debug, Clone, Copy, PartialEq, Eq, Structural)]
pub struct TransformerConfig {
    pub num_heads: usize,
    pub hidden_dim: usize,
    pub num_encoder_layers: usize,
    pub num_decoder_layers: usize,
    pub input_vocab_size: usize,
    pub max_seq_length: usize,
    pub dropout_rate: Ppm,
    pub use_gpu: bool,
}

impl Default for TransformerConfig {
    fn default() -> (r: Self)
        ensures
            r == (TransformerConfig {
                num_heads: 24,
                hidden_dim: 2048,
                num_encoder_layers: 12,
                num_decoder_layers: 12,
                input_vocab_size: 65536,
                max_seq_length: 4096,
                dropout_rate: 100_000,
                use_gpu: true,
            }),
    {
        TransformerConfig {
            num_heads: 24,
            hidden_dim: 2048,
            num_encoder_layers: 12,
            num_decoder_layers: 12,
            input_vocab_size: 65536,
            max_seq_length: 4096,
            dropout_rate: 100_000,
            use_gpu: true,
        }
    }
}

/// Why a model could not be had.
#[derive(Debug, Clone, Copy, PartialEq, Eq, Structural)]
pub enum ModelError {
    /// Models cannot be loaded yet.
    NotImplemented,
}

/// Attention over several heads.
#[derive(Debug)]
pub struct MultiHeadAttention {
    pub config: TransformerConfig,
}

impl MultiHeadAttention {
    pub fn new(config: TransformerConfig) -> (r: Self)
        ensures
            r.config == config,
    {
        MultiHeadAttention { config }
    }

    /// The attention over `input`. Without weights there is none: the result is empty.
    pub fn compute_attention(&self, input: &[SignedPpm], mask: Option<&[bool]>) -> (r: Vec<
        SignedPpm,
    >)
        ensures
            r@ == Seq::<SignedPpm>::empty(),
    {
        Vec::new()
    }
}

/// A feed-forward layer.
#[derive(Debug)]
pub struct FeedForward {
    pub config: TransformerConfig,
}

impl FeedForward {
    pub fn new(config: TransformerConfig) -> (r: Self)
        ensures
            r.config == config,
    {
        FeedForward { config }
    }

    /// What the layer makes of `input`. Without weights the result is empty.
    pub fn forward(&self, input: &[SignedPpm]) -> (r: Vec<SignedPpm>)
        ensures
            r@ == Seq::<SignedPpm>::empty(),
    {
        Vec::new()
    }
}

/// One layer of the encoder.
#[derive(Debug)]
pub struct EncoderLayer {
    pub attention: MultiHeadAttention,
    pub feed_forward: FeedForward,
    pub config: TransformerConfig,
}

impl EncoderLayer {
    pub fn new(config: TransformerConfig) -> (r: Self)
        ensures
            r.config == config,
            r.attention.config == config,
            r.feed_forward.config == config,
    {
        EncoderLayer {
            attention: MultiHeadAttention::new(config),
            feed_forward: FeedForward::new(config),
            config,
        }
    }

    /// What the layer makes of `input`. Without weights the result is empty.
    pub fn forward(&self, input: &[SignedPpm], mask: Option<&[bool]>) -> (r: Vec<SignedPpm>)
        ensures
            r@ == Seq::<SignedPpm>::empty(),
    {
        Vec::new()
    }
}

/// The encoder: a stack of layers.
#[derive(Debug)]
pub struct Encoder {
    pub layers: Vec<EncoderLayer>,
    pub config: TransformerConfig,
}

impl Encoder {
    /// An encoder with as many layers as the settings ask for, each with the same settings.
    pub fn new(config: TransformerConfig) -> (r: Self)
        ensures
            r.config == config,
            r.layers@.len() == config.num_encoder_layers,
            forall|i: int| 0 <= i < r.layers@.len() ==> (#[trigger] r.layers@[i]).config == config,
    {
        let mut layers: Vec<EncoderLayer> = Vec::new();
        let mut i: usize = 0;
        while i < config.num_encoder_layers
            invariant
                i <= config.num_encoder_layers,
                layers@.len() == i,
                forall|j: int| 0 <= j < i ==> (#[trigger] layers@[j]).config == config,
            decreases config.num_encoder_layers - i,
        {
            layers.push(EncoderLayer::new(config));
            i += 1;
        }
        Encoder { layers, config }
    }

    /// The encoding of `input`. Without weights the result is empty.
    pub fn encode(&self, input: &[u8], mask: Option<&[bool]>) -> (r: Vec<SignedPpm>)
        ensures
            r@ == Seq::<SignedPpm>::empty(),
    {
        Vec::new()
    }
}

/// The whole model.
#[derive(Debug)]
pub struct TransformerModel {
    pub encoder: Encoder,
    pub config: TransformerConfig,
}

impl TransformerModel {
    pub fn new(config: TransformerConfig) -> (r: Self)
        ensures
            r.config == config,
            r.encoder.config == config,
            r.encoder.layers@.len() == config.num_encoder_layers,
            forall|i: int|
                0 <= i < r.encoder.layers@.len() ==> (#[trigger] r.encoder.layers@[i]).config
                    == config,
    {
        TransformerModel { encoder: Encoder::new(config), config }
    }

    /// Loads a trained model. Models cannot be loaded yet.
    pub fn load(path: &str) -> (r: Result<Self, ModelError>)
        ensures
            r is Err,
            r->Err_0 == ModelError::NotImplemented,
    {
        Err(ModelError::NotImplemented)
    }

    /// What the model makes of `input`. Without weights the result is empty.
    pub fn forward(&self, input: &[u8]) -> (r: Vec<SignedPpm>)
        ensures
            r@ == Seq::<SignedPpm>::empty(),
    {
        Vec::new()
    }

    /// The anomaly score of a flow with the features behind it. Without
    /// weights the score is 0 and there are no features.
    pub fn analyze_network_flow(&self, flow_data: &[u8]) -> (r: (Ppm, Vec<SignedPpm>))
        ensures
            r.0 == 0,
            r.1@ == Seq::<SignedPpm>::empty(),
    {
        (0, Vec::new())
    }
}

} // verus!

//! The Mixtral architecture.

use crate::loader::{Construction, NormalModelLoader, XLoraConstruction};
use crate::number::Double;
use candle_nn::Activation;
use vstd::prelude::*;

verus! {

/// The canonical configuration of a Mixtral model.
#[derive(Clone, Copy, Debug, PartialEq)]
pub struct Config {
    pub vocab_size: usize,
    pub hidden_size: usize,
    pub intermediate_size: usize,
    pub num_hidden_layers: usize,
    pub num_attention_heads: usize,
    pub num_key_value_heads: usize,
    pub hidden_act: Activation,
    pub max_position_embeddings: usize,
    pub rms_norm_eps: Double,
    pub rope_theta: Double,
    pub sliding_window: usize,
    pub num_experts_per_tok: usize,
    pub num_local_experts: usize,
    pub use_flash_attn: bool,
}

/// A Mixtral configuration as the decoder makes it of a document. Every
/// field is required of the document.
#[derive(Clone, Copy, Debug, PartialEq)]
pub struct MixtralBasicConfig {
    pub vocab_size: usize,
    pub hidden_size: usize,
    pub intermediate_size: usize,
    pub num_hidden_layers: usize,
    pub num_attention_heads: usize,
    pub num_key_value_heads: usize,
    pub hidden_act: Activation,
    pub max_position_embeddings: usize,
    pub rms_norm_eps: Double,
    pub rope_theta: Double,
    pub sliding_window: usize,
    pub num_experts_per_tok: usize,
    pub num_local_experts: usize,
}

impl MixtralBasicConfig {
    /// The canonical configuration: every field as the document holds it, and
    /// the flash-attention flag that the caller chose.
    pub open spec fn canonical(self, use_flash_attn: bool) -> Config {
        Config {
            vocab_size: self.vocab_size,
            hidden_size: self.hidden_size,
            intermediate_size: self.intermediate_size,
            num_hidden_layers: self.num_hidden_layers,
            num_attention_heads: self.num_attention_heads,
            num_key_value_heads: self.num_key_value_heads,
            hidden_act: self.hidden_act,
            max_position_embeddings: self.max_position_embeddings,
            rms_norm_eps: self.rms_norm_eps,
            rope_theta: self.rope_theta,
            sliding_window: self.sliding_window,
            num_experts_per_tok: self.num_experts_per_tok,
            num_local_experts: self.num_local_experts,
            use_flash_attn,
        }
    }

    /// What the outcome of decoding normalizes to: the canonical configuration
    /// of the record, or the diagnostic of the decoder as it came.
    pub open spec fn deserialized<D>(
        decoded: Result<MixtralBasicConfig, D>,
        use_flash_attn: bool,
    ) -> Result<Config, D> {
        match decoded {
            Ok(basic) => Ok(basic.canonical(use_flash_attn)),
            Err(diagnostic) => Err(diagnostic),
        }
    }

    /// Completes the record to the canonical configuration.
    pub fn normalize(self, use_flash_attn: bool) -> (r: Config)
        ensures
            r == self.canonical(use_flash_attn),
    {
        Config {
            vocab_size: self.vocab_size,
            hidden_size: self.hidden_size,
            intermediate_size: self.intermediate_size,
            num_hidden_layers: self.num_hidden_layers,
            num_attention_heads: self.num_attention_heads,
            num_key_value_heads: self.num_key_value_heads,
            hidden_act: self.hidden_act,
            max_position_embeddings: self.max_position_embeddings,
            rms_norm_eps: self.rms_norm_eps,
            rope_theta: self.rope_theta,
            sliding_window: self.sliding_window,
            num_experts_per_tok: self.num_experts_per_tok,
            num_local_experts: self.num_local_experts,
            use_flash_attn,
        }
    }

    /// Finishes the deserialization of a configuration document: the record
    /// that the decoder made of it is completed to the canonical
    /// configuration; the diagnostic with which the decoder turned it down is
    /// handed back unchanged, and no configuration with it.
    pub fn deserialize<D>(decoded: Result<MixtralBasicConfig, D>, use_flash_attn: bool) -> (r: Result<
        Config,
        D,
    >)
        ensures
            r == Self::deserialized(decoded, use_flash_attn),
    {
        match decoded {
            Ok(basic) => Ok(basic.normalize(use_flash_attn)),
            Err(diagnostic) => Err(diagnostic),
        }
    }
}

/// The loader of Mixtral models.
#[derive(Clone, Copy, Debug)]
pub struct MixtralLoader;

impl NormalModelLoader for MixtralLoader {
    type Basic = MixtralBasicConfig;

    type Config = Config;

    open spec fn canonical(&self, basic: MixtralBasicConfig, use_flash_attn: bool) -> Config {
        basic.canonical(use_flash_attn)
    }

    open spec fn gptx(&self) -> bool {
        true
    }

    fn load<W, D>(&self, config: Result<MixtralBasicConfig, D>, use_flash_attn: bool, vb: W) -> (r: Result<
        Construction<Config, W>,
        D,
    >) {
        match MixtralBasicConfig::deserialize(config, use_flash_attn) {
            Ok(config) => Ok(Construction { config, vb, is_gptx: self.is_gptx() }),
            Err(diagnostic) => Err(diagnostic),
        }
    }

    fn load_xlora<'a, W, L, X, O, D>(
        &self,
        config: Result<MixtralBasicConfig, D>,
        use_flash_attn: bool,
        vb: W,
        lora_config: &'a [(String, L)],
        xlora_config: Option<X>,
        xlora_ordering: O,
    ) -> (r: Result<XLoraConstruction<'a, Config, W, L, X, O>, D>) {
        match MixtralBasicConfig::deserialize(config, use_flash_attn) {
            Ok(config) => Ok(
                XLoraConstruction {
                    config,
                    vb,
                    lora_config,
                    xlora_config,
                    xlora_ordering,
                    is_gptx: self.is_gptx(),
                },
            ),
            Err(diagnostic) => Err(diagnostic),
        }
    }

    fn is_gptx(&self) -> (r: bool) {
        true
    }
}

} // verus!

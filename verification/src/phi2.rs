//! The Phi-2 architecture.

use crate::loader::{Construction, NormalModelLoader, XLoraConstruction};
use crate::number::{Double, Single};
use candle_nn::Activation;
use vstd::prelude::*;

verus! {

/// The canonical configuration of a Phi-2 model.
#[derive(Clone, Copy, Debug, PartialEq)]
pub struct Config {
    pub vocab_size: usize,
    pub hidden_size: usize,
    pub intermediate_size: usize,
    pub num_hidden_layers: usize,
    pub num_attention_heads: usize,
    pub num_key_value_heads: usize,
    pub hidden_act: Activation,
    pub max_position_embeddings: usize,
    pub layer_norm_eps: Double,
    pub tie_word_embeddings: bool,
    pub rope_theta: Single,
    pub partial_rotary_factor: Double,
    pub qk_layernorm: bool,
    pub use_flash_attn: bool,
}

/// A Phi-2 configuration as the decoder makes it of a document. Every field
/// but `num_key_value_heads` is required of the document.
#[derive(Clone, Copy, Debug, PartialEq)]
pub struct Phi2BasicConfig {
    pub vocab_size: usize,
    pub hidden_size: usize,
    pub intermediate_size: usize,
    pub num_hidden_layers: usize,
    pub num_attention_heads: usize,
    pub num_key_value_heads: Option<usize>,
    pub hidden_act: Activation,
    pub max_position_embeddings: usize,
    pub layer_norm_eps: Double,
    pub tie_word_embeddings: bool,
    pub rope_theta: Single,
    pub partial_rotary_factor: Double,
    pub qk_layernorm: bool,
}

impl Phi2BasicConfig {
    /// The canonical configuration: as many key/value heads as attention heads
    /// where the document names no number of them, every other field as the
    /// document holds it, and the flash-attention flag that the caller chose.
    pub open spec fn canonical(self, use_flash_attn: bool) -> Config {
        Config {
            vocab_size: self.vocab_size,
            hidden_size: self.hidden_size,
            intermediate_size: self.intermediate_size,
            num_hidden_layers: self.num_hidden_layers,
            num_attention_heads: self.num_attention_heads,
            num_key_value_heads: match self.num_key_value_heads {
                Some(given) => given,
                None => self.num_attention_heads,
            },
            hidden_act: self.hidden_act,
            max_position_embeddings: self.max_position_embeddings,
            layer_norm_eps: self.layer_norm_eps,
            tie_word_embeddings: self.tie_word_embeddings,
            rope_theta: self.rope_theta,
            partial_rotary_factor: self.partial_rotary_factor,
            qk_layernorm: self.qk_layernorm,
            use_flash_attn,
        }
    }

    /// What the outcome of decoding normalizes to: the canonical configuration
    /// of the record, or the diagnostic of the decoder as it came.
    pub open spec fn deserialized<D>(
        decoded: Result<Phi2BasicConfig, D>,
        use_flash_attn: bool,
    ) -> Result<Config, D> {
        match decoded {
            Ok(basic) => Ok(basic.canonical(use_flash_attn)),
            Err(diagnostic) => Err(diagnostic),
        }
    }

    /// Completes the record to the canonical configuration.
    pub fn normalize(self, use_flash_attn: bool) -> (r: Config)
        ensures
            r == self.canonical(use_flash_attn),
    {
        Config {
            vocab_size: self.vocab_size,
            hidden_size: self.hidden_size,
            intermediate_size: self.intermediate_size,
            num_hidden_layers: self.num_hidden_layers,
            num_attention_heads: self.num_attention_heads,
            num_key_value_heads: match self.num_key_value_heads {
                Some(given) => given,
                None => self.num_attention_heads,
            },
            hidden_act: self.hidden_act,
            max_position_embeddings: self.max_position_embeddings,
            layer_norm_eps: self.layer_norm_eps,
            tie_word_embeddings: self.tie_word_embeddings,
            rope_theta: self.rope_theta,
            partial_rotary_factor: self.partial_rotary_factor,
            qk_layernorm: self.qk_layernorm,
            use_flash_attn,
        }
    }

    /// Finishes the deserialization of a configuration document: the record
    /// that the decoder made of it is completed to the canonical
    /// configuration; the diagnostic with which the decoder turned it down is
    /// handed back unchanged, and no configuration with it.
    pub fn deserialize<D>(decoded: Result<Phi2BasicConfig, D>, use_flash_attn: bool) -> (r: Result<
        Config,
        D,
    >)
        ensures
            r == Self::deserialized(decoded, use_flash_attn),
    {
        match decoded {
            Ok(basic) => Ok(basic.normalize(use_flash_attn)),
            Err(diagnostic) => Err(diagnostic),
        }
    }
}

/// A Phi-2 document that names no number of key/value heads normalizes to as
/// many as it has attention heads; a number that the document names is kept.
pub proof fn lemma_absent_fields_take_defaults(basic: Phi2BasicConfig, use_flash_attn: bool)
    ensures
        basic.num_key_value_heads is None ==> basic.canonical(use_flash_attn).num_key_value_heads
            == basic.num_attention_heads,
        basic.num_key_value_heads matches Some(n) ==> basic.canonical(
            use_flash_attn,
        ).num_key_value_heads == n,
        basic.canonical(use_flash_attn).num_attention_heads == basic.num_attention_heads,
        basic.canonical(use_flash_attn).use_flash_attn == use_flash_attn,
{
}

/// The loader of Phi-2 models.
#[derive(Clone, Copy, Debug)]
pub struct Phi2Loader;

impl NormalModelLoader for Phi2Loader {
    type Basic = Phi2BasicConfig;

    type Config = Config;

    open spec fn canonical(&self, basic: Phi2BasicConfig, use_flash_attn: bool) -> Config {
        basic.canonical(use_flash_attn)
    }

    open spec fn gptx(&self) -> bool {
        true
    }

    fn load<W, D>(&self, config: Result<Phi2BasicConfig, D>, use_flash_attn: bool, vb: W) -> (r: Result<
        Construction<Config, W>,
        D,
    >) {
        match Phi2BasicConfig::deserialize(config, use_flash_attn) {
            Ok(config) => Ok(Construction { config, vb, is_gptx: self.is_gptx() }),
            Err(diagnostic) => Err(diagnostic),
        }
    }

    fn load_xlora<'a, W, L, X, O, D>(
        &self,
        config: Result<Phi2BasicConfig, D>,
        use_flash_attn: bool,
        vb: W,
        lora_config: &'a [(String, L)],
        xlora_config: Option<X>,
        xlora_ordering: O,
    ) -> (r: Result<XLoraConstruction<'a, Config, W, L, X, O>, D>) {
        match Phi2BasicConfig::deserialize(config, use_flash_attn) {
            Ok(config) => Ok(
                XLoraConstruction {
                    config,
                    vb,
                    lora_config,
                    xlora_config,
                    xlora_ordering,
                    is_gptx: self.is_gptx(),
                },
            ),
            Err(diagnostic) => Err(diagnostic),
        }
    }

    fn is_gptx(&self) -> (r: bool) {
        true
    }
}

} // verus!

//! The Gemma architecture.

use crate::loader::{Construction, NormalModelLoader, XLoraConstruction};
use crate::number::Double;
use candle_nn::Activation;
use vstd::prelude::*;

verus! {

/// The number of positions of a Gemma model whose document names none.
pub const DEFAULT_MAX_POSITION_EMBEDDINGS: usize = 4096;

/// The number of positions of a Gemma model whose document names none.
pub fn default_max_position_embeddings() -> (r: usize)
    ensures
        r == DEFAULT_MAX_POSITION_EMBEDDINGS,
        r == 4096,
{
    DEFAULT_MAX_POSITION_EMBEDDINGS
}

/// The canonical configuration of a Gemma model.
#[derive(Clone, Copy, Debug, PartialEq)]
pub struct Config {
    pub attention_bias: bool,
    pub head_dim: usize,
    pub hidden_act: Option<Activation>,
    pub hidden_activation: Option<Activation>,
    pub hidden_size: usize,
    pub intermediate_size: usize,
    pub num_attention_heads: usize,
    pub num_hidden_layers: usize,
    pub num_key_value_heads: usize,
    pub rms_norm_eps: Double,
    pub rope_theta: Double,
    pub vocab_size: usize,
    pub max_position_embeddings: usize,
    pub use_flash_attn: bool,
}

/// A Gemma configuration as the decoder makes it of a document. The two
/// activation fields and `max_position_embeddings` may be left out of the
/// document, every other field is required of it.
#[derive(Clone, Copy, Debug, PartialEq)]
pub struct GemmaBasicConfig {
    pub attention_bias: bool,
    pub head_dim: usize,
    // The code gemma configs include both hidden_act and hidden_activation.
    pub hidden_act: Option<Activation>,
    pub hidden_activation: Option<Activation>,
    pub hidden_size: usize,
    pub intermediate_size: usize,
    pub num_attention_heads: usize,
    pub num_hidden_layers: usize,
    pub num_key_value_heads: usize,
    pub rms_norm_eps: Double,
    pub rope_theta: Double,
    pub vocab_size: usize,
    pub max_position_embeddings: Option<usize>,
}

impl GemmaBasicConfig {
    /// The canonical configuration: 4096 positions where the document names no
    /// number of them, every other field as the document holds it, and the
    /// flash-attention flag that the caller chose.
    pub open spec fn canonical(self, use_flash_attn: bool) -> Config {
        Config {
            attention_bias: self.attention_bias,
            head_dim: self.head_dim,
            hidden_act: self.hidden_act,
            hidden_activation: self.hidden_activation,
            hidden_size: self.hidden_size,
            intermediate_size: self.intermediate_size,
            num_attention_heads: self.num_attention_heads,
            num_hidden_layers: self.num_hidden_layers,
            num_key_value_heads: self.num_key_value_heads,
            rms_norm_eps: self.rms_norm_eps,
            rope_theta: self.rope_theta,
            vocab_size: self.vocab_size,
            max_position_embeddings: match self.max_position_embeddings {
                Some(given) => given,
                None => DEFAULT_MAX_POSITION_EMBEDDINGS,
            },
            use_flash_attn,
        }
    }

    /// What the outcome of decoding normalizes to: the canonical configuration
    /// of the record, or the diagnostic of the decoder as it came.
    pub open spec fn deserialized<D>(
        decoded: Result<GemmaBasicConfig, D>,
        use_flash_attn: bool,
    ) -> Result<Config, D> {
        match decoded {
            Ok(basic) => Ok(basic.canonical(use_flash_attn)),
            Err(diagnostic) => Err(diagnostic),
        }
    }

    /// Completes the record to the canonical configuration.
    pub fn normalize(self, use_flash_attn: bool) -> (r: Config)
        ensures
            r == self.canonical(use_flash_attn),
    {
        Config {
            attention_bias: self.attention_bias,
            head_dim: self.head_dim,
            hidden_act: self.hidden_act,
            hidden_activation: self.hidden_activation,
            hidden_size: self.hidden_size,
            intermediate_size: self.intermediate_size,
            num_attention_heads: self.num_attention_heads,
            num_hidden_layers: self.num_hidden_layers,
            num_key_value_heads: self.num_key_value_heads,
            rms_norm_eps: self.rms_norm_eps,
            rope_theta: self.rope_theta,
            vocab_size: self.vocab_size,
            max_position_embeddings: match self.max_position_embeddings {
                Some(given) => given,
                None => default_max_position_embeddings(),
            },
            use_flash_attn,
        }
    }

    /// Finishes the deserialization of a configuration document: the record
    /// that the decoder made of it is completed to the canonical
    /// configuration; the diagnostic with which the decoder turned it down is
    /// handed back unchanged, and no configuration with it.
    pub fn deserialize<D>(decoded: Result<GemmaBasicConfig, D>, use_flash_attn: bool) -> (r: Result<
        Config,
        D,
    >)
        ensures
            r == Self::deserialized(decoded, use_flash_attn),
    {
        match decoded {
            Ok(basic) => Ok(basic.normalize(use_flash_attn)),
            Err(diagnostic) => Err(diagnostic),
        }
    }
}

/// A Gemma document that names no number of positions normalizes to 4096 of
/// them, and one that names no activation to none; a number of positions that
/// the document names is kept.
pub proof fn lemma_absent_fields_take_defaults(basic: GemmaBasicConfig, use_flash_attn: bool)
    ensures
        basic.max_position_embeddings is None ==> basic.canonical(
            use_flash_attn,
        ).max_position_embeddings == 4096,
        basic.max_position_embeddings matches Some(n) ==> basic.canonical(
            use_flash_attn,
        ).max_position_embeddings == n,
        basic.hidden_act is None ==> basic.canonical(use_flash_attn).hidden_act is None,
        basic.hidden_activation is None ==> basic.canonical(use_flash_attn).hidden_activation
            is None,
        basic.canonical(use_flash_attn).use_flash_attn == use_flash_attn,
{
}

/// The loader of Gemma models.
#[derive(Clone, Copy, Debug)]
pub struct GemmaLoader;

impl NormalModelLoader for GemmaLoader {
    type Basic = GemmaBasicConfig;

    type Config = Config;

    open spec fn canonical(&self, basic: GemmaBasicConfig, use_flash_attn: bool) -> Config {
        basic.canonical(use_flash_attn)
    }

    open spec fn gptx(&self) -> bool {
        true
    }

    fn load<W, D>(&self, config: Result<GemmaBasicConfig, D>, use_flash_attn: bool, vb: W) -> (r: Result<
        Construction<Config, W>,
        D,
    >) {
        match GemmaBasicConfig::deserialize(config, use_flash_attn) {
            Ok(config) => Ok(Construction { config, vb, is_gptx: self.is_gptx() }),
            Err(diagnostic) => Err(diagnostic),
        }
    }

    fn load_xlora<'a, W, L, X, O, D>(
        &self,
        config: Result<GemmaBasicConfig, D>,
        use_flash_attn: bool,
        vb: W,
        lora_config: &'a [(String, L)],
        xlora_config: Option<X>,
        xlora_ordering: O,
    ) -> (r: Result<XLoraConstruction<'a, Config, W, L, X, O>, D>) {
        match GemmaBasicConfig::deserialize(config, use_flash_attn) {
            Ok(config) => Ok(
                XLoraConstruction {
                    config,
                    vb,
                    lora_config,
                    xlora_config,
                    xlora_ordering,
                    is_gptx: self.is_gptx(),
                },
            ),
            Err(diagnostic) => Err(diagnostic),
        }
    }

    fn is_gptx(&self) -> (r: bool) {
        true
    }
}

} // verus!

//! The Llama architecture.

use crate::loader::{Construction, NormalModelLoader, XLoraConstruction};
use crate::number::{Double, Single};
use vstd::prelude::*;

verus! {

/// The base of the rotary embedding of a Llama model whose document names
/// none: ten thousand.
pub fn default_rope() -> (r: Single)
    ensures
        r == Single::ten_thousand(),
{
    Single { bits: 0x461C_4000 }
}

/// The canonical configuration of a Llama model.
#[derive(Clone, Copy, Debug, PartialEq, Eq)]
pub struct Config {
    pub hidden_size: usize,
    pub intermediate_size: usize,
    pub vocab_size: usize,
    pub num_hidden_layers: usize,
    pub num_attention_heads: usize,
    pub num_key_value_heads: usize,
    pub rms_norm_eps: Double,
    pub rope_theta: Single,
    pub use_flash_attn: bool,
}

/// A Llama configuration as the decoder makes it of a document.
/// `num_key_value_heads` and `rope_theta` may be left out of the document,
/// every other field is required of it.
#[derive(Clone, Copy, Debug, PartialEq, Eq)]
pub struct LlamaBasicConfig {
    pub hidden_size: usize,
    pub intermediate_size: usize,
    pub vocab_size: usize,
    pub num_hidden_layers: usize,
    pub num_attention_heads: usize,
    pub num_key_value_heads: Option<usize>,
    pub rms_norm_eps: Double,
    pub rope_theta: Option<Single>,
}

impl LlamaBasicConfig {
    /// The canonical configuration: as many key/value heads as attention heads
    /// where the document names no number of them, a rotary base of ten
    /// thousand where it names none, every other field as the document holds
    /// it, and the flash-attention flag that the caller chose.
    pub open spec fn canonical(self, use_flash_attn: bool) -> Config {
        Config {
            hidden_size: self.hidden_size,
            intermediate_size: self.intermediate_size,
            vocab_size: self.vocab_size,
            num_hidden_layers: self.num_hidden_layers,
            num_attention_heads: self.num_attention_heads,
            num_key_value_heads: match self.num_key_value_heads {
                Some(given) => given,
                None => self.num_attention_heads,
            },
            rms_norm_eps: self.rms_norm_eps,
            rope_theta: match self.rope_theta {
                Some(given) => given,
                None => Single::ten_thousand(),
            },
            use_flash_attn,
        }
    }

    /// What the outcome of decoding normalizes to: the canonical configuration
    /// of the record, or the diagnostic of the decoder as it came.
    pub open spec fn deserialized<D>(
        decoded: Result<LlamaBasicConfig, D>,
        use_flash_attn: bool,
    ) -> Result<Config, D> {
        match decoded {
            Ok(basic) => Ok(basic.canonical(use_flash_attn)),
            Err(diagnostic) => Err(diagnostic),
        }
    }

    /// Completes the record to the canonical configuration.
    pub fn normalize(self, use_flash_attn: bool) -> (r: Config)
        ensures
            r == self.canonical(use_flash_attn),
    {
        Config {
            hidden_size: self.hidden_size,
            intermediate_size: self.intermediate_size,
            vocab_size: self.vocab_size,
            num_hidden_layers: self.num_hidden_layers,
            num_attention_heads: self.num_attention_heads,
            num_key_value_heads: match self.num_key_value_heads {
                Some(given) => given,
                None => self.num_attention_heads,
            },
            rms_norm_eps: self.rms_norm_eps,
            rope_theta: match self.rope_theta {
                Some(given) => given,
                None => default_rope(),
            },
            use_flash_attn,
        }
    }

    /// Finishes the deserialization of a configuration document: the record
    /// that the decoder made of it is completed to the canonical
    /// configuration; the diagnostic with which the decoder turned it down is
    /// handed back unchanged, and no configuration with it.
    pub fn deserialize<D>(decoded: Result<LlamaBasicConfig, D>, use_flash_attn: bool) -> (r: Result<
        Config,
        D,
    >)
        ensures
            r == Self::deserialized(decoded, use_flash_attn),
    {
        match decoded {
            Ok(basic) => Ok(basic.normalize(use_flash_attn)),
            Err(diagnostic) => Err(diagnostic),
        }
    }
}

/// A Llama document that names no number of key/value heads normalizes to as
/// many as it has attention heads, and one that names no rotary base to ten
/// thousand; what the document names is kept.
pub proof fn lemma_absent_fields_take_defaults(basic: LlamaBasicConfig, use_flash_attn: bool)
    ensures
        basic.num_key_value_heads is None ==> basic.canonical(use_flash_attn).num_key_value_heads
            == basic.num_attention_heads,
        basic.num_key_value_heads matches Some(n) ==> basic.canonical(
            use_flash_attn,
        ).num_key_value_heads == n,
        basic.rope_theta is None ==> basic.canonical(use_flash_attn).rope_theta
            == Single::ten_thousand(),
        basic.rope_theta matches Some(base) ==> basic.canonical(use_flash_attn).rope_theta == base,
        basic.canonical(use_flash_attn).num_attention_heads == basic.num_attention_heads,
        basic.canonical(use_flash_attn).use_flash_attn == use_flash_attn,
{
}

/// The loader of Llama models.
#[derive(Clone, Copy, Debug)]
pub struct LlamaLoader;

impl NormalModelLoader for LlamaLoader {
    type Basic = LlamaBasicConfig;

    type Config = Config;

    open spec fn canonical(&self, basic: LlamaBasicConfig, use_flash_attn: bool) -> Config {
        basic.canonical(use_flash_attn)
    }

    open spec fn gptx(&self) -> bool {
        true
    }

    fn load<W, D>(&self, config: Result<LlamaBasicConfig, D>, use_flash_attn: bool, vb: W) -> (r: Result<
        Construction<Config, W>,
        D,
    >) {
        match LlamaBasicConfig::deserialize(config, use_flash_attn) {
            Ok(config) => Ok(Construction { config, vb, is_gptx: self.is_gptx() }),
            Err(diagnostic) => Err(diagnostic),
        }
    }

    fn load_xlora<'a, W, L, X, O, D>(
        &self,
        config: Result<LlamaBasicConfig, D>,
        use_flash_attn: bool,
        vb: W,
        lora_config: &'a [(String, L)],
        xlora_config: Option<X>,
        xlora_ordering: O,
    ) -> (r: Result<XLoraConstruction<'a, Config, W, L, X, O>, D>) {
        match LlamaBasicConfig::deserialize(config, use_flash_attn) {
            Ok(config) => Ok(
                XLoraConstruction {
                    config,
                    vb,
                    lora_config,
                    xlora_config,
                    xlora_ordering,
                    is_gptx: self.is_gptx(),
                },
            ),
            Err(diagnostic) => Err(diagnostic),
        }
    }

    fn is_gptx(&self) -> (r: bool) {
        true
    }
}

} // verus!

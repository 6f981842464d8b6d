//! What every architecture's loader offers.
//!
//! A loader takes what the decoder made of a configuration document, a record
//! or a diagnostic. From a record it makes the canonical configuration of its
//! architecture and describes the model that is to be built from it. A
//! diagnostic it hands back as it came. It builds nothing itself: the weights,
//! the adapter descriptors and the gating configuration pass through it
//! unread, into the description that it returns, and whoever holds the model
//! constructors builds from that.

use crate::gemma::GemmaLoader;
use crate::llama::LlamaLoader;
use crate::mistral::MistralLoader;
use crate::mixtral::MixtralLoader;
use crate::phi2::Phi2Loader;
use vstd::prelude::*;

verus! {

/// A plain model that is to be constructed.
#[derive(Debug)]
pub struct Construction<C, W> {
    /// The canonical configuration.
    pub config: C,
    /// The source of the weights, as the caller gave it.
    pub vb: W,
    /// Whether the rotary embedding takes positions in the gptx style.
    pub is_gptx: bool,
}

/// An adapter-augmented model that is to be constructed.
#[derive(Debug)]
pub struct XLoraConstruction<'a, C, W, L, X, O> {
    /// The canonical configuration.
    pub config: C,
    /// The source of the weights, as the caller gave it.
    pub vb: W,
    /// The named adapter configurations, as the caller gave them.
    pub lora_config: &'a [(String, L)],
    /// The dynamic-gating configuration, as the caller gave it: absent where
    /// the caller gave none.
    pub xlora_config: Option<X>,
    /// Which adapter goes to which layer, as the caller gave it.
    pub xlora_ordering: O,
    /// Whether the rotary embedding takes positions in the gptx style.
    pub is_gptx: bool,
}

/// The plain construction from a normalized configuration, or the diagnostic
/// that decoding ended in.
pub open spec fn plain<C, W, D>(config: Result<C, D>, vb: W, is_gptx: bool) -> Result<
    Construction<C, W>,
    D,
> {
    match config {
        Ok(config) => Ok(Construction { config, vb, is_gptx }),
        Err(diagnostic) => Err(diagnostic),
    }
}

/// The adapter-augmented construction from a normalized configuration, or the
/// diagnostic that decoding ended in.
pub open spec fn augmented<'a, C, W, L, X, O, D>(
    config: Result<C, D>,
    vb: W,
    lora_config: &'a [(String, L)],
    xlora_config: Option<X>,
    xlora_ordering: O,
    is_gptx: bool,
) -> Result<XLoraConstruction<'a, C, W, L, X, O>, D> {
    match config {
        Ok(config) => Ok(
            XLoraConstruction { config, vb, lora_config, xlora_config, xlora_ordering, is_gptx },
        ),
        Err(diagnostic) => Err(diagnostic),
    }
}

/// The operations of a loader, the same for every architecture.
pub trait NormalModelLoader {
    /// The record that the decoder makes of a configuration document.
    type Basic;

    /// The canonical configuration of the architecture.
    type Config;

    /// What a record normalizes to, with the flash-attention flag that the
    /// caller chose.
    spec fn canonical(&self, basic: Self::Basic, use_flash_attn: bool) -> Self::Config;

    /// The constant of the architecture that `is_gptx` returns.
    spec fn gptx(&self) -> bool;

    /// Describes the plain model to construct from a decoded configuration.
    /// Succeeds exactly when decoding did, and fails with the diagnostic of
    /// the decoder, unchanged.
    fn load<W, D>(&self, config: Result<Self::Basic, D>, use_flash_attn: bool, vb: W) -> (r: Result<
        Construction<Self::Config, W>,
        D,
    >)
        ensures
            r == plain(
                match config {
                    Ok(basic) => Ok(self.canonical(basic, use_flash_attn)),
                    Err(diagnostic) => Err(diagnostic),
                },
                vb,
                self.gptx(),
            ),
    ;

    /// Describes the adapter-augmented model to construct from a decoded
    /// configuration, which it normalizes as `load` does. The adapter
    /// descriptors are handed on as they came; a gating configuration that is
    /// absent stays absent.
    fn load_xlora<'a, W, L, X, O, D>(
        &self,
        config: Result<Self::Basic, D>,
        use_flash_attn: bool,
        vb: W,
        lora_config: &'a [(String, L)],
        xlora_config: Option<X>,
        xlora_ordering: O,
    ) -> (r: Result<XLoraConstruction<'a, Self::Config, W, L, X, O>, D>)
        ensures
            r == augmented(
                match config {
                    Ok(basic) => Ok(self.canonical(basic, use_flash_attn)),
                    Err(diagnostic) => Err(diagnostic),
                },
                vb,
                lora_config,
                xlora_config,
                xlora_ordering,
                self.gptx(),
            ),
    ;

    /// Whether the rotary embedding of the architecture takes positions in the
    /// gptx style: a constant of the architecture, computed from nothing.
    fn is_gptx(&self) -> (r: bool)
        ensures
            r == self.gptx(),
    ;
}

/// A construction comes about exactly when the document was decoded. A
/// diagnostic comes back as the decoder gave it: nothing is put in its place,
/// nothing is wrapped around it, and no configuration comes with it.
pub proof fn lemma_diagnostic_is_handed_back<C, W, D>(config: Result<C, D>, vb: W, is_gptx: bool)
    ensures
        plain(config, vb, is_gptx) is Ok <==> config is Ok,
        config matches Err(diagnostic) ==> plain(config, vb, is_gptx) == Err::<
            Construction<C, W>,
            D,
        >(diagnostic),
        config matches Ok(canonical) ==> plain(config, vb, is_gptx)->Ok_0.config == canonical,
{
}

/// An adapter-augmented construction comes about exactly when the
/// configuration was normalized, and then holds each adapter descriptor as the
/// caller gave it. In particular, where the caller gave no gating
/// configuration the construction holds none: no default is made up for it.
pub proof fn lemma_descriptors_are_forwarded<'a, C, W, L, X, O, D>(
    config: Result<C, D>,
    vb: W,
    lora_config: &'a [(String, L)],
    xlora_config: Option<X>,
    xlora_ordering: O,
    is_gptx: bool,
)
    ensures
        ({
            let built = augmented(config, vb, lora_config, xlora_config, xlora_ordering, is_gptx);
            &&& built is Ok <==> config is Ok
            &&& built is Err ==> built->Err_0 == config->Err_0
            &&& built is Ok ==> {
                &&& built->Ok_0.config == config->Ok_0
                &&& built->Ok_0.vb == vb
                &&& built->Ok_0.lora_config == lora_config
                &&& built->Ok_0.xlora_config == xlora_config
                &&& built->Ok_0.xlora_ordering == xlora_ordering
                &&& built->Ok_0.is_gptx == is_gptx
                &&& xlora_config is None ==> built->Ok_0.xlora_config is None
            }
        }),
{
}

/// Plain and adapter-augmented loading normalize alike: from one outcome of
/// normalization both come about or both fail, with the same configuration or
/// the same diagnostic.
pub proof fn lemma_same_normalization<'a, C, W, L, X, O, D>(
    config: Result<C, D>,
    vb: W,
    lora_config: &'a [(String, L)],
    xlora_config: Option<X>,
    xlora_ordering: O,
    is_gptx: bool,
)
    ensures
        ({
            let bare = plain(config, vb, is_gptx);
            let built = augmented(config, vb, lora_config, xlora_config, xlora_ordering, is_gptx);
            &&& bare is Ok <==> built is Ok
            &&& bare is Ok ==> bare->Ok_0.config == built->Ok_0.config
            &&& bare is Ok ==> bare->Ok_0.vb == built->Ok_0.vb
            &&& bare is Ok ==> bare->Ok_0.is_gptx == built->Ok_0.is_gptx
            &&& bare is Err ==> bare->Err_0 == built->Err_0
        }),
{
}

/// Every architecture's rotary embedding takes positions in the gptx style:
/// the constant of each of the five loaders is `true`.
pub proof fn lemma_every_loader_is_gptx()
    ensures
        MistralLoader.gptx(),
        GemmaLoader.gptx(),
        MixtralLoader.gptx(),
        LlamaLoader.gptx(),
        Phi2Loader.gptx(),
{
}

} // verus!

//! Loader registry for transformer model architectures.
//!
//! A loading session starts from an architecture selector, a JSON configuration
//! document and a flash-attention flag. This crate resolves the selector,
//! completes what the decoder made of the document to the canonical
//! configuration record of the selected architecture, and describes the model
//! that is to be constructed from it, either plain or augmented with low-rank
//! adapters.
//!
//! Two things happen outside this crate, before and after it. The text of a
//! document is decoded by the decoder that serde derives for the record of
//! its schema, so that a text which is turned down is turned down in the
//! decoder's own words, with the line and the column. And the model is built
//! by the constructors of the runtime. This crate takes the outcome of the
//! first, a record or a diagnostic, and hands on the diagnostic untouched or
//! the description for the second.

pub mod activation;
pub mod arch;
pub mod gemma;
pub mod llama;
pub mod loader;
pub mod mistral;
pub mod mixtral;
pub mod number;
pub mod phi2;
pub mod text;

pub use arch::NormalLoaderType;
pub use gemma::{default_max_position_embeddings, GemmaBasicConfig, GemmaLoader};
pub use llama::{default_rope, LlamaBasicConfig, LlamaLoader};
pub use loader::{Construction, NormalModelLoader, XLoraConstruction};
pub use mistral::{MistralBasicConfig, MistralLoader};
pub use mixtral::{MixtralBasicConfig, MixtralLoader};
pub use number::{Double, Single};
pub use phi2::{Phi2BasicConfig, Phi2Loader};

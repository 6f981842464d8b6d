use model_loaders::{
    Double, GemmaBasicConfig, GemmaLoader, LlamaBasicConfig, LlamaLoader, MistralBasicConfig,
    MistralLoader, MixtralBasicConfig, MixtralLoader, NormalModelLoader, Phi2BasicConfig,
    Phi2Loader, Single,
};

use candle_nn::Activation;

fn double(x: f64) -> Double {
    Double::from_bits(x.to_bits())
}

fn mistral() -> MistralBasicConfig {
    MistralBasicConfig {
        vocab_size: 32000,
        hidden_size: 4096,
        intermediate_size: 14336,
        num_hidden_layers: 32,
        num_attention_heads: 32,
        num_key_value_heads: 8,
        hidden_act: Activation::Silu,
        max_position_embeddings: 32768,
        rms_norm_eps: double(1e-5),
        rope_theta: double(10000.0),
        sliding_window: None,
    }
}

fn gemma() -> GemmaBasicConfig {
    GemmaBasicConfig {
        attention_bias: false,
        head_dim: 256,
        hidden_act: None,
        hidden_activation: None,
        hidden_size: 3072,
        intermediate_size: 24576,
        num_attention_heads: 16,
        num_hidden_layers: 28,
        num_key_value_heads: 16,
        rms_norm_eps: double(1e-6),
        rope_theta: double(10000.0),
        vocab_size: 256000,
        max_position_embeddings: None,
    }
}

fn llama() -> LlamaBasicConfig {
    LlamaBasicConfig {
        hidden_size: 4096,
        intermediate_size: 11008,
        vocab_size: 32000,
        num_hidden_layers: 32,
        num_attention_heads: 32,
        num_key_value_heads: None,
        rms_norm_eps: double(1e-6),
        rope_theta: None,
    }
}

fn small_llama() -> LlamaBasicConfig {
    LlamaBasicConfig {
        hidden_size: 64,
        intermediate_size: 128,
        vocab_size: 1000,
        num_hidden_layers: 2,
        num_attention_heads: 4,
        num_key_value_heads: Some(2),
        rms_norm_eps: double(1e-5),
        rope_theta: Some(Single::from_bits(500000.0f32.to_bits())),
    }
}

fn mixtral() -> MixtralBasicConfig {
    MixtralBasicConfig {
        vocab_size: 32000,
        hidden_size: 4096,
        intermediate_size: 14336,
        num_hidden_layers: 32,
        num_attention_heads: 32,
        num_key_value_heads: 8,
        hidden_act: Activation::Silu,
        max_position_embeddings: 32768,
        rms_norm_eps: double(1e-5),
        rope_theta: double(1000000.0),
        sliding_window: 4096,
        num_experts_per_tok: 2,
        num_local_experts: 8,
    }
}

fn phi2() -> Phi2BasicConfig {
    Phi2BasicConfig {
        vocab_size: 51200,
        hidden_size: 2560,
        intermediate_size: 10240,
        num_hidden_layers: 32,
        num_attention_heads: 32,
        num_key_value_heads: None,
        hidden_act: Activation::NewGelu,
        max_position_embeddings: 2048,
        layer_norm_eps: double(1e-5),
        tie_word_embeddings: false,
        rope_theta: Single::from_bits(10000.0f32.to_bits()),
        partial_rotary_factor: double(0.4),
        qk_layernorm: false,
    }
}

/// A diagnostic as the JSON decoder gives it, with its line and column.
fn diagnostic() -> serde_json::Error {
    serde_json::from_str::<Vec<usize>>("[1,\n  \"two\"]").unwrap_err()
}

fn decoded<T>(record: T) -> Result<T, serde_json::Error> {
    Ok(record)
}

/// Stands for the source of the weights.
#[derive(Debug, PartialEq)]
struct Weights(&'static str);

/// Stands for the configuration of one adapter.
#[derive(Debug, PartialEq)]
struct Adapter {
    rank: usize,
}

/// Stands for the dynamic-gating configuration.
#[derive(Debug, PartialEq)]
struct Gating {
    depth: usize,
}

/// Stands for the order of adapters over layers.
#[derive(Debug, PartialEq)]
struct Layers(Vec<usize>);

#[test]
fn every_loader_is_gptx() {
    assert!(MistralLoader.is_gptx());
    assert!(GemmaLoader.is_gptx());
    assert!(LlamaLoader.is_gptx());
    assert!(MixtralLoader.is_gptx());
    assert!(Phi2Loader.is_gptx());
}

#[test]
fn load_describes_the_plain_model() {
    let built =
        MistralLoader.load(decoded(mistral()), true, Weights("mistral.safetensors")).unwrap();
    assert_eq!(built.config, mistral().normalize(true));
    assert!(built.config.use_flash_attn);
    assert_eq!(built.vb, Weights("mistral.safetensors"));
    assert!(built.is_gptx);
}

#[test]
fn every_loader_loads_its_own_architecture() {
    let built = GemmaLoader.load(decoded(gemma()), false, 1u8).unwrap();
    assert_eq!(built.config, gemma().normalize(false));
    assert_eq!(built.config.max_position_embeddings, 4096);
    assert_eq!(built.vb, 1);
    assert!(built.is_gptx);

    let built = LlamaLoader.load(decoded(llama()), false, 2u8).unwrap();
    assert_eq!(built.config, llama().normalize(false));
    assert_eq!(built.config.num_key_value_heads, 32);
    assert_eq!(built.vb, 2);
    assert!(built.is_gptx);

    let built = MixtralLoader.load(decoded(mixtral()), false, 3u8).unwrap();
    assert_eq!(built.config, mixtral().normalize(false));
    assert_eq!(built.config.num_local_experts, 8);
    assert_eq!(built.vb, 3);
    assert!(built.is_gptx);

    let built = Phi2Loader.load(decoded(phi2()), false, 4u8).unwrap();
    assert_eq!(built.config, phi2().normalize(false));
    assert_eq!(f64::from_bits(built.config.partial_rotary_factor.bits), 0.4);
    assert_eq!(built.vb, 4);
    assert!(built.is_gptx);
}

#[test]
fn load_fails_as_decoding_did() {
    let words = diagnostic().to_string();
    let error = MistralLoader.load(Err(diagnostic()), false, ()).unwrap_err();
    assert_eq!(error.to_string(), words);
    assert_eq!((error.line(), error.column()), (2, 7));
    let error = GemmaLoader.load(Err(diagnostic()), true, ()).unwrap_err();
    assert_eq!(error.to_string(), words);
    let error = LlamaLoader.load(Err(diagnostic()), false, ()).unwrap_err();
    assert_eq!(error.to_string(), words);
    let error = MixtralLoader.load(Err(diagnostic()), false, ()).unwrap_err();
    assert_eq!(error.to_string(), words);
    let error = Phi2Loader.load(Err(diagnostic()), false, ()).unwrap_err();
    assert_eq!(error.to_string(), words);
}

#[test]
fn a_missing_field_gives_no_configuration() {
    // What the decoder says of a Mistral document without `vocab_size`.
    let missing = "missing field `vocab_size` at line 1 column 222".to_string();
    let outcome = MistralLoader.load(Err(missing.clone()), false, Weights("w"));
    assert_eq!(outcome.unwrap_err(), missing);
    assert_eq!(MistralBasicConfig::deserialize(Err(missing.clone()), false), Err(missing));
}

#[test]
fn load_xlora_without_gating_forwards_none() {
    let adapters = vec![("a".to_string(), Adapter { rank: 8 })];
    let built = MistralLoader
        .load_xlora(
            decoded(mistral()),
            false,
            Weights("w"),
            &adapters,
            None::<Gating>,
            Layers(vec![0, 1]),
        )
        .unwrap();
    assert_eq!(built.xlora_config, None);
    assert_eq!(built.lora_config, &adapters[..]);
    assert_eq!(built.xlora_ordering, Layers(vec![0, 1]));
    assert_eq!(built.vb, Weights("w"));
    assert_eq!(built.config, mistral().normalize(false));
    assert!(built.is_gptx);
}

#[test]
fn load_xlora_forwards_the_descriptors_as_they_came() {
    let adapters = vec![
        ("first".to_string(), Adapter { rank: 8 }),
        ("second".to_string(), Adapter { rank: 16 }),
    ];
    let built = LlamaLoader
        .load_xlora(
            decoded(llama()),
            true,
            Weights("w"),
            &adapters,
            Some(Gating { depth: 2 }),
            Layers(vec![1, 0, 1]),
        )
        .unwrap();
    assert_eq!(built.xlora_config, Some(Gating { depth: 2 }));
    assert_eq!(built.lora_config.len(), 2);
    assert_eq!(built.lora_config[0].0, "first");
    assert_eq!(built.lora_config[1].1, Adapter { rank: 16 });
    assert_eq!(built.xlora_ordering, Layers(vec![1, 0, 1]));
    assert_eq!(built.config, llama().normalize(true));
    assert!(built.is_gptx);
}

#[test]
fn every_loader_loads_its_adapter_augmented_model() {
    let none: Vec<(String, Adapter)> = Vec::new();
    let built = GemmaLoader
        .load_xlora(decoded(gemma()), false, (), &none, None::<Gating>, ())
        .unwrap();
    assert_eq!(built.config, gemma().normalize(false));
    assert!(built.lora_config.is_empty());
    assert!(built.xlora_config.is_none());
    assert!(built.is_gptx);

    let built = MixtralLoader
        .load_xlora(decoded(mixtral()), true, (), &none, Some(Gating { depth: 1 }), ())
        .unwrap();
    assert_eq!(built.config, mixtral().normalize(true));
    assert_eq!(built.xlora_config, Some(Gating { depth: 1 }));
    assert!(built.is_gptx);

    let built =
        Phi2Loader.load_xlora(decoded(phi2()), false, (), &none, None::<Gating>, ()).unwrap();
    assert_eq!(built.config, phi2().normalize(false));
    assert!(built.xlora_config.is_none());
    assert!(built.is_gptx);
}

#[test]
fn load_xlora_fails_as_decoding_did() {
    let none: Vec<(String, Adapter)> = Vec::new();
    let words = diagnostic().to_string();
    let error = MistralLoader
        .load_xlora(Err(diagnostic()), false, (), &none, Some(Gating { depth: 1 }), ())
        .unwrap_err();
    assert_eq!(error.to_string(), words);
    assert_eq!((error.line(), error.column()), (2, 7));
    let error = Phi2Loader
        .load_xlora(Err(diagnostic()), false, (), &none, None::<Gating>, ())
        .unwrap_err();
    assert_eq!(error.to_string(), words);
}

#[test]
fn calls_on_one_loader_do_not_interfere() {
    let loader = LlamaLoader;
    let first = loader.load(decoded(llama()), false, "a").unwrap();
    let failed = loader.load(Err(diagnostic()), true, "b");
    let second = loader.load(decoded(small_llama()), true, "c").unwrap();
    let again = loader.load(decoded(llama()), false, "a").unwrap();

    assert!(failed.is_err());
    assert_eq!(first.config, again.config);
    assert_eq!(first.config.hidden_size, 4096);
    assert_eq!(first.config.num_key_value_heads, 32);
    assert!(!first.config.use_flash_attn);
    assert_eq!(second.config.hidden_size, 64);
    assert_eq!(second.config.num_key_value_heads, 2);
    assert_eq!(f32::from_bits(second.config.rope_theta.bits), 500000.0);
    assert!(second.config.use_flash_attn);
    assert_eq!((first.vb, second.vb, again.vb), ("a", "c", "a"));
}

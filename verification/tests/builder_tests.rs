use embedding_core::builder::{plan_load, T5ModelBuilder};
use embedding_core::device::DeviceChoice;
use embedding_core::errors::BuildError;
use embedding_core::identity::{Settings, WeightLayout};

fn small_config() -> &'static str {
    "{\"d_ff\": 2048, \"d_kv\": 64, \"d_model\": 512, \"decoder_start_token_id\": 0, \
     \"dropout_rate\": 0.1, \"eos_token_id\": 1, \"initializer_factor\": 1.0, \
     \"is_encoder_decoder\": true, \"layer_norm_epsilon\": 1e-06, \"model_type\": \"t5\", \
     \"num_heads\": 8, \"num_layers\": 6, \"pad_token_id\": 0, \
     \"relative_attention_num_buckets\": 32, \"vocab_size\": 32128, \"use_cache\": false}"
}

#[test]
fn load_keeps_what_it_is_given() {
    let settings = Settings::resident();
    let weights = vec!["/cache/model.safetensors".to_string()];
    let builder =
        T5ModelBuilder::load(&settings, DeviceChoice::Cpu, small_config(), weights.clone())
            .unwrap();
    assert_eq!(builder.device, DeviceChoice::Cpu);
    assert_eq!(builder.weights_filename, weights);
    assert_eq!(builder.config.d_model, 512);
    assert_eq!(builder.config.vocab_size, 32128);
}

#[test]
fn load_switches_caching_on_by_default() {
    let settings = Settings::resident();
    let builder =
        T5ModelBuilder::load(&settings, DeviceChoice::Cpu, small_config(), vec![]).unwrap();
    assert!(builder.use_cache);
    assert!(builder.config.use_cache);
}

#[test]
fn load_switches_caching_off_on_request() {
    let mut settings = Settings::resident();
    settings.disable_cache = true;
    let text = small_config().replace("\"use_cache\": false", "\"use_cache\": true");
    let builder = T5ModelBuilder::load(&settings, DeviceChoice::Metal, &text, vec![]).unwrap();
    assert!(!builder.use_cache);
    assert!(!builder.config.use_cache);
    assert_eq!(builder.device, DeviceChoice::Metal);
}

#[test]
fn load_refuses_a_bad_configuration() {
    let settings = Settings::resident();
    let r = T5ModelBuilder::load(&settings, DeviceChoice::Cpu, "{\"d_model\": 512}", vec![]);
    assert_eq!(r.err(), Some(BuildError::InvalidConfig));
    let r = T5ModelBuilder::load(&settings, DeviceChoice::Cpu, "not json", vec![]);
    assert_eq!(r.err(), Some(BuildError::InvalidConfig));
    let r = T5ModelBuilder::load(&settings, DeviceChoice::Cpu, "[]", vec![]);
    assert_eq!(r.err(), Some(BuildError::InvalidConfig));
}

#[test]
fn plan_for_the_resident_settings() {
    let plan = plan_load(&Settings::resident());
    assert_eq!(plan.device, DeviceChoice::Cpu);
    assert_eq!(plan.identity.model_id, "t5-small");
    assert_eq!(plan.identity.revision, "refs/pr/15");
    assert_eq!(plan.layout, WeightLayout::Single);
    assert_eq!(plan.config_file, "config.json");
    assert_eq!(plan.tokenizer_file, "tokenizer.json");
    assert_eq!(plan.weight_file, "model.safetensors");
}

#[test]
fn plan_for_a_sharded_model() {
    let mut settings = Settings::resident();
    settings.model_id = Some("google/flan-t5-xxl".to_string());
    let plan = plan_load(&settings);
    assert_eq!(plan.identity.model_id, "google/flan-t5-xxl");
    assert_eq!(plan.identity.revision, "main");
    assert_eq!(plan.layout, WeightLayout::Sharded);
    assert_eq!(plan.weight_file, "model.safetensors.index.json");
}

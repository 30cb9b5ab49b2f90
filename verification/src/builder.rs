//! What is loaded for the resident model, and the builder that holds it.

use crate::device::{device, selected, DeviceChoice};
use crate::errors::BuildError;
use crate::identity::{
    config_file, identity_of, layout_of, text_of, tokenizer_file, weight_entry_file,
    weight_entry_of, ModelIdentity, Settings, WeightLayout,
};
use vstd::prelude::*;

verus! {

/// The hyperparameters of a T5 model.
#[verifier::external_type_specification]
#[verifier::external_body]
pub struct ExT5Config(candle_transformers::models::t5::Config);

/// Whether the JSON parser accepts `text` as the hyperparameters of a T5
/// model.
pub uninterp spec fn config_accepted(text: Seq<char>) -> bool;

/// `serde_json::from_str` into `candle_transformers::models::t5::Config`. The
/// contract only names when the outcome is `Ok`; the value is opaque.
#[verifier::external_body]
fn parse_config(text: &str) -> (r: Result<
    candle_transformers::models::t5::Config,
    serde_json::Error,
>)
    ensures
        r is Ok == config_accepted(text@),
{
    serde_json::from_str(text)
}

/// Writes the field `use_cache` of `candle_transformers::models::t5::Config`.
/// The value is opaque, so nothing is claimed of it.
#[verifier::external_body]
fn set_use_cache(config: &mut candle_transformers::models::t5::Config, enabled: bool) {
    config.use_cache = enabled;
}

/// What has to be fetched for a model, and where it will run.
#[derive(Debug)]
pub struct LoadPlan {
    pub device: DeviceChoice,
    pub identity: ModelIdentity,
    pub layout: WeightLayout,
    /// The name of the configuration file.
    pub config_file: String,
    /// The name of the tokenizer file.
    pub tokenizer_file: String,
    /// The name of the weight file, or of the index of its shards.
    pub weight_file: String,
}

fn copy_of(text: &Option<String>) -> (copy: Option<String>)
    ensures
        text_of(copy) == text_of(*text),
{
    match text {
        Some(s) => Some(s.clone()),
        None => None,
    }
}

/// Everything that is decided before the first fetch: the device, the identity
/// of the model, the layout of its weights and the three names to ask for.
pub fn plan_load(settings: &Settings) -> (plan: LoadPlan)
    ensures
        settings.cpu ==> plan.device == DeviceChoice::Cpu,
        !settings.cpu ==> exists|cuda: bool, metal: bool|
            plan.device == #[trigger] selected(false, cuda, metal),
        plan.identity@ == identity_of(text_of(settings.model_id), text_of(settings.revision)),
        plan.layout == layout_of(plan.identity@.0),
        plan.config_file@ == "config.json"@,
        plan.tokenizer_file@ == "tokenizer.json"@,
        plan.weight_file@ == weight_entry_of(plan.layout),
{
    let device = device(settings.cpu);
    let identity = ModelIdentity::resolve(copy_of(&settings.model_id), copy_of(&settings.revision));
    let layout = identity.weight_layout();
    LoadPlan {
        device,
        identity,
        layout,
        config_file: config_file(),
        tokenizer_file: tokenizer_file(),
        weight_file: weight_entry_file(layout),
    }
}

/// Holds what a model is built from: the device, the hyperparameters and the
/// local weight files.
#[derive(Debug)]
pub struct T5ModelBuilder {
    pub device: DeviceChoice,
    pub config: candle_transformers::models::t5::Config,
    /// Whether layer caching is enabled; `config` was set accordingly.
    pub use_cache: bool,
    pub weights_filename: Vec<String>,
}

impl T5ModelBuilder {
    /// Makes the builder from the text of the configuration file and the
    /// local weight files. It fails, with `InvalidConfig`, exactly where the
    /// configuration is not accepted. Layer caching is on unless the settings
    /// switch it off.
    pub fn load(
        settings: &Settings,
        device: DeviceChoice,
        config_text: &str,
        weights_filename: Vec<String>,
    ) -> (r: Result<Self, BuildError>)
        ensures
            r is Ok <==> config_accepted(config_text@),
            r matches Err(e) ==> e == BuildError::InvalidConfig,
            r matches Ok(builder) ==> {
                &&& builder.device == device
                &&& builder.use_cache == !settings.disable_cache
                &&& builder.weights_filename == weights_filename
            },
    {
        match parse_config(config_text) {
            Ok(parsed) => {
                let mut config = parsed;
                let use_cache = settings.use_cache();
                set_use_cache(&mut config, use_cache);
                Ok(T5ModelBuilder { device, config, use_cache, weights_filename })
            },
            Err(_) => Err(BuildError::InvalidConfig),
        }
    }
}

} // verus!

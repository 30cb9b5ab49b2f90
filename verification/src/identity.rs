//! Which model is loaded, and how its weights are laid out upstream.

use vstd::prelude::*;

verus! {

/// The model that is loaded when none is named.
pub open spec fn default_model() -> Seq<char> {
    "t5-small"@
}

/// The revision of the default model that is loaded when none is named.
pub open spec fn default_revision() -> Seq<char> {
    "refs/pr/15"@
}

/// The revision of a named model that is loaded when none is named.
pub open spec fn main_revision() -> Seq<char> {
    "main"@
}

/// A model identifier and a revision of it. Fixed once resolved.
#[derive(Clone, Debug)]
pub struct ModelIdentity {
    pub model_id: String,
    pub revision: String,
}

impl View for ModelIdentity {
    type V = (Seq<char>, Seq<char>);

    open spec fn view(&self) -> (Seq<char>, Seq<char>) {
        (self.model_id@, self.revision@)
    }
}

/// The identity that a pair of optional overrides stands for.
pub open spec fn identity_of(model_id: Option<Seq<char>>, revision: Option<Seq<char>>) -> (
    Seq<char>,
    Seq<char>,
) {
    match (model_id, revision) {
        (Some(m), Some(r)) => (m, r),
        (Some(m), None) => (m, main_revision()),
        (None, Some(r)) => (default_model(), r),
        (None, None) => (default_model(), default_revision()),
    }
}

pub open spec fn text_of(s: Option<String>) -> Option<Seq<char>> {
    match s {
        Some(s) => Some(s@),
        None => None,
    }
}

impl ModelIdentity {
    /// Resolves the overrides: a named model without a revision is taken at
    /// `main`, a missing model is the default one, and with neither given the
    /// default model is taken at its own default revision.
    pub fn resolve(model_id: Option<String>, revision: Option<String>) -> (identity: Self)
        ensures
            identity@ == identity_of(text_of(model_id), text_of(revision)),
    {
        match (model_id, revision) {
            (Some(m), Some(r)) => ModelIdentity { model_id: m, revision: r },
            (Some(m), None) => ModelIdentity { model_id: m, revision: "main".to_owned() },
            (None, Some(r)) => ModelIdentity { model_id: "t5-small".to_owned(), revision: r },
            (None, None) => ModelIdentity {
                model_id: "t5-small".to_owned(),
                revision: "refs/pr/15".to_owned(),
            },
        }
    }

    /// How this model's weights are stored.
    pub fn weight_layout(&self) -> (layout: WeightLayout)
        ensures
            layout == layout_of(self.model_id@),
    {
        weight_layout(&self.model_id)
    }
}

/// How the weights of a model are stored upstream.
#[derive(Clone, Copy, Debug, PartialEq, Eq, Structural)]
pub enum WeightLayout {
    /// One file holds all weights.
    Single,
    /// An index names the files that hold the weights.
    Sharded,
}

/// The two large models whose weights are sharded; every other model has a
/// single weight file.
pub open spec fn layout_of(model_id: Seq<char>) -> WeightLayout {
    if model_id == "google/flan-t5-xxl"@ || model_id == "google/flan-ul2"@ {
        WeightLayout::Sharded
    } else {
        WeightLayout::Single
    }
}

/// The layout of a model's weights, by its identifier.
pub fn weight_layout(model_id: &String) -> (layout: WeightLayout)
    ensures
        layout == layout_of(model_id@),
{
    let xxl: String = "google/flan-t5-xxl".to_owned();
    let ul2: String = "google/flan-ul2".to_owned();
    if *model_id == xxl || *model_id == ul2 {
        WeightLayout::Sharded
    } else {
        WeightLayout::Single
    }
}

/// The name of the configuration file.
pub fn config_file() -> (name: String)
    ensures
        name@ == "config.json"@,
{
    "config.json".to_owned()
}

/// The name of the tokenizer file.
pub fn tokenizer_file() -> (name: String)
    ensures
        name@ == "tokenizer.json"@,
{
    "tokenizer.json".to_owned()
}

pub open spec fn weight_entry_of(layout: WeightLayout) -> Seq<char> {
    match layout {
        WeightLayout::Single => "model.safetensors"@,
        WeightLayout::Sharded => "model.safetensors.index.json"@,
    }
}

/// The file that is fetched first for the weights: the weight file itself, or
/// the index of its shards.
pub fn weight_entry_file(layout: WeightLayout) -> (name: String)
    ensures
        name@ == weight_entry_of(layout),
{
    match layout {
        WeightLayout::Single => "model.safetensors".to_owned(),
        WeightLayout::Sharded => "model.safetensors.index.json".to_owned(),
    }
}

/// The key of the shard index under which the weights are mapped to files.
pub fn weight_map_key() -> (key: &'static str)
    ensures
        key@ == "weight_map"@,
{
    "weight_map"
}

/// The settings that are supplied from outside.
#[derive(Clone, Debug)]
pub struct Settings {
    /// Run on the CPU even where an accelerator is available.
    pub cpu: bool,
    /// The model to load in place of the default one.
    pub model_id: Option<String>,
    /// The revision to load in place of the default one.
    pub revision: Option<String>,
    /// Switch layer caching off.
    pub disable_cache: bool,
    /// Scale each embedding to unit length.
    pub normalize_embeddings: bool,
}

impl Settings {
    /// The settings of the resident model: on the CPU, the default model,
    /// caching on, embeddings normalized.
    pub fn resident() -> (s: Self)
        ensures
            s.cpu,
            s.model_id is None,
            s.revision is None,
            !s.disable_cache,
            s.normalize_embeddings,
    {
        Settings {
            cpu: true,
            model_id: None,
            revision: None,
            disable_cache: false,
            normalize_embeddings: true,
        }
    }

    /// Whether layer caching is enabled.
    pub fn use_cache(&self) -> (enabled: bool)
        ensures
            enabled == !self.disable_cache,
    {
        !self.disable_cache
    }
}

} // verus!
